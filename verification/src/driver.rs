//! Packet codec and driver orchestration.
//!
//! An outbound packet is one address/operation byte followed by the four
//! payload bytes in reversed order: register values are kept
//! least-significant byte first in memory, while the wire transmits the
//! most-significant data byte first. An inbound packet is one status byte
//! followed by four payload bytes in the same wire order. The codec is the
//! single place that bridges the two conventions.

use vstd::prelude::*;

use crate::registers::Register;
use crate::registers::spec_bytes_value;
use crate::registers::spec_value_bytes;
use crate::spi_status::SpiStatus;

verus! {

/// The operation requested by an outbound packet: its code is OR'd into the
/// top bit of the address byte.
pub enum Operation {
    Read,
    Write,
}

impl Operation {
    /// The operation's code: `0x00` for a read, `0x80` for a write.
    pub open spec fn spec_code(self) -> u8 {
        match self {
            Operation::Read => 0x00,
            Operation::Write => 0x80,
        }
    }

    /// The operation's code as an executable value.
    pub fn code(&self) -> (r: u8)
        ensures
            r == self.spec_code(),
    {
        match self {
            Operation::Read => 0x00,
            Operation::Write => 0x80,
        }
    }
}

/// The five bytes of an outbound packet: the address with the operation code
/// OR'd into its top bit, then the payload bytes in reversed (wire) order.
pub open spec fn spec_create_packet(address: u8, op: Operation, payload: Seq<u8>) -> Seq<u8>
    recommends
        payload.len() == 4,
{
    seq![address | op.spec_code(), payload[3], payload[2], payload[1], payload[0]]
}

/// The payload of an inbound packet, turned back from wire order into the
/// register's natural least-significant-byte-first order.
pub open spec fn spec_packet_payload(packet: Seq<u8>) -> Seq<u8>
    recommends
        packet.len() == 5,
{
    seq![packet[4], packet[3], packet[2], packet[1]]
}

/// Builds the 5-byte outbound packet for one transaction.
pub fn create_packet(address: u8, op: Operation, tx_data: [u8; 4]) -> (r: [u8; 5])
    requires
        address < 0x80,
    ensures
        r@ == spec_create_packet(address, op, tx_data@),
{
    let r: [u8; 5] = [
        address | op.code(),
        tx_data[3],
        tx_data[2],
        tx_data[1],
        tx_data[0],
    ];
    proof {
        assert(r@ =~= spec_create_packet(address, op, tx_data@));
    }
    r
}

/// Splits a 5-byte inbound packet into the decoded status word and the four
/// payload bytes in natural order.
pub fn parse_miso_packet(data_bytes: [u8; 5]) -> (r: (SpiStatus, [u8; 4]))
    ensures
        r.0.spec_bits() == data_bytes@[0],
        r.1@ == spec_packet_payload(data_bytes@),
{
    let status = SpiStatus::from_byte(data_bytes[0]);
    let data: [u8; 4] = [data_bytes[4], data_bytes[3], data_bytes[2], data_bytes[1]];
    proof {
        assert(data@ =~= spec_packet_payload(data_bytes@));
    }
    (status, data)
}

/// Parses a 5-byte inbound packet into the decoded status word and the typed
/// register rebuilt from the payload.
pub fn parse_packet<Reg: Register>(data_bytes: [u8; 5]) -> (r: (SpiStatus, Reg))
    ensures
        r.0.spec_bits() == data_bytes@[0],
        r.1.spec_bits() == spec_bytes_value(spec_packet_payload(data_bytes@))
            & Reg::spec_mask(),
{
    let (status, bytes) = parse_miso_packet(data_bytes);
    (status, Reg::from_bytes(bytes))
}

/// Decode is the exact inverse of encode on the payload portion: for any
/// address and either operation, parsing the packet `create_packet` builds
/// returns the payload it was given.
pub proof fn lemma_encode_decode_payload(address: u8, op: Operation, payload: Seq<u8>)
    requires
        payload.len() == 4,
    ensures
        spec_packet_payload(spec_create_packet(address, op, payload)) == payload,
{
    assert(spec_packet_payload(spec_create_packet(address, op, payload)) =~= payload);
}

/// The SPI transport the driver drives: one chip-select-bracketed full-duplex
/// exchange of five bytes. The transport is an external collaborator supplied
/// by the caller; an implementation models itself through the two spec
/// functions, and nothing here constrains when it fails — transport errors
/// propagate to the driver's caller unmodified.
pub trait Transport {
    /// The transport-defined error of a failed exchange.
    type TransportError;

    /// How many exchanges this transport has performed. The default models
    /// nothing; a transport meant to be reasoned about overrides it with its
    /// own account, and an implementation written outside the verified world
    /// may leave it be.
    open spec fn spec_exchanges(&self) -> nat {
        0
    }

    /// The five bytes a successful exchange would answer the given outbound
    /// packet with. The default models nothing; a transport meant to be
    /// reasoned about overrides it with its own account.
    open spec fn spec_response(&self, tx: Seq<u8>) -> Seq<u8> {
        Seq::empty()
    }

    /// Performs one full-duplex exchange: sends the five outbound bytes and
    /// returns the five inbound ones, or the transport's error.
    fn transfer(&mut self, tx: &[u8; 5]) -> (r: Result<[u8; 5], Self::TransportError>)
        ensures
            final(self).spec_exchanges() == old(self).spec_exchanges() + 1,
            r matches Ok(rx) ==> rx@ == old(self).spec_response(tx@),
    ;
}

/// Register-access driver for the motor controller chip. Every call is one
/// independent, complete transaction on the exclusively owned transport; no
/// state persists between calls.
pub struct Tmc5160<T: Transport> {
    pub spi: T,
}

impl<T: Transport> Tmc5160<T> {
    /// Writes a register: one exchange carrying the register's address, the
    /// write operation and its encoded bytes, answering the status word
    /// decoded from the response's first byte. The response payload (the
    /// chip's write-ack payload) is ignored.
    pub fn write<Reg: Register>(&mut self, data: &Reg) -> (r: Result<
        SpiStatus,
        T::TransportError,
    >)
        ensures
            final(self).spi.spec_exchanges() == old(self).spi.spec_exchanges() + 1,
            r matches Ok(s) ==> s.spec_bits() == old(self).spi.spec_response(
                spec_create_packet(
                    Reg::spec_address(),
                    Operation::Write,
                    spec_value_bytes(data.spec_bits() & Reg::spec_mask()),
                ),
            )[0],
    {
        let address = data.get_address();
        let tx_data = data.get_bytes();
        self.write_impl(address, tx_data)
    }

    /// Reads a register: one exchange carrying the register's address, the
    /// read operation and a zero payload, answering the decoded status word
    /// and the register rebuilt from the response payload. By the chip's
    /// pipelining, that payload belongs to the address requested in the
    /// previous transaction; the driver does not compensate for this.
    pub fn read<Reg: Register>(&mut self) -> (r: Result<
        (SpiStatus, Reg),
        T::TransportError,
    >)
        ensures
            final(self).spi.spec_exchanges() == old(self).spi.spec_exchanges() + 1,
            r matches Ok(p) ==> ({
                let resp = old(self).spi.spec_response(
                    spec_create_packet(
                        Reg::spec_address(),
                        Operation::Read,
                        seq![0u8, 0u8, 0u8, 0u8],
                    ),
                );
                &&& p.0.spec_bits() == resp[0]
                &&& p.1.spec_bits() == spec_bytes_value(spec_packet_payload(resp))
                    & Reg::spec_mask()
            }),
    {
        let address = Reg::address();
        match self.read_impl(address) {
            Ok(data_bytes) => Ok(parse_packet::<Reg>(data_bytes)),
            Err(e) => Err(e),
        }
    }

    fn write_impl(&mut self, address: u8, tx_data: [u8; 4]) -> (r: Result<
        SpiStatus,
        T::TransportError,
    >)
        requires
            address < 0x80,
        ensures
            final(self).spi.spec_exchanges() == old(self).spi.spec_exchanges() + 1,
            r matches Ok(s) ==> s.spec_bits() == old(self).spi.spec_response(
                spec_create_packet(address, Operation::Write, tx_data@),
            )[0],
    {
        let mosi_packet = create_packet(address, Operation::Write, tx_data);
        match self.spi.transfer(&mosi_packet) {
            Ok(miso_packet) => Ok(SpiStatus::from_byte(miso_packet[0])),
            Err(e) => Err(e),
        }
    }

    fn read_impl(&mut self, address: u8) -> (r: Result<[u8; 5], T::TransportError>)
        requires
            address < 0x80,
        ensures
            final(self).spi.spec_exchanges() == old(self).spi.spec_exchanges() + 1,
            r matches Ok(rx) ==> rx@ == old(self).spi.spec_response(
                spec_create_packet(address, Operation::Read, seq![0u8, 0u8, 0u8, 0u8]),
            ),
    {
        let tx_data: [u8; 4] = [0x00, 0x00, 0x00, 0x00];
        proof {
            assert(tx_data@ =~= seq![0u8, 0u8, 0u8, 0u8]);
        }
        let mosi_packet = create_packet(address, Operation::Read, tx_data);
        self.spi.transfer(&mosi_packet)
    }
}

} // verus!
