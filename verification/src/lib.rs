//! Register-access driver for a stepper-motor controller chip that speaks a
//! fixed 5-byte SPI packet protocol.
//!
//! The crate models the wire format (one address/operation byte followed by
//! four data bytes, most-significant register byte first on the wire), a
//! family of bit-accurate registers sharing one encode/decode contract, the
//! status word returned with every transaction, and a driver that performs one
//! full-duplex exchange per call against an injected transport.

pub mod driver;
pub mod registers;
pub mod spi_status;

pub use driver::Operation;
pub use driver::Tmc5160;
pub use driver::Transport;
pub use driver::create_packet;
pub use driver::parse_miso_packet;
pub use driver::parse_packet;
pub use registers::GCONF;
pub use registers::GlobalScaler;
pub use registers::Register;
pub use registers::VMAX;
pub use registers::XACTUAL;
pub use spi_status::SpiStatus;
