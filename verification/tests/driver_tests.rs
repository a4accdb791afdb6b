use tmc5160_driver::Operation;
use tmc5160_driver::Register;
use tmc5160_driver::SpiStatus;
use tmc5160_driver::Tmc5160;
use tmc5160_driver::Transport;
use tmc5160_driver::VMAX;
use tmc5160_driver::XACTUAL;
use tmc5160_driver::create_packet;
use tmc5160_driver::parse_miso_packet;
use tmc5160_driver::parse_packet;

#[test]
fn test_write_packet() {
    let reg = VMAX::new().with_value(0x123456);
    let addr = reg.get_address();
    let tx_data = reg.get_bytes();
    let op = Operation::Write;
    let packet = create_packet(addr, op, tx_data);
    assert_eq!(packet, [0xA7, 0x00, 0x12, 0x34, 0x56]);
}

#[test]
fn test_read_packet() {
    let reg = XACTUAL::new();
    let addr = reg.get_address();
    let tx_data = reg.get_bytes();
    let op = Operation::Read;
    let packet = create_packet(addr, op, tx_data);
    assert_eq!(packet, [0x21, 0x00, 0x00, 0x00, 0x00]);
}

#[test]
fn test_parse_miso() {
    let miso_bytes: [u8; 5] = [0xA5, 0x12, 0x34, 0x56, 0x78];

    let (status, reg): (SpiStatus, XACTUAL) = parse_packet(miso_bytes);
    assert_eq!(0x12345678, reg.value());

    assert_eq!(1, status.reset_flag());
    assert_eq!(0, status.driver_error());
    assert_eq!(1, status.sg2());
    assert_eq!(0, status.standstill());
    assert_eq!(0, status.velocity_reached());
    assert_eq!(1, status.position_reached());
    assert_eq!(0, status.status_stop_l());
    assert_eq!(1, status.status_stop_r());

    let (_, reg): (SpiStatus, VMAX) = parse_packet(miso_bytes);
    assert_eq!(0x345678, reg.value());
}

#[test]
fn parse_inverts_create_for_both_operations() {
    let payload: [u8; 4] = [0xDE, 0xAD, 0xBE, 0xEF];
    let read_packet = create_packet(0x21, Operation::Read, payload);
    let (_, back) = parse_miso_packet(read_packet);
    assert_eq!(payload, back);

    let write_packet = create_packet(0x21, Operation::Write, payload);
    let (_, back) = parse_miso_packet(write_packet);
    assert_eq!(payload, back);
}

#[test]
fn operation_codes() {
    let packet = create_packet(0x00, Operation::Read, [0x00; 4]);
    assert_eq!(0x00, packet[0]);
    let packet = create_packet(0x00, Operation::Write, [0x00; 4]);
    assert_eq!(0x80, packet[0]);
}

struct StubSpiDevice {
    stub_miso: [u8; 5],
    stub_mosi: [u8; 5],
    exchanges: usize,
}

impl StubSpiDevice {
    fn new() -> Self {
        StubSpiDevice { stub_miso: [0; 5], stub_mosi: [0; 5], exchanges: 0 }
    }

    fn setup_miso(&mut self, data: [u8; 5]) {
        self.stub_miso = data;
    }

    fn expect_mosi(&mut self, data: [u8; 5]) {
        self.stub_mosi = data;
    }
}

impl Transport for StubSpiDevice {
    type TransportError = embedded_hal::spi::ErrorKind;

    fn transfer(&mut self, tx: &[u8; 5]) -> Result<[u8; 5], embedded_hal::spi::ErrorKind> {
        self.exchanges += 1;
        assert_eq!(self.stub_mosi, *tx);
        Ok(self.stub_miso)
    }
}

type Driver = Tmc5160<StubSpiDevice>;

#[test]
fn integration_write_test() -> Result<(), embedded_hal::spi::ErrorKind> {
    let mut spi_stub = StubSpiDevice::new();
    spi_stub.setup_miso([0x55, 0, 0, 0, 0]);

    spi_stub.expect_mosi([0x27 | 0x80, 0x00, 0xA, 0xBC, 0xDE]);

    let mut driver = Driver { spi: spi_stub };

    let mut reg = VMAX::new();
    reg.set_value(0xABCDE);

    let status = driver.write(&reg)?;

    assert_eq!([0x55], status.into_bytes());
    Ok(())
}

#[test]
fn write_performs_one_exchange_and_decodes_status() {
    let mut spi_stub = StubSpiDevice::new();
    spi_stub.setup_miso([0xA5, 0x11, 0x22, 0x33, 0x44]);
    spi_stub.expect_mosi([0xA7, 0x00, 0x12, 0x34, 0x56]);

    let mut driver = Driver { spi: spi_stub };
    let reg = VMAX::new().with_value(0x123456);
    let status = driver.write(&reg).unwrap();

    assert_eq!(1, driver.spi.exchanges);
    // The status is decoded from the first response byte; the response
    // payload does not influence the result.
    assert_eq!(1, status.reset_flag());
    assert_eq!(1, status.sg2());
    assert_eq!(1, status.position_reached());
    assert_eq!(1, status.status_stop_r());
    assert_eq!([0xA5], status.into_bytes());
}

#[test]
fn read_performs_one_exchange_and_parses_response() {
    let mut spi_stub = StubSpiDevice::new();
    spi_stub.setup_miso([0xA5, 0x12, 0x34, 0x56, 0x78]);
    spi_stub.expect_mosi([0x21, 0x00, 0x00, 0x00, 0x00]);

    let mut driver = Driver { spi: spi_stub };
    let (status, reg): (SpiStatus, XACTUAL) = driver.read().unwrap();

    assert_eq!(1, driver.spi.exchanges);
    assert_eq!([0xA5], status.into_bytes());
    assert_eq!(0x12345678, reg.value());
}

struct FailingSpiDevice;

impl Transport for FailingSpiDevice {
    type TransportError = embedded_hal::spi::ErrorKind;

    fn transfer(&mut self, _tx: &[u8; 5]) -> Result<[u8; 5], embedded_hal::spi::ErrorKind> {
        Err(embedded_hal::spi::ErrorKind::Other)
    }
}

#[test]
fn transport_errors_propagate_unmodified() {
    let mut driver = Tmc5160 { spi: FailingSpiDevice };

    let reg = VMAX::new().with_value(0x1);
    let write_result = driver.write(&reg);
    assert!(matches!(write_result, Err(embedded_hal::spi::ErrorKind::Other)));

    let read_result: Result<(SpiStatus, XACTUAL), _> = driver.read();
    assert!(matches!(read_result, Err(embedded_hal::spi::ErrorKind::Other)));
}
