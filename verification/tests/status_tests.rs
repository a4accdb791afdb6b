use tmc5160_driver::SpiStatus;

#[test]
fn status_decode_is_bit_exact() {
    // 0xA5 = 0b10100101, flags least-significant bit first.
    let status = SpiStatus::from_byte(0xA5);
    assert_eq!(1, status.reset_flag());
    assert_eq!(0, status.driver_error());
    assert_eq!(1, status.sg2());
    assert_eq!(0, status.standstill());
    assert_eq!(0, status.velocity_reached());
    assert_eq!(1, status.position_reached());
    assert_eq!(0, status.status_stop_l());
    assert_eq!(1, status.status_stop_r());
}

#[test]
fn status_decode_edges() {
    let all_clear = SpiStatus::from_byte(0x00);
    assert_eq!(0, all_clear.reset_flag());
    assert_eq!(0, all_clear.status_stop_r());
    assert_eq!([0x00], all_clear.into_bytes());

    let all_set = SpiStatus::from_byte(0xFF);
    assert_eq!(1, all_set.reset_flag());
    assert_eq!(1, all_set.driver_error());
    assert_eq!(1, all_set.sg2());
    assert_eq!(1, all_set.standstill());
    assert_eq!(1, all_set.velocity_reached());
    assert_eq!(1, all_set.position_reached());
    assert_eq!(1, all_set.status_stop_l());
    assert_eq!(1, all_set.status_stop_r());
    assert_eq!([0xFF], all_set.into_bytes());
}
