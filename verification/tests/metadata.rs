use dcf77_chrono::dcf77::metadata::{
    code_announce_daylight_saving_switching, code_antenna, code_bit_leap_second,
    code_daylight_saving, code_standard_time, process_antenna, process_bit_leap_second,
    process_daylight_saving, process_daylight_saving_switch, process_standard_time,
};

#[test]
fn test_antenna() {
    let mut dcf77_bitfield: u64 = 0x0;
    dcf77_bitfield |= code_antenna(false);
    assert!(false == process_antenna(dcf77_bitfield));
    dcf77_bitfield |= code_antenna(true);
    assert!(true == process_antenna(dcf77_bitfield));
}

#[test]
fn test_announce_daylight_saving_switching() {
    let mut dcf77_bitfield: u64 = 0x0;
    dcf77_bitfield |= code_announce_daylight_saving_switching(false);
    assert!(false == process_daylight_saving_switch(dcf77_bitfield));
    dcf77_bitfield |= code_announce_daylight_saving_switching(true);
    assert!(true == process_daylight_saving_switch(dcf77_bitfield));
}

#[test]
fn test_process_daylight_saving() {
    let mut dcf77_bitfield: u64 = 0x0;
    dcf77_bitfield |= code_daylight_saving(false);
    assert!(false == process_daylight_saving(dcf77_bitfield));
    dcf77_bitfield |= code_daylight_saving(true);
    assert!(true == process_daylight_saving(dcf77_bitfield));
}

#[test]
fn test_standard_time() {
    let mut dcf77_bitfield: u64 = 0x0;
    dcf77_bitfield |= code_standard_time(false);
    assert!(false == process_standard_time(dcf77_bitfield));
    dcf77_bitfield |= code_standard_time(true);
    assert!(true == process_standard_time(dcf77_bitfield));
}

#[test]
fn test_bit_leap_second() {
    let mut dcf77_bitfield: u64 = 0x0;
    dcf77_bitfield |= code_bit_leap_second(false);
    assert!(false == process_bit_leap_second(dcf77_bitfield));
    dcf77_bitfield |= code_bit_leap_second(true);
    assert!(true == process_bit_leap_second(dcf77_bitfield));
}
