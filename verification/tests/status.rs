use proctime::status::{exit_status, LAUNCH_FAILURE_STATUS};

#[test]
fn exit_status_of_a_small_code_is_the_code() {
    assert_eq!(exit_status(0), 0);
    assert_eq!(exit_status(7), 7);
    assert_eq!(exit_status(0x7FFF_FFFF), i32::MAX);
}

#[test]
fn exit_status_of_a_large_code_is_negative() {
    assert_eq!(exit_status(0x8000_0000), i32::MIN);
    assert_eq!(exit_status(0xFFFF_FFFF), -1);
    assert_eq!(exit_status(0xC000_0005), -1_073_741_819);
}

#[test]
fn exit_status_keeps_the_bits() {
    let codes = [0u32, 1, 259, 0x7FFF_FFFF, 0x8000_0000, 0xC000_013A, u32::MAX];
    for code in codes {
        assert_eq!(exit_status(code) as u32, code);
    }
}

#[test]
fn launch_failure_status_is_one() {
    assert_eq!(LAUNCH_FAILURE_STATUS, 1);
}
