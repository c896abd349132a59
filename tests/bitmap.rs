use x86_vcpu::{IOPm, MSRPm, MsrBitmap};

#[test]
fn io_bitmap_ranges() {
    let mut m = IOPm::passthrough_all();
    assert!(!m.is_intercepted(0x604));
    assert_eq!(m.as_bytes()[2 * 4096], 7);
    m.set_intercept_of_range(0x3F8, 8, true);
    for p in 0x3F8..0x400 {
        assert!(m.is_intercepted(p));
    }
    assert!(!m.is_intercepted(0x3F7));
    assert!(!m.is_intercepted(0x400));
    assert_eq!(m.as_bytes()[0x3F8 / 8], 0xFF);
    m.set_intercept(0x3FA, false);
    assert!(!m.is_intercepted(0x3FA));
    assert!(m.is_intercepted(0x3FB));
    let all = IOPm::intercept_all();
    assert!(all.is_intercepted(0));
    assert!(all.is_intercepted(0xFFFF));
}

#[test]
fn msr_permission_maps() {
    let mut m = MSRPm::passthrough_all();
    m.set_read_intercept(0xC000_0080, true);
    // second range, MSR 0x80: byte 2048 + 0x80 / 4, bit (0x80 % 4) * 2
    assert_eq!(m.as_bytes()[2048 + 0x20], 0b01);
    m.set_write_intercept(0xC000_0080, true);
    assert_eq!(m.as_bytes()[2048 + 0x20], 0b11);
    m.set_intercept(0x10, true, true);
    assert_eq!(m.as_bytes()[4], 0b10);
    m.set_intercept(0xC001_0001, false, true);
    assert_eq!(m.as_bytes()[4096], 0b100);
    assert_eq!(MSRPm::intercept_all().as_bytes()[100], 0xFF);

    let mut b = MsrBitmap::passthrough_all();
    b.set_intercept(0xe1, false, true);
    b.set_intercept(0xe1, true, true);
    assert_eq!(b.as_bytes()[0xe1 / 8], 1 << (0xe1 % 8));
    assert_eq!(b.as_bytes()[2048 + 0xe1 / 8], 1 << (0xe1 % 8));
    b.set_intercept(0xC000_0082, true, true);
    assert_eq!(b.as_bytes()[3072 + 0x82 / 8], 1 << (0x82 % 8));
}
