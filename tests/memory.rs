use gbcpu::MMU;

#[test]
fn new_memory_is_zero() {
    let m = MMU::new();
    assert_eq!(m.get_b(0), Some(0));
    assert_eq!(m.get_b(65535), Some(0));
    assert_eq!(m.get_w(65534), Some(0));
}

#[test]
fn byte_access_outside_memory_fails() {
    let mut m = MMU::new();
    assert_eq!(m.get_b(65536), None);
    assert_eq!(m.set_b(65536, 1), None);
    assert_eq!(m.set_b(65535, 7), Some(7));
    assert_eq!(m.get_b(65535), Some(7));
}

#[test]
fn word_access_is_little_endian() {
    let mut m = MMU::new();
    assert_eq!(m.set_w(65534, 0xABCD), Some(0xABCD));
    assert_eq!(m.get_b(65534), Some(0xCD));
    assert_eq!(m.get_b(65535), Some(0xAB));
    m.set_b(0x100, 0x34);
    m.set_b(0x101, 0x12);
    assert_eq!(m.get_w(0x100), Some(0x1234));
}

#[test]
fn word_access_does_not_wrap() {
    let mut m = MMU::new();
    assert_eq!(m.set_w(65535, 0x1234), None);
    assert_eq!(m.get_b(65535), Some(0));
    assert_eq!(m.get_b(0), Some(0));
    assert_eq!(m.get_w(65535), None);
}

#[test]
fn word_round_trip() {
    let mut m = MMU::new();
    let values = [0x0000u16, 0x0001, 0x00FF, 0x0100, 0x1234, 0x8000, 0xBEEF, 0xFFFF];
    let mut addr: usize = 0;
    while addr <= 65534 {
        for v in values {
            assert_eq!(m.set_w(addr, v), Some(v));
            assert_eq!(m.get_w(addr), Some(v));
        }
        addr += 251;
    }
    for v in values {
        assert_eq!(m.set_w(65534, v), Some(v));
        assert_eq!(m.get_w(65534), Some(v));
    }
}
