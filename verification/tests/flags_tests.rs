use nes_core::flags::Flags;

#[test]
fn flags_round_trip_all_bytes() {
    // Unpacking then packing returns the byte with bit 5 forced on and
    // bit 4 preserved, for every byte value.
    for b in 0..=255u8 {
        let f = Flags::from_byte(b);
        assert_eq!(f.as_byte(), b | 0x20);
    }
}

#[test]
fn as_byte_sets_bit5() {
    let f = Flags::from_byte(0x00);
    assert_eq!(f.as_byte(), 0x20);
    let f = Flags::from_byte(0xff);
    assert_eq!(f.as_byte(), 0xff);
}

#[test]
fn from_byte_reads_each_bit() {
    let f = Flags::from_byte(0b1000_0001);
    assert!(f.n);
    assert!(f.c);
    assert!(!f.v && !f.b && !f.d && !f.i && !f.z);
    let f = Flags::from_byte(0b0101_1110);
    assert!(f.v && f.b && f.d && f.i && f.z);
    assert!(!f.n && !f.c);
}

#[test]
fn from_value_nz_cases() {
    let f = Flags::from_value_nz(0);
    assert!(f.z && !f.n);
    let f = Flags::from_value_nz(0x80);
    assert!(f.n && !f.z);
    let f = Flags::from_value_nz(0x7f);
    assert!(!f.n && !f.z);
    assert!(!f.c && !f.i && !f.d && !f.v && !f.b);
}

#[test]
fn from_value_zc_carry() {
    // The carry is any bit above the low byte; zero looks only at the
    // low byte.
    let f = Flags::from_value_zc(0x100);
    assert!(f.c && f.z);
    let f = Flags::from_value_zc(0x0ff);
    assert!(!f.c && !f.z);
}

#[test]
fn from_value_nzc_negative() {
    let f = Flags::from_value_nzc(0x180);
    assert!(f.n && f.c && !f.z);
    let f = Flags::from_value_nzcv(0x180, true);
    assert!(f.v && f.n && f.c);
}
