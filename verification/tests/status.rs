use nes6502::status::StatusRegister;

#[test]
fn status_register_at_power_on() {
    let s = StatusRegister::new();
    assert_eq!(
        s,
        StatusRegister { c: false, z: false, i: true, d: false, b: true, bit_5: true, v: false, n: false }
    );
    assert_eq!(s.get_flags(), 0x34);
}

#[test]
fn each_flag_sets_clears_and_reads_back() {
    let mut s = StatusRegister::new();
    s.set_c();
    assert_eq!(s.get_c(), 1);
    s.clear_c();
    assert_eq!(s.get_c(), 0);
    s.set_z();
    assert_eq!(s.get_z(), 1);
    s.clear_z();
    assert_eq!(s.get_z(), 0);
    s.clear_i();
    assert_eq!(s.get_i(), 0);
    s.set_i();
    assert_eq!(s.get_i(), 1);
    s.set_d();
    assert_eq!(s.get_d(), 1);
    s.clear_d();
    assert_eq!(s.get_d(), 0);
    s.clear_b();
    assert_eq!(s.get_b(), 0);
    s.set_b();
    assert_eq!(s.get_b(), 1);
    s.clear_bit_5();
    assert_eq!(s.get_bit_5(), 0);
    s.set_bit_5();
    assert_eq!(s.get_bit_5(), 1);
    s.set_v();
    assert_eq!(s.get_v(), 1);
    s.clear_v();
    assert_eq!(s.get_v(), 0);
    s.set_n();
    assert_eq!(s.get_n(), 1);
    s.clear_n();
    assert_eq!(s.get_n(), 0);
    assert_eq!(s, StatusRegister::new());
}

#[test]
fn a_setter_touches_one_flag_only() {
    let mut s = StatusRegister::new();
    let before = s;
    s.set_v();
    assert_eq!(s, StatusRegister { v: true, ..before });
    s.clear_i();
    assert_eq!(s, StatusRegister { v: true, i: false, ..before });
}

#[test]
fn image_has_the_fixed_bit_layout() {
    let clear = StatusRegister {
        c: false, z: false, i: false, d: false, b: false, bit_5: true, v: false, n: false,
    };
    assert_eq!(clear.get_flags(), 0x20);
    assert_eq!(StatusRegister { c: true, ..clear }.get_flags(), 0x21);
    assert_eq!(StatusRegister { z: true, ..clear }.get_flags(), 0x22);
    assert_eq!(StatusRegister { i: true, ..clear }.get_flags(), 0x24);
    assert_eq!(StatusRegister { d: true, ..clear }.get_flags(), 0x28);
    assert_eq!(StatusRegister { b: true, ..clear }.get_flags(), 0x30);
    assert_eq!(StatusRegister { v: true, ..clear }.get_flags(), 0x60);
    assert_eq!(StatusRegister { n: true, ..clear }.get_flags(), 0xa0);
    let all = StatusRegister {
        c: true, z: true, i: true, d: true, b: true, bit_5: true, v: true, n: true,
    };
    assert_eq!(all.get_flags(), 0xff);
}

#[test]
fn image_shows_bit_5_even_when_the_stored_bit_is_clear() {
    let mut s = StatusRegister::new();
    s.clear_bit_5();
    assert_eq!(s.get_bit_5(), 0);
    assert_eq!(s.get_flags() & 0x20, 0x20);
}

#[test]
fn set_flags_replaces_every_flag_and_forces_bit_5() {
    let mut s = StatusRegister::new();
    s.set_flags(0x00);
    assert_eq!(
        s,
        StatusRegister { c: false, z: false, i: false, d: false, b: false, bit_5: true, v: false, n: false }
    );
    assert_eq!(s.get_flags(), 0x20);
    s.set_flags(0xc3);
    assert_eq!(
        s,
        StatusRegister { c: true, z: true, i: false, d: false, b: false, bit_5: true, v: true, n: true }
    );
    assert_eq!(s.get_flags(), 0xe3);
}

#[test]
fn flags_round_trip_through_the_image_for_every_byte() {
    for byte in 0..=255u8 {
        let mut s = StatusRegister::new();
        s.set_flags(byte);
        assert_eq!(s.get_flags(), byte | 0x20);
        let mut again = StatusRegister::new();
        again.set_flags(s.get_flags());
        assert_eq!(again, s);
    }
}

#[test]
fn set_zn_describes_the_value() {
    let mut s = StatusRegister::new();
    s.set_zn(0);
    assert_eq!((s.z, s.n), (true, false));
    s.set_zn(0x80);
    assert_eq!((s.z, s.n), (false, true));
    s.set_zn(0x7f);
    assert_eq!((s.z, s.n), (false, false));
    s.set_zn(0xff);
    assert_eq!((s.z, s.n), (false, true));
}
