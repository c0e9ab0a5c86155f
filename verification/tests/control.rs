use erika_3004::control::{BoudRate, ControlCode};

#[test]
fn lookup_finds_the_named_codes() {
    assert_eq!(ControlCode::lookup(0x73), Some(ControlCode::HalfstepRight));
    assert_eq!(ControlCode::lookup(0x7A), Some(ControlCode::TabSet));
    assert_eq!(ControlCode::lookup(0x90), Some(ControlCode::MarginSetOffInofficial));
    assert_eq!(ControlCode::lookup(0x91), Some(ControlCode::KeyboardOff));
    assert_eq!(ControlCode::lookup(0x92), Some(ControlCode::KeyboardOn));
    assert_eq!(ControlCode::lookup(0x96), Some(ControlCode::SecondCharsetOn));
    assert_eq!(ControlCode::lookup(0x9B), Some(ControlCode::AutorepeatOn));
    assert_eq!(ControlCode::lookup(0xA1), Some(ControlCode::BoudRate));
    assert_eq!(ControlCode::lookup(0xA5), Some(ControlCode::TabStep));
    assert_eq!(ControlCode::lookup(0xA6), Some(ControlCode::MovePaper));
    assert_eq!(ControlCode::lookup(0xAA), Some(ControlCode::Bell));
    assert_eq!(ControlCode::lookup(0xAF), Some(ControlCode::Relocate));
}

#[test]
fn lookup_knows_the_gaps() {
    for byte in [0x00, 0x61, 0x72, 0x77, 0x78, 0x79, 0x97, 0x9A, 0xA2, 0xA4, 0xB0, 0xFF] {
        assert_eq!(ControlCode::lookup(byte), None);
    }
}

#[test]
fn lookup_and_code_are_inverse() {
    let mut known = 0;
    for byte in 0..=u8::MAX {
        if let Some(code) = ControlCode::lookup(byte) {
            known += 1;
            assert_eq!(code.code(), byte);
        }
    }
    assert_eq!(known, 52);
}

#[test]
fn lookup_is_repeatable() {
    for byte in 0..=u8::MAX {
        assert_eq!(ControlCode::lookup(byte), ControlCode::lookup(byte));
    }
}

#[test]
fn control_codes_are_not_text() {
    for byte in 0..=u8::MAX {
        if ControlCode::lookup(byte).is_some() {
            assert!(erika_3004::codec::decode_char(&[byte]).is_err());
            assert_eq!(erika_3004::codec::decode_prefix(&[byte, 0x71, 0x2E]), None);
        }
    }
}

#[test]
fn baud_rate_codes() {
    assert_eq!(BoudRate::Rate1200.code(), 10);
    assert_eq!(BoudRate::Rate2400.code(), 8);
    assert_eq!(BoudRate::Rate4800.code(), 4);
    assert_eq!(BoudRate::Rate9600.code(), 2);
    assert_eq!(BoudRate::Rate19200.code(), 1);
}
