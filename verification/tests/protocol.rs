use erika_3004::control::ControlCode;
use erika_3004::protocol::{DeviceMode, ErikaError, InputEvent, TypewriterInterface};

#[test]
fn bell_of_one_second_is_fifty_steps() {
    let mut interface = TypewriterInterface::new();
    assert_eq!(interface.bell(1000), Ok(()));
    assert_eq!(interface.take_outgoing(), vec![0xAA, 50]);
}

#[test]
fn bell_of_six_seconds_is_refused_and_sends_nothing() {
    let mut interface = TypewriterInterface::new();
    assert_eq!(interface.bell(6000), Err(ErikaError::InvalidBellDuration));
    assert_eq!(interface.take_outgoing(), Vec::<u8>::new());
}

#[test]
fn bell_at_the_edges() {
    let mut interface = TypewriterInterface::new();
    assert_eq!(interface.bell(0), Ok(()));
    assert_eq!(interface.bell(19), Ok(()));
    assert_eq!(interface.bell(20), Ok(()));
    assert_eq!(interface.bell(5100), Ok(()));
    assert_eq!(interface.bell(5119), Ok(()));
    assert_eq!(
        interface.take_outgoing(),
        vec![0xAA, 0, 0xAA, 0, 0xAA, 1, 0xAA, 255, 0xAA, 255]
    );
    assert_eq!(interface.bell(5120), Err(ErikaError::InvalidBellDuration));
    assert_eq!(interface.bell(u128::MAX), Err(ErikaError::InvalidBellDuration));
    assert_eq!(interface.take_outgoing(), Vec::<u8>::new());
}

#[test]
fn refused_bell_leaves_earlier_writes_alone() {
    let mut interface = TypewriterInterface::new();
    interface.write_unicode("a");
    assert_eq!(interface.bell(6000), Err(ErikaError::InvalidBellDuration));
    assert_eq!(interface.take_outgoing(), vec![0x61]);
}

#[test]
fn paper_steps() {
    for step in [3, 4, 5, 6] {
        assert!(!TypewriterInterface::paper_step_allowed(step));
    }
    assert!(!TypewriterInterface::paper_step_allowed(2));
    assert!(TypewriterInterface::paper_step_allowed(0));
    assert!(TypewriterInterface::paper_step_allowed(255));

    let mut interface = TypewriterInterface::new();
    assert!(TypewriterInterface::paper_step_allowed(1));
    interface.move_paper(1);
    assert!(TypewriterInterface::paper_step_allowed(7));
    interface.move_paper(7);
    assert_eq!(interface.take_outgoing(), vec![0xA6, 1, 0xA6, 7]);
}

#[test]
fn tab_size() {
    let mut interface = TypewriterInterface::new();
    interface.set_tab_size(9);
    assert_eq!(interface.take_outgoing(), vec![0xA5, 9]);
}

#[test]
fn remote_mode() {
    let mut interface = TypewriterInterface::new();
    assert_eq!(interface.enable_remote_mode(), DeviceMode::Remote);
    assert_eq!(interface.take_outgoing(), vec![0x91]);
    assert_eq!(interface.disable_remote_mode(), DeviceMode::Local);
    assert_eq!(interface.take_outgoing(), vec![0x92]);
    assert_eq!(DeviceMode::default(), DeviceMode::Local);
}

#[test]
fn text_is_queued_encoded() {
    let mut interface = TypewriterInterface::new();
    assert_eq!(interface.write_unicode("Hello World"), 11);
    assert_eq!(interface.write_unicode("€@"), 4);
    assert_eq!(
        interface.take_outgoing(),
        b"\x12\x5A\x4D\x4D\x5E\x71\x2D\x5E\x59\x4D\x53\x20\x72\x2E\x35"
    );
    assert_eq!(interface.take_outgoing(), Vec::<u8>::new());
}

#[test]
fn commands_are_queued_in_order() {
    let mut interface = TypewriterInterface::new();
    interface.enable_remote_mode();
    interface.write_unicode("a");
    interface.send_control(ControlCode::KeyStrength, &[3]);
    interface.send_control(ControlCode::Reset, &[]);
    interface.disable_remote_mode();
    assert_eq!(interface.take_outgoing(), vec![0x91, 0x61, 0xA3, 3, 0x93, 0x92]);
}

#[test]
fn unknown_byte_is_an_error() {
    let interface = TypewriterInterface::new();
    for byte in [0x00, 0x97, 0xA2, 0xA4, 0xB0, 0xFF] {
        assert_eq!(
            interface.read_character(&[byte]),
            Err(ErikaError::UnknownCode(byte))
        );
    }
    assert_eq!(
        interface.read_character(&[0xFF, 0x61, 0x61]),
        Err(ErikaError::UnknownCode(0xFF))
    );
}

#[test]
fn every_byte_is_text_a_control_code_or_an_error() {
    let interface = TypewriterInterface::new();
    for byte in 0..=u8::MAX {
        let event = interface.read_character(&[byte]);
        assert_ne!(event, Ok(None));
        match event {
            Ok(Some(InputEvent::Character(scalar))) => {
                assert_eq!(erika_3004::codec::decode_char(&[byte]), Ok(scalar))
            }
            Ok(Some(InputEvent::ControlCode(code))) => assert_eq!(code.code(), byte),
            Ok(None) => unreachable!(),
            Err(error) => assert_eq!(error, ErikaError::UnknownCode(byte)),
        }
    }
}

#[test]
fn nothing_read_is_no_event() {
    let interface = TypewriterInterface::new();
    assert_eq!(interface.read_character(&[]), Ok(None));
}

#[test]
fn reads_are_classified() {
    let interface = TypewriterInterface::new();
    assert_eq!(
        interface.read_character(&[0x61]),
        Ok(Some(InputEvent::Character('a')))
    );
    assert_eq!(
        interface.read_character(&[0x20, 0x72, 0x2E]),
        Ok(Some(InputEvent::Character('€')))
    );
    assert_eq!(
        interface.read_character(&[0x29, 0x71]),
        Ok(Some(InputEvent::Character('´')))
    );
    assert_eq!(
        interface.read_character(&[0x73]),
        Ok(Some(InputEvent::ControlCode(ControlCode::HalfstepRight)))
    );
    assert_eq!(
        interface.read_character(&[0xAE, 0x61]),
        Ok(Some(InputEvent::ControlCode(ControlCode::DeleteLastChar)))
    );
}

#[test]
fn a_read_that_is_no_sequence_as_a_whole_is_tried_shorter() {
    let interface = TypewriterInterface::new();
    assert_eq!(
        interface.read_character(&[0x20, 0x72]),
        Ok(Some(InputEvent::Character('C')))
    );
    assert_eq!(
        interface.read_character(&[0x12, 0x5A, 0x4D]),
        Ok(Some(InputEvent::Character('H')))
    );
    assert_eq!(
        interface.read_character(&[0x29, 0x71, 0x61]),
        Ok(Some(InputEvent::Character('´')))
    );
}

#[test]
fn error_messages() {
    assert_eq!(
        ErikaError::UnknownCode(0).message(),
        "Data received should either be in the codec range or a control code. This may indicate a character missing in the codec implementation. Code was 0"
    );
    assert_eq!(
        ErikaError::UnknownCode(7).message(),
        "Data received should either be in the codec range or a control code. This may indicate a character missing in the codec implementation. Code was 7"
    );
    assert_eq!(
        ErikaError::UnknownCode(42).message(),
        "Data received should either be in the codec range or a control code. This may indicate a character missing in the codec implementation. Code was 42"
    );
    assert_eq!(
        ErikaError::UnknownCode(100).message(),
        "Data received should either be in the codec range or a control code. This may indicate a character missing in the codec implementation. Code was 100"
    );
    assert_eq!(
        ErikaError::UnknownCode(255).message(),
        "Data received should either be in the codec range or a control code. This may indicate a character missing in the codec implementation. Code was 255"
    );
    assert_eq!(
        ErikaError::InvalidBellDuration.message(),
        "Bell duration can not be encoded in a u8"
    );
}
