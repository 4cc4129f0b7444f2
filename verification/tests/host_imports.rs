use doom_host::errors::HostError;
use doom_host::text::decode_text;
use doom_host::video::{draw_screen, FramePresenter};

#[test]
fn draw_screen_accepts_any_offset_without_failing() {
    draw_screen(0);
    draw_screen(-1);
    draw_screen(i32::MIN);
    draw_screen(i32::MAX);
}

#[test]
fn no_op_presenter_never_presents() {
    let p = FramePresenter::NoOp;
    assert!(!p.present_frame(0));
    assert!(!p.present_frame(i32::MAX));
    assert!(!p.present_frame(-123));
}

#[test]
fn decode_accepts_valid_text() {
    assert_eq!(decode_text(b"hello"), Ok(String::from("hello")));
    assert_eq!(decode_text(b""), Ok(String::new()));
    assert_eq!(decode_text(&[0xE2, 0x82, 0xAC]), Ok(String::from("\u{20ac}")));
}

#[test]
fn decode_rejects_invalid_text_with_decode_error() {
    assert_eq!(decode_text(&[0xFF]), Err(HostError::TextDecode));
    assert_eq!(decode_text(&[0xC3, 0x28]), Err(HostError::TextDecode));
    assert_eq!(decode_text(&[0xE2, 0x82]), Err(HostError::TextDecode));
}

#[test]
fn error_descriptions_name_each_kind() {
    assert_eq!(HostError::Compile.describe(), "malformed or unsupported guest binary");
    assert_eq!(HostError::Link.describe(), "missing or mismatched guest import");
    assert_eq!(HostError::MemoryAccess.describe(), "guest memory access out of bounds");
    assert_eq!(HostError::TextDecode.describe(), "guest log bytes are not valid text");
    assert_eq!(HostError::GuestTrap.describe(), "guest code trapped");
}

#[test]
fn only_per_call_logging_errors_are_not_fatal() {
    assert!(HostError::Compile.is_fatal());
    assert!(HostError::Link.is_fatal());
    assert!(HostError::GuestTrap.is_fatal());
    assert!(!HostError::MemoryAccess.is_fatal());
    assert!(!HostError::TextDecode.is_fatal());
}
