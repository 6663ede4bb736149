use rdev::event::Key;
use rdev::keycodes::key_from_code;

#[test]
fn named_codes_map_to_their_keys() {
    assert_eq!(key_from_code(36), Key::Return);
    assert_eq!(key_from_code(48), Key::Tab);
    assert_eq!(key_from_code(49), Key::Space);
    assert_eq!(key_from_code(51), Key::Backspace);
    assert_eq!(key_from_code(53), Key::Escape);
    assert_eq!(key_from_code(54), Key::MetaRight);
    assert_eq!(key_from_code(55), Key::MetaLeft);
    assert_eq!(key_from_code(56), Key::ShiftLeft);
    assert_eq!(key_from_code(57), Key::CapsLock);
    assert_eq!(key_from_code(58), Key::Alt);
    assert_eq!(key_from_code(59), Key::ControlLeft);
    assert_eq!(key_from_code(60), Key::ShiftRight);
    assert_eq!(key_from_code(61), Key::AltGr);
    assert_eq!(key_from_code(62), Key::ControlRight);
    assert_eq!(key_from_code(63), Key::Function);
    assert_eq!(key_from_code(123), Key::LeftArrow);
    assert_eq!(key_from_code(124), Key::RightArrow);
    assert_eq!(key_from_code(125), Key::DownArrow);
    assert_eq!(key_from_code(126), Key::UpArrow);
}

#[test]
fn unmapped_codes_are_total_as_unknown() {
    assert_eq!(key_from_code(0), Key::Unknown(0));
    assert_eq!(key_from_code(200), Key::Unknown(200));
    assert_eq!(key_from_code(u32::MAX), Key::Unknown(u32::MAX));
}
