use joyshop::window::{to_unicode, Handle};

#[test]
fn null_handle_is_null() {
    assert!(Handle::from_raw(0).is_null());
    assert!(!Handle::from_raw(0x1234).is_null());
}

#[test]
fn ascii_text_becomes_terminated_utf16() {
    assert_eq!(to_unicode("A"), vec![0x41u16, 0]);
    assert_eq!(to_unicode("Joyshop"), vec![0x4A, 0x6F, 0x79, 0x73, 0x68, 0x6F, 0x70, 0]);
}

#[test]
fn empty_text_is_just_the_terminator() {
    assert_eq!(to_unicode(""), vec![0u16]);
}

#[test]
fn astral_characters_become_surrogate_pairs() {
    assert_eq!(to_unicode("\u{1D11E}"), vec![0xD834u16, 0xDD1E, 0]);
}
