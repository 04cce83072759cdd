use kemuler::common_inputs::Key;
use kemuler::simulators::virtual_key::virtual_key_from_code;
use kemuler::simulators::virtual_key::VirtualKey;
use kemuler::simulators::windows::commonify_virtual_key;
use kemuler::simulators::windows::windowsify_common_key;

fn all_keys() -> Vec<Key> {
    vec![
        Key::Alt,
        Key::Shift,
        Key::Control,
        Key::F1,
        Key::F2,
        Key::F3,
        Key::F4,
        Key::F5,
        Key::F6,
        Key::F7,
        Key::F8,
        Key::F9,
        Key::F10,
        Key::F11,
        Key::F12,
        Key::CapsLock,
        Key::End,
        Key::Home,
        Key::PageUp,
        Key::PageDown,
        Key::Escape,
        Key::Enter,
        Key::Space,
        Key::Tab,
        Key::Backspace,
        Key::Delete,
        Key::UpArrow,
        Key::DownArrow,
        Key::LeftArrow,
        Key::RightArrow,
    ]
}

#[test]
fn every_key_round_trips_through_the_table() {
    // Mapping a symbolic key to its platform entry and back yields the key.
    for key in all_keys() {
        let vk = windowsify_common_key(key);
        assert_eq!(commonify_virtual_key(vk), Some(key));
    }
}

#[test]
fn every_key_round_trips_through_its_code() {
    for key in all_keys() {
        let vk = windowsify_common_key(key);
        assert_eq!(virtual_key_from_code(vk.code()), Some(vk));
    }
}

#[test]
fn codes_are_the_documented_constants() {
    assert_eq!(windowsify_common_key(Key::Enter).code(), 0x0D);
    assert_eq!(windowsify_common_key(Key::Escape).code(), 0x1B);
    assert_eq!(windowsify_common_key(Key::F1).code(), 0x70);
    assert_eq!(windowsify_common_key(Key::Space).code(), 0x20);
    assert_eq!(windowsify_common_key(Key::Alt).code(), 0x12);
    assert_eq!(VirtualKey::LeftShift.code(), 0xA0);
}

#[test]
fn unknown_codes_have_no_key() {
    assert_eq!(virtual_key_from_code(0x07), None);
    assert_eq!(virtual_key_from_code(0xFF), None);
}

#[test]
fn platform_only_keys_have_no_symbolic_key() {
    assert_eq!(commonify_virtual_key(VirtualKey::NumLock), None);
    assert_eq!(commonify_virtual_key(VirtualKey::LeftShift), None);
    assert_eq!(commonify_virtual_key(VirtualKey::Insert), None);
}
