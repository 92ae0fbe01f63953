use shanka::keys::{release_wait_step, ReleaseWait, HOTKEY_KEY_RELEASE_TIMEOUT_MS};
use shanka::keys::{
    hotkey_release_keys, windows_virtual_key_for_code, MOD_ALT, MOD_CONTROL, MOD_SHIFT, MOD_SUPER,
};

#[test]
fn letters_digits_and_function_keys() {
    assert_eq!(windows_virtual_key_for_code("KeyA"), Some(0x41));
    assert_eq!(windows_virtual_key_for_code("KeyZ"), Some(0x5A));
    assert_eq!(windows_virtual_key_for_code("Digit0"), Some(0x30));
    assert_eq!(windows_virtual_key_for_code("Digit9"), Some(0x39));
    assert_eq!(windows_virtual_key_for_code("F1"), Some(0x70));
    assert_eq!(windows_virtual_key_for_code("F9"), Some(0x78));
    assert_eq!(windows_virtual_key_for_code("F10"), Some(0x79));
    assert_eq!(windows_virtual_key_for_code("F12"), Some(0x7B));
    assert_eq!(windows_virtual_key_for_code("F13"), None);
    assert_eq!(windows_virtual_key_for_code("F0"), None);
    assert_eq!(windows_virtual_key_for_code("Keya"), None);
}

#[test]
fn named_keys() {
    assert_eq!(windows_virtual_key_for_code("Space"), Some(0x20));
    assert_eq!(windows_virtual_key_for_code("Enter"), Some(0x0D));
    assert_eq!(windows_virtual_key_for_code("NumpadEnter"), Some(0x0D));
    assert_eq!(windows_virtual_key_for_code("PageUp"), Some(0x21));
    assert_eq!(windows_virtual_key_for_code("ArrowDown"), Some(0x28));
    assert_eq!(windows_virtual_key_for_code("Backquote"), None);
}

#[test]
fn release_keys_list_modifiers_then_the_key() {
    assert_eq!(
        hotkey_release_keys(MOD_CONTROL | MOD_SHIFT, "KeyC"),
        vec![0x10, 0xA0, 0xA1, 0x11, 0xA2, 0xA3, 0x43]
    );
    assert_eq!(hotkey_release_keys(MOD_ALT | MOD_SUPER, "Backquote"), vec![0x12, 0xA4, 0xA5, 0x5B, 0x5C]);
    assert_eq!(hotkey_release_keys(0, "Space"), vec![0x20]);
}

#[test]
fn the_release_wait_gives_up_after_its_timeout() {
    assert_eq!(HOTKEY_KEY_RELEASE_TIMEOUT_MS, 900);
    assert_eq!(release_wait_step(0, true), ReleaseWait::Released);
    assert_eq!(release_wait_step(899, false), ReleaseWait::Poll);
    assert_eq!(release_wait_step(900, true), ReleaseWait::TimedOut);
}
