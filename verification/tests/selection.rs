use shanka::platform::TargetOs;
use shanka::selection::{
    platform_provider, platform_provider_name, read_selected_text, read_selected_text_native_first,
    read_selected_text_with_clipboard_only, SelectionError, SelectionMode, SelectionProvider,
};

#[test]
fn modes_have_labels() {
    assert_eq!(SelectionMode::Safe.label(), "Safe Mode");
    assert_eq!(SelectionMode::Magic.label(), "Magic Mode");
}

#[test]
fn native_providers_are_not_implemented_yet() {
    let provider = platform_provider(TargetOs::MacOs);
    assert_eq!(provider.name(), "macos-accessibility");
    assert_eq!(platform_provider_name(TargetOs::Windows), "windows-native-selection");
    assert_eq!(platform_provider_name(TargetOs::Linux), "linux-at-spi");
    match provider.read_selected_text(SelectionMode::Safe) {
        Err(e @ SelectionError::UnsupportedPlatformNativeProvider(_)) => {
            assert_eq!(e.message(), "macos-accessibility is not implemented yet")
        }
        other => panic!("unexpected {other:?}"),
    }
}

#[test]
fn the_clipboard_read_decides_the_selection() {
    let native = platform_provider(TargetOs::Linux);
    let ok = read_selected_text(SelectionMode::Safe, Ok("x".to_string()), &native).unwrap();
    assert_eq!(ok.text, "x");
    assert_eq!(ok.provider, "clipboard-copy");
    assert!(matches!(
        read_selected_text(SelectionMode::Magic, Err(SelectionError::NoTextSelected), &native),
        Err(SelectionError::NoTextSelected)
    ));
    let first = read_selected_text_native_first(SelectionMode::Safe, &native, Ok("y".to_string())).unwrap();
    assert_eq!(first.provider, "clipboard-copy");
    assert!(read_selected_text_with_clipboard_only(SelectionMode::Safe, Err(SelectionError::Input("k".to_string()))).is_err());
}

#[test]
fn selection_error_messages() {
    assert_eq!(SelectionError::Clipboard("c".to_string()).message(), "clipboard error: c");
    assert_eq!(SelectionError::Input("i".to_string()).message(), "input error: i");
    assert_eq!(
        SelectionError::NativeProvider { provider: "p", message: "m".to_string() }.message(),
        "p error: m"
    );
    assert_eq!(SelectionError::NoTextSelected.message(), "no text selected");
    assert_eq!(SelectionError::PermissionDenied("denied".to_string()).message(), "denied");
}
