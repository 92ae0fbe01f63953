use shanka::platform::{
    open_permission_settings, paste_target_needs_inspection, paste_target_requires_elevation,
    permission_settings_target, prepare_for_selection_capture, primary_modifier, status,
    text_operation_permission_issue, PreviewTarget, TargetOs,
};

#[test]
fn platforms_are_named_as_std_names_them() {
    assert_eq!(TargetOs::from_name("windows"), TargetOs::Windows);
    assert_eq!(TargetOs::from_name("macos"), TargetOs::MacOs);
    assert_eq!(TargetOs::from_name("linux"), TargetOs::Linux);
    assert_eq!(TargetOs::from_name("freebsd"), TargetOs::Other);
}

#[test]
fn windows_status() {
    let s = status(TargetOs::Windows, None, false);
    assert_eq!(s.os, "windows");
    assert_eq!(s.accessibility.status, "ok");
    assert_eq!(s.accessibility.message_key, "settings.platform.accessibility.notRequired");
    assert_eq!(s.notes, vec!["settings.platform.note.windowsAdminFallback"]);
    assert!(!s.settings_action_available);
    assert!(s.linux_session.is_none());
}

#[test]
fn macos_status_follows_accessibility_trust() {
    let blocked = status(TargetOs::MacOs, None, false);
    assert_eq!(blocked.accessibility.status, "blocked");
    assert_eq!(blocked.input_simulation.message_key, "settings.platform.input.needsAccessibility");
    assert!(blocked.settings_action_available);
    let granted = status(TargetOs::MacOs, None, true);
    assert_eq!(granted.accessibility.message_key, "settings.platform.accessibility.granted");
    assert_eq!(granted.input_simulation.status, "ok");
}

#[test]
fn linux_status_follows_the_session_type() {
    let wayland = status(TargetOs::Linux, Some("Wayland"), false);
    assert_eq!(wayland.global_hotkey.status, "warning");
    assert_eq!(wayland.clipboard.message_key, "settings.platform.clipboard.waylandLimited");
    assert_eq!(wayland.linux_session.as_deref(), Some("Wayland"));
    assert_eq!(wayland.notes, vec!["settings.platform.note.linuxWayland"]);
    let x11 = status(TargetOs::Linux, Some("x11"), false);
    assert_eq!(x11.input_simulation.message_key, "settings.platform.input.x11Likely");
    let blank = status(TargetOs::Linux, Some("  "), false);
    assert_eq!(blank.linux_session.as_deref(), Some("unknown"));
    let missing = status(TargetOs::Linux, None, false);
    assert_eq!(missing.linux_session.as_deref(), Some("unknown"));
    assert_eq!(missing.notes, vec!["settings.platform.note.linuxX11"]);
}

#[test]
fn unknown_platform_status() {
    let s = status(TargetOs::Other, None, true);
    assert_eq!(s.os, "unknown");
    assert_eq!(s.clipboard.message_key, "settings.platform.clipboard.unknown");
    assert_eq!(s.notes, vec!["settings.platform.note.unknown"]);
}

#[test]
fn only_untrusted_macos_blocks_text_operations() {
    assert_eq!(
        text_operation_permission_issue(TargetOs::MacOs, false),
        Some("macOS Accessibility permission is required")
    );
    assert_eq!(text_operation_permission_issue(TargetOs::MacOs, true), None);
    assert_eq!(text_operation_permission_issue(TargetOs::Windows, false), None);
}

#[test]
fn primary_modifier_per_platform() {
    assert_eq!(primary_modifier(TargetOs::MacOs), "Meta");
    assert_eq!(primary_modifier(TargetOs::Linux), "Control");
}

#[test]
fn permission_settings_open_only_on_macos() {
    assert!(permission_settings_target(TargetOs::Linux).is_none());
    assert_eq!(
        permission_settings_target(TargetOs::MacOs),
        Some("x-apple.systempreferences:com.apple.preference.security?Privacy_Accessibility")
    );
    assert!(open_permission_settings(TargetOs::Windows, Err("ignored".to_string())).is_ok());
    assert_eq!(
        open_permission_settings(TargetOs::MacOs, Err("no open".to_string())).unwrap_err(),
        "failed to open macOS Accessibility settings: no open"
    );
}

#[test]
fn menus_are_closed_before_capture_on_windows_only() {
    assert!(prepare_for_selection_capture(TargetOs::Windows, Some(0x4)));
    assert!(prepare_for_selection_capture(TargetOs::Windows, Some(0x10 | 0x1)));
    assert!(!prepare_for_selection_capture(TargetOs::Windows, Some(0x1)));
    assert!(!prepare_for_selection_capture(TargetOs::Windows, None));
    assert!(!prepare_for_selection_capture(TargetOs::Linux, Some(0x4)));
}

#[test]
fn the_preview_target_window_is_kept_on_windows() {
    let mut target = PreviewTarget::new();
    assert_eq!(target.restore_preview_target_window(TargetOs::Windows), None);
    assert_eq!(target.paste_target_window(77), 77);
    target.remember_preview_target_window(TargetOs::Windows, 12);
    assert_eq!(target.restore_preview_target_window(TargetOs::Windows), Some(12));
    assert_eq!(target.paste_target_window(77), 12);
    let mut other = PreviewTarget::new();
    other.remember_preview_target_window(TargetOs::Linux, 12);
    assert_eq!(other.restore_preview_target_window(TargetOs::Linux), None);
}

#[test]
fn elevated_paste_targets_need_the_clipboard() {
    assert!(paste_target_needs_inspection(TargetOs::Windows, false, 40, 10));
    assert!(!paste_target_needs_inspection(TargetOs::Windows, true, 40, 10));
    assert!(!paste_target_needs_inspection(TargetOs::Windows, false, 10, 10));
    assert!(!paste_target_needs_inspection(TargetOs::Windows, false, 0, 10));
    assert!(!paste_target_needs_inspection(TargetOs::Linux, false, 40, 10));
    assert!(!paste_target_requires_elevation(None));
    assert!(paste_target_requires_elevation(Some(Ok(true))));
    assert!(!paste_target_requires_elevation(Some(Ok(false))));
    assert!(paste_target_requires_elevation(Some(Err("denied".to_string()))));
}
