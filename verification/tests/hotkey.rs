use global_hotkey::hotkey::{Code, HotKey, Modifiers};
use shanka::config::{default_hotkeys, HotkeyConfig};
use shanka::hotkey::{
    reload_failure_message, route_for_event, routes_from_hotkeys, same_hotkeys, HotkeyDecision,
    HotkeyGate, DEBOUNCE_MS,
};
use shanka::platform::TargetOs;
use shanka::selection::SelectionMode;

fn resolved(safe: &str, magic: &str) -> shanka::config::ResolvedHotkeyConfig {
    HotkeyConfig { safe_mode: safe.to_string(), magic_mode: magic.to_string() }
        .resolve()
        .expect("hotkeys resolve")
}

#[test]
fn routes_follow_the_configured_hotkeys() {
    let hotkeys = resolved("Ctrl+Shift+KeyC", "Ctrl+Shift+KeyM");
    let routes = routes_from_hotkeys(hotkeys);
    assert_eq!(routes[0].mode, SelectionMode::Safe);
    assert_eq!(routes[1].mode, SelectionMode::Magic);
    let safe = HotKey::new(Some(Modifiers::CONTROL | Modifiers::SHIFT), Code::KeyC);
    assert_eq!(routes[0].hotkey_id, safe.id());
    assert_eq!(routes[0].hotkey, safe);

    let magic_route = route_for_event(Some(&routes), routes[1].hotkey_id).expect("route");
    assert_eq!(magic_route.mode, SelectionMode::Magic);
    let other = (0u32..)
        .find(|id| *id != routes[0].hotkey_id && *id != routes[1].hotkey_id)
        .expect("a free id");
    assert!(route_for_event(Some(&routes), other).is_none());
    assert!(route_for_event(None, routes[0].hotkey_id).is_none());
}

#[test]
fn same_hotkeys_compares_both_ids_in_order() {
    let a = routes_from_hotkeys(resolved("Ctrl+Shift+KeyC", "Ctrl+Shift+KeyM"));
    let b = routes_from_hotkeys(resolved("Ctrl+Shift+KeyC", "Ctrl+Shift+KeyM"));
    let swapped = routes_from_hotkeys(resolved("Ctrl+Shift+KeyM", "Ctrl+Shift+KeyC"));
    assert!(same_hotkeys(&a, &b));
    assert!(!same_hotkeys(&a, &swapped));
}

#[test]
fn duplicate_and_invalid_hotkeys_are_refused() {
    let duplicate = HotkeyConfig {
        safe_mode: "Ctrl+Shift+KeyC".to_string(),
        magic_mode: "Ctrl+Shift+KeyC".to_string(),
    };
    assert!(matches!(
        duplicate.resolve(),
        Err(shanka::config::ConfigError::DuplicateHotkeys(h)) if h == "Ctrl+Shift+KeyC"
    ));
    let invalid = HotkeyConfig { safe_mode: "Nope+Key".to_string(), magic_mode: "Ctrl+KeyM".to_string() };
    assert!(matches!(
        invalid.resolve(),
        Err(shanka::config::ConfigError::InvalidHotkey { field, .. }) if field == "safe_mode"
    ));
    let invalid_magic = HotkeyConfig { safe_mode: "Ctrl+KeyC".to_string(), magic_mode: "".to_string() };
    assert!(matches!(
        invalid_magic.resolve(),
        Err(shanka::config::ConfigError::InvalidHotkey { field, .. }) if field == "magic_mode"
    ));
}

#[test]
fn default_hotkeys_resolve_on_every_platform() {
    for os in [TargetOs::Windows, TargetOs::MacOs, TargetOs::Linux, TargetOs::Other] {
        let hotkeys = default_hotkeys(os).resolve().expect("defaults resolve");
        assert_ne!(hotkeys.safe_mode_id, hotkeys.magic_mode_id);
    }
}

#[test]
fn reload_failure_messages() {
    assert_eq!(reload_failure_message("busy", None), "failed to register new hotkeys: busy");
    assert_eq!(
        reload_failure_message("busy", Some("gone")),
        "failed to register new hotkeys: busy; also failed to restore previous hotkeys: gone"
    );
}

#[test]
fn first_press_starts_a_capture() {
    let mut gate = HotkeyGate::new();
    assert_eq!(gate.on_hotkey_released(1_000), HotkeyDecision::Start);
    assert!(gate.capture_in_progress);
    assert_eq!(gate.last_trigger_ms, 1_000);
}

#[test]
fn presses_within_the_debounce_interval_are_ignored() {
    let mut gate = HotkeyGate::new();
    gate.on_hotkey_released(1_000);
    gate.finish_capture();
    assert_eq!(gate.on_hotkey_released(1_000 + DEBOUNCE_MS - 1), HotkeyDecision::IgnoredDebounce);
    assert_eq!(gate.last_trigger_ms, 1_299);
    assert_eq!(gate.on_hotkey_released(1_299 + DEBOUNCE_MS), HotkeyDecision::Start);
}

#[test]
fn a_clock_going_back_counts_as_no_time() {
    let mut gate = HotkeyGate::new();
    gate.on_hotkey_released(5_000);
    gate.finish_capture();
    assert_eq!(gate.on_hotkey_released(4_000), HotkeyDecision::IgnoredDebounce);
}

#[test]
fn a_running_capture_blocks_new_ones() {
    let mut gate = HotkeyGate::new();
    assert_eq!(gate.on_hotkey_released(1_000), HotkeyDecision::Start);
    assert_eq!(gate.on_hotkey_released(2_000), HotkeyDecision::IgnoredBusy);
    assert!(gate.capture_in_progress);
    gate.finish_capture();
    assert_eq!(gate.on_hotkey_released(3_000), HotkeyDecision::Start);
}

#[test]
fn recording_pauses_hotkeys_without_recording_the_press() {
    let mut gate = HotkeyGate::new();
    gate.set_recording_active(true);
    assert_eq!(gate.on_hotkey_released(1_000), HotkeyDecision::IgnoredRecording);
    assert_eq!(gate.last_trigger_ms, 0);
    assert!(!gate.capture_in_progress);
    gate.set_recording_active(false);
    assert_eq!(gate.on_hotkey_released(1_001), HotkeyDecision::Start);
}

#[test]
fn recording_started_during_the_release_wait_cancels_the_capture() {
    let mut gate = HotkeyGate::new();
    gate.on_hotkey_released(1_000);
    assert!(gate.after_release_wait());
    gate.set_recording_active(true);
    assert!(!gate.after_release_wait());
    assert!(!gate.capture_in_progress);
}

#[test]
fn the_first_press_at_time_zero_is_never_debounced() {
    let mut gate = HotkeyGate::new();
    assert!(!gate.is_debounced(0));
    assert!(!gate.is_debounced(100));
    assert!(gate.is_debounced(200));
}

use shanka::hotkey::{
    HotkeyReload, RegistrationAction, RegistrationEvent, ReloadAction, ReloadEvent, RouteSet,
    SetRegistration,
};

#[test]
fn a_set_registers_both_hotkeys_in_order() {
    let (mut registration, first) = SetRegistration::start();
    assert!(matches!(first, RegistrationAction::Register(0)));
    assert!(matches!(registration.advance(RegistrationEvent::Registered), RegistrationAction::Register(1)));
    assert!(matches!(registration.advance(RegistrationEvent::Registered), RegistrationAction::Finish(Ok(()))));
}

#[test]
fn a_failed_registration_rolls_back_what_was_registered() {
    let (mut registration, _) = SetRegistration::start();
    registration.advance(RegistrationEvent::Registered);
    let action = registration.advance(RegistrationEvent::RegisterFailed {
        hotkey: "shift+KeyM".to_string(),
        error: "taken".to_string(),
    });
    assert!(matches!(action, RegistrationAction::Unregister(0)));
    assert!(registration.expects(&RegistrationEvent::Unregistered));
    assert!(!registration.expects(&RegistrationEvent::Registered));
    match registration.advance(RegistrationEvent::Unregistered) {
        RegistrationAction::Finish(Err(message)) => {
            assert_eq!(message, "failed to register shift+KeyM: taken")
        }
        other => panic!("unexpected {other:?}"),
    }
}

#[test]
fn a_first_hotkey_failure_needs_no_rollback() {
    let (mut registration, _) = SetRegistration::start();
    match registration.advance(RegistrationEvent::RegisterFailed { hotkey: "h".to_string(), error: "e".to_string() }) {
        RegistrationAction::Finish(Err(message)) => assert_eq!(message, "failed to register h: e"),
        other => panic!("unexpected {other:?}"),
    }
}

#[test]
fn reloading_the_same_hotkeys_does_nothing() {
    let a = routes_from_hotkeys(resolved("Ctrl+Shift+KeyC", "Ctrl+Shift+KeyM"));
    let (_, action) = HotkeyReload::start(&a, &a);
    assert!(matches!(action, ReloadAction::Finish(Ok(()))));
}

#[test]
fn a_reload_replaces_then_installs() {
    let a = routes_from_hotkeys(resolved("Ctrl+Shift+KeyC", "Ctrl+Shift+KeyM"));
    let b = routes_from_hotkeys(resolved("Ctrl+Shift+KeyX", "Ctrl+Shift+KeyM"));
    let (mut reload, action) = HotkeyReload::start(&a, &b);
    assert!(matches!(action, ReloadAction::UnregisterPrevious));
    assert!(matches!(reload.advance(ReloadEvent::Unregistered(Ok(()))), ReloadAction::Register(RouteSet::Next)));
    assert!(matches!(reload.advance(ReloadEvent::Registered(Ok(()))), ReloadAction::InstallNext));
    assert!(matches!(reload.advance(ReloadEvent::Installed(Ok(()))), ReloadAction::Finish(Ok(()))));
}

#[test]
fn a_failed_reload_restores_the_previous_hotkeys() {
    let a = routes_from_hotkeys(resolved("Ctrl+Shift+KeyC", "Ctrl+Shift+KeyM"));
    let b = routes_from_hotkeys(resolved("Ctrl+Shift+KeyX", "Ctrl+Shift+KeyM"));
    let (mut reload, _) = HotkeyReload::start(&a, &b);
    reload.advance(ReloadEvent::Unregistered(Ok(())));
    assert!(matches!(
        reload.advance(ReloadEvent::Registered(Err("taken".to_string()))),
        ReloadAction::Register(RouteSet::Previous)
    ));
    match reload.advance(ReloadEvent::Registered(Err("gone".to_string()))) {
        ReloadAction::Finish(Err(message)) => assert_eq!(
            message,
            "failed to register new hotkeys: taken; also failed to restore previous hotkeys: gone"
        ),
        other => panic!("unexpected {other:?}"),
    }

    let (mut reload, _) = HotkeyReload::start(&a, &b);
    reload.advance(ReloadEvent::Unregistered(Ok(())));
    reload.advance(ReloadEvent::Registered(Err("taken".to_string())));
    match reload.advance(ReloadEvent::Registered(Ok(()))) {
        ReloadAction::Finish(Err(message)) => {
            assert_eq!(message, "failed to register new hotkeys: taken")
        }
        other => panic!("unexpected {other:?}"),
    }
}

#[test]
fn a_failed_unregistration_ends_the_reload() {
    let a = routes_from_hotkeys(resolved("Ctrl+Shift+KeyC", "Ctrl+Shift+KeyM"));
    let b = routes_from_hotkeys(resolved("Ctrl+Shift+KeyX", "Ctrl+Shift+KeyM"));
    let (mut reload, _) = HotkeyReload::start(&a, &b);
    match reload.advance(ReloadEvent::Unregistered(Err("busy".to_string()))) {
        ReloadAction::Finish(Err(message)) => assert_eq!(message, "busy"),
        other => panic!("unexpected {other:?}"),
    }
}

#[test]
fn each_hotkey_is_parsed_from_its_own_field() {
    let hotkeys = resolved("Ctrl+Shift+KeyC", "Alt+KeyM");
    let safe: global_hotkey::hotkey::HotKey = "Ctrl+Shift+KeyC".parse().unwrap();
    let magic: global_hotkey::hotkey::HotKey = "Alt+KeyM".parse().unwrap();
    assert_eq!(hotkeys.safe_mode_id, safe.id());
    assert_eq!(hotkeys.magic_mode_id, magic.id());
    let invalid = HotkeyConfig { safe_mode: "Ctrl+KeyC".to_string(), magic_mode: "Ctrl++".to_string() };
    let expected = "Ctrl++".parse::<global_hotkey::hotkey::HotKey>().unwrap_err().to_string();
    assert!(matches!(
        invalid.resolve(),
        Err(shanka::config::ConfigError::InvalidHotkey { field, message }) if field == "magic_mode" && message == expected
    ));
}
