use shanka::autostart::{
    should_refresh_entry, started_from_autostart_args, AutostartToggle, ToggleAction, ToggleEvent,
    FROM_AUTOSTART_ARG,
};

#[test]
fn started_from_autostart_detects_explicit_flag() {
    assert!(started_from_autostart_args(&["shanka", "--from-autostart"]));
}

#[test]
fn started_from_autostart_ignores_normal_launch() {
    assert!(!started_from_autostart_args(&["shanka"]));
}

#[test]
fn autostart_flag_must_match_exactly() {
    assert_eq!(FROM_AUTOSTART_ARG, "--from-autostart");
    assert!(!started_from_autostart_args(&["shanka", "--from-autostart=1"]));
    assert!(!started_from_autostart_args(&[]));
    assert!(started_from_autostart_args(&["--from-autostart", "shanka"]));
}

#[test]
fn refresh_only_when_entry_reads_enabled() {
    assert!(should_refresh_entry(Ok(true)));
    assert!(!should_refresh_entry(Ok(false)));
    assert!(!should_refresh_entry(Err("denied".to_string())));
}

#[test]
fn enabling_is_skipped_when_already_enabled() {
    let (mut toggle, first) = AutostartToggle::start(true);
    assert!(matches!(first, ToggleAction::QueryEnabled));
    let next = toggle.advance(ToggleEvent::Queried(Ok(true)));
    assert!(matches!(next, ToggleAction::Finish(Ok(true))));
}

#[test]
fn enabling_checks_the_resulting_state() {
    let (mut toggle, _) = AutostartToggle::start(true);
    assert!(matches!(toggle.advance(ToggleEvent::Queried(Ok(false))), ToggleAction::Enable));
    assert!(matches!(toggle.advance(ToggleEvent::Changed(Ok(()))), ToggleAction::QueryEnabled));
    assert!(matches!(
        toggle.advance(ToggleEvent::Queried(Err("unreadable".to_string()))),
        ToggleAction::Finish(Ok(true))
    ));
}

#[test]
fn enabling_reports_unchanged_system_state() {
    let (mut toggle, _) = AutostartToggle::start(true);
    toggle.advance(ToggleEvent::Queried(Ok(false)));
    toggle.advance(ToggleEvent::Changed(Ok(())));
    match toggle.advance(ToggleEvent::Queried(Ok(false))) {
        ToggleAction::Finish(Err(message)) => assert_eq!(
            message,
            "failed to enable launch-at-login: system state did not change"
        ),
        other => panic!("unexpected action {other:?}"),
    }
}

#[test]
fn enabling_failure_is_reported_with_its_cause() {
    let (mut toggle, _) = AutostartToggle::start(true);
    toggle.advance(ToggleEvent::Queried(Ok(false)));
    match toggle.advance(ToggleEvent::Changed(Err("no access".to_string()))) {
        ToggleAction::Finish(Err(message)) => {
            assert_eq!(message, "failed to enable launch-at-login: no access")
        }
        other => panic!("unexpected action {other:?}"),
    }
}

#[test]
fn failed_disable_succeeds_when_entry_is_off_anyway() {
    let (mut toggle, first) = AutostartToggle::start(false);
    assert!(matches!(first, ToggleAction::Disable));
    assert!(matches!(
        toggle.advance(ToggleEvent::Changed(Err("missing".to_string()))),
        ToggleAction::QueryEnabled
    ));
    assert!(matches!(
        toggle.advance(ToggleEvent::Queried(Ok(false))),
        ToggleAction::Finish(Ok(false))
    ));
}

#[test]
fn failed_disable_is_reported_when_entry_stays_on() {
    let (mut toggle, _) = AutostartToggle::start(false);
    toggle.advance(ToggleEvent::Changed(Err("locked".to_string())));
    match toggle.advance(ToggleEvent::Queried(Ok(true))) {
        ToggleAction::Finish(Err(message)) => {
            assert_eq!(message, "failed to disable launch-at-login: locked")
        }
        other => panic!("unexpected action {other:?}"),
    }
}

#[test]
fn disabling_reports_unchanged_system_state() {
    let (mut toggle, _) = AutostartToggle::start(false);
    toggle.advance(ToggleEvent::Changed(Ok(())));
    match toggle.advance(ToggleEvent::Queried(Ok(true))) {
        ToggleAction::Finish(Err(message)) => assert_eq!(
            message,
            "failed to disable launch-at-login: system state did not change"
        ),
        other => panic!("unexpected action {other:?}"),
    }
}
