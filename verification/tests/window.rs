use shanka::hud::{current, should_auto_hide, HudUpdate};
use shanka::window::{layout_for_status, HudGeneration, HudLayout, HudPositionSession};

#[test]
fn layouts_per_status() {
    assert_eq!(
        layout_for_status("preview"),
        HudLayout { width: 420, height: 228, vertical_offset: 10, interactive: true }
    );
    assert_eq!(
        layout_for_status("undo_available"),
        HudLayout { width: 220, height: 52, vertical_offset: 8, interactive: true }
    );
    assert_eq!(
        layout_for_status("refining"),
        HudLayout { width: 180, height: 52, vertical_offset: 8, interactive: false }
    );
}

#[test]
fn only_final_states_hide_themselves() {
    for status in ["replaced", "undo_available", "error", "saved_to_clipboard"] {
        assert!(should_auto_hide(status));
    }
    for status in ["idle", "refining", "preview"] {
        assert!(!should_auto_hide(status));
    }
}

#[test]
fn a_later_presentation_cancels_an_earlier_hide() {
    let mut generation = HudGeneration::new();
    let first = generation.present();
    assert!(generation.should_hide(first));
    let second = generation.present();
    assert!(!generation.should_hide(first));
    assert!(generation.should_hide(second));
    let mut wrapping = HudGeneration { current: u64::MAX };
    assert_eq!(wrapping.present(), 0);
}

#[test]
fn the_first_preview_position_of_a_session_is_kept() {
    let mut session: HudPositionSession<(i32, i32)> = HudPositionSession::new();
    assert_eq!(session.anchor_or((5, 5)), (5, 5));
    session.begin(Some((1, 2)));
    assert_eq!(session.anchor_or((5, 5)), (1, 2));
    assert_eq!(session.locked_preview_position(), None);
    session.remember_preview_position((10, 20));
    session.remember_preview_position((30, 40));
    assert_eq!(session.locked_preview_position(), Some((10, 20)));
    session.begin(None);
    assert_eq!(session.locked_preview_position(), None);
}

#[test]
fn hud_states() {
    let idle = current(None);
    assert_eq!(idle.status, "idle");
    let preview = HudUpdate::preview(3, "o".to_string(), "t".to_string(), "p".to_string());
    let again = current(Some(&preview));
    assert_eq!(again.status, "preview");
    assert_eq!(again.preview_id, Some(3));
    assert_eq!(again.message.as_deref(), Some("t"));
    assert_eq!(again.original_text.as_deref(), Some("o"));
    let failed = HudUpdate::preview_error(3, "o".to_string(), "t".to_string(), "p".to_string(), "NETWORK_TIMEOUT");
    assert_eq!(failed.error_code, Some("NETWORK_TIMEOUT"));
    assert_eq!(HudUpdate::error("API_ERROR").status, "error");
    assert_eq!(HudUpdate::refining().status, "refining");
    assert_eq!(HudUpdate::undo_available().status, "undo_available");
    assert_eq!(HudUpdate::saved_to_clipboard().status, "saved_to_clipboard");
}

#[test]
fn presenting_a_status_decides_generation_layout_and_hide() {
    let mut generation = HudGeneration::new();
    let refining = generation.present_status("refining");
    assert_eq!(refining.generation, 1);
    assert!(!refining.schedule_hide);
    assert!(!refining.layout.interactive);
    let undo = generation.present_status("undo_available");
    assert_eq!(undo.generation, 2);
    assert!(undo.schedule_hide);
    assert_eq!(undo.layout, HudLayout { width: 220, height: 52, vertical_offset: 8, interactive: true });
    assert!(!generation.should_hide(refining.generation));
    assert!(generation.should_hide(undo.generation));
    let preview = generation.present_status("preview");
    assert!(!preview.schedule_hide);
    assert!(preview.layout.interactive);
    assert!(!generation.should_hide(undo.generation));
    assert!(generation.present_status("error").schedule_hide);
}
