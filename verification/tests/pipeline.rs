use shanka::pipeline::{
    next_delivery_action, permission_gate, pipeline_result, preview_replacement_text,
    regenerated_preview, regeneration_persona_id, replacement_action, safe_preview_persona_id,
    settle_delivered_preview,
    DeliveryAction, DeliveryEvent, LastReplacementStore, PipelineError, RegenerationOutcome,
    SafePreview, SafePreviewStore,
};
use shanka::persona::{PersonaConfig, PersonaConfigItem};
use shanka::rewrite::{RewriteError, RewriteResponse};
use shanka::selection::{SelectedText, SelectionError};

fn preview(id: u64) -> SafePreview {
    SafePreview {
        id,
        original_text: "orig".to_string(),
        replacement_text: "rewrite".to_string(),
        persona_id: "clean-correction".to_string(),
    }
}

#[test]
fn error_codes_follow_the_stage_and_cause() {
    let code = |e: PipelineError| e.error_code();
    assert_eq!(code(PipelineError::Selection(SelectionError::NoTextSelected)), "NO_TEXT_SELECTED");
    assert_eq!(code(PipelineError::Selection(SelectionError::Clipboard(String::new()))), "CLIPBOARD_ACCESS_FAILED");
    assert_eq!(code(PipelineError::Selection(SelectionError::Input(String::new()))), "PASTE_BLOCKED");
    assert_eq!(code(PipelineError::Selection(SelectionError::PermissionDenied(String::new()))), "PLATFORM_PERMISSION_REQUIRED");
    assert_eq!(code(PipelineError::Selection(SelectionError::UnsupportedPlatformNativeProvider("x"))), "API_ERROR");
    assert_eq!(code(PipelineError::Rewrite(RewriteError::Config(String::new()))), "API_CONFIG_MISSING");
    assert_eq!(code(PipelineError::Rewrite(RewriteError::Timeout)), "NETWORK_TIMEOUT");
    assert_eq!(code(PipelineError::Rewrite(RewriteError::InvalidResponse(String::new()))), "PROVIDER_RESPONSE_INVALID");
    assert_eq!(code(PipelineError::Rewrite(RewriteError::EmptyInput)), "API_ERROR");
    assert_eq!(code(PipelineError::Replacement(SelectionError::Clipboard(String::new()))), "CLIPBOARD_ACCESS_FAILED");
    assert_eq!(code(PipelineError::Replacement(SelectionError::NoTextSelected)), "PASTE_BLOCKED");
}

#[test]
fn error_messages_name_the_stage() {
    assert_eq!(
        PipelineError::Selection(SelectionError::NoTextSelected).message(),
        "selection failed: no text selected"
    );
    assert_eq!(
        PipelineError::Rewrite(RewriteError::Timeout).message(),
        "rewrite failed: remote rewrite error: request timed out"
    );
    assert_eq!(
        PipelineError::Replacement(SelectionError::Input("blocked".to_string())).message(),
        "replacement failed: input error: blocked"
    );
}

#[test]
fn permission_issues_stop_the_run() {
    assert!(permission_gate(None).is_ok());
    assert!(matches!(
        permission_gate(Some("macOS Accessibility permission is required")),
        Err(PipelineError::Selection(SelectionError::PermissionDenied(m))) if m == "macOS Accessibility permission is required"
    ));
}

#[test]
fn outcome_counts_characters() {
    let result = pipeline_result(
        SelectedText { text: "héllo".to_string(), provider: "clipboard-copy" },
        RewriteResponse { text: "hi".to_string(), provider: "mock-rewrite", duration: std::time::Duration::from_millis(3) },
    );
    let outcome = result.into_outcome(std::time::Duration::from_millis(9));
    assert_eq!(outcome.selected_characters, 5);
    assert_eq!(outcome.replacement_characters, 2);
    assert_eq!(outcome.selection_provider, "clipboard-copy");
    assert_eq!(outcome.rewrite_provider, "mock-rewrite");
    assert_eq!(outcome.total_duration, std::time::Duration::from_millis(9));
}

#[test]
fn preview_store_reads_back_what_it_holds() {
    let mut store = SafePreviewStore::new();
    assert!(matches!(store.current_safe_preview(1), Err(SelectionError::Clipboard(m)) if m == "safe preview is no longer available"));
    assert!(store.preview_ids_left());
    let opened = store.open_preview("orig".to_string(), "rewrite".to_string(), "p".to_string());
    assert_eq!(opened.id, 1);
    let read = store.current_safe_preview(1).expect("current");
    assert_eq!(read.replacement_text, "rewrite");
    assert!(matches!(store.current_safe_preview(2), Err(SelectionError::Clipboard(m)) if m == "safe preview has already changed"));
    assert!(matches!(store.clear_safe_preview(2), Err(SelectionError::Clipboard(m)) if m == "safe preview has already changed"));
    assert!(store.clear_safe_preview(1).is_ok());
    assert!(store.clear_safe_preview(1).is_ok());
    assert!(store.current_safe_preview(1).is_err());
    assert_eq!(store.next_safe_preview_id(), 2);
}

#[test]
fn a_new_preview_replaces_the_open_one() {
    let mut store = SafePreviewStore::new();
    store.open_preview("a".to_string(), "b".to_string(), "p".to_string());
    let second = store.open_preview("c".to_string(), "d".to_string(), "q".to_string());
    assert_eq!(second.id, 2);
    assert!(store.current_safe_preview(1).is_err());
    assert_eq!(store.current_safe_preview(2).unwrap().original_text, "c");
    assert!(store.clear_any_safe_preview().is_ok());
    assert!(store.current_safe_preview(2).is_err());
}

#[test]
fn regeneration_replaces_text_and_persona_only() {
    let mut store = SafePreviewStore::new();
    let opened = store.open_preview("orig".to_string(), "old".to_string(), "p".to_string());
    let (started, persona) = store.begin_regeneration(opened.id, Some("q".to_string())).expect("current");
    assert_eq!(persona, "q");
    match store.finish_regeneration(started, persona, Ok("new".to_string())) {
        RegenerationOutcome::ShowPreview(p) => {
            assert_eq!(p.id, opened.id);
            assert_eq!(p.original_text, "orig");
            assert_eq!(p.replacement_text, "new");
            assert_eq!(p.persona_id, "q");
        }
        other => panic!("unexpected {other:?}"),
    }
    assert_eq!(store.current_safe_preview(opened.id).unwrap().replacement_text, "new");
}

#[test]
fn failed_regeneration_shows_the_unchanged_preview_with_its_code() {
    let mut store = SafePreviewStore::new();
    let opened = store.open_preview("orig".to_string(), "old".to_string(), "p".to_string());
    let (started, persona) = store.begin_regeneration(opened.id, None).unwrap();
    assert_eq!(persona, "p");
    match store.finish_regeneration(started, persona, Err(RewriteError::Timeout)) {
        RegenerationOutcome::ShowPreviewError { preview, error_code } => {
            assert_eq!(preview.replacement_text, "old");
            assert_eq!(error_code, "NETWORK_TIMEOUT");
        }
        other => panic!("unexpected {other:?}"),
    }
}

#[test]
fn regeneration_leaves_a_dismissed_preview_alone() {
    let mut store = SafePreviewStore::new();
    let opened = store.open_preview("orig".to_string(), "old".to_string(), "p".to_string());
    let (started, persona) = store.begin_regeneration(opened.id, None).unwrap();
    store.clear_any_safe_preview().unwrap();
    assert!(matches!(
        store.finish_regeneration(started, persona, Ok("new".to_string())),
        RegenerationOutcome::Dismissed(SelectionError::Clipboard(m)) if m == "safe preview is no longer available"
    ));
    assert!(store.current_safe_preview(opened.id).is_err());
    assert!(matches!(
        store.begin_regeneration(opened.id, None),
        Err(PipelineError::Replacement(SelectionError::Clipboard(_)))
    ));
}

#[test]
fn preview_helpers() {
    let p = preview(4);
    assert_eq!(preview_replacement_text(&p, None), "rewrite");
    assert_eq!(preview_replacement_text(&p, Some("edited".to_string())), "edited");
    assert_eq!(regeneration_persona_id(None, &p), "clean-correction");
    assert_eq!(regeneration_persona_id(Some("x".to_string()), &p), "x");
    let next = regenerated_preview(p, "t".to_string(), "y".to_string());
    assert_eq!((next.id, next.original_text.as_str(), next.replacement_text.as_str(), next.persona_id.as_str()), (4, "orig", "t", "y"));
}

#[test]
fn safe_preview_persona_comes_from_the_normalized_config() {
    assert_eq!(safe_preview_persona_id(None), "clean-correction");
    let config = PersonaConfig {
        default_safe_persona_id: "mine".to_string(),
        items: vec![PersonaConfigItem {
            id: "mine".to_string(),
            name: "Mine".to_string(),
            description: "d".to_string(),
            system_prompt: "p".to_string(),
            ..PersonaConfigItem::default()
        }],
        deleted_built_in_persona_ids: Vec::new(),
    };
    assert_eq!(safe_preview_persona_id(Some(&config)), "mine");
}

#[test]
fn undo_keeps_the_last_original() {
    let mut store = LastReplacementStore::new();
    assert!(matches!(
        store.last_replacement_original(),
        Err(PipelineError::Replacement(SelectionError::Clipboard(m))) if m == "last replacement is no longer available"
    ));
    store.remember_last_replacement("first");
    store.remember_last_replacement("second");
    assert_eq!(store.last_replacement_original().unwrap(), "second");
}

#[test]
fn delivery_falls_back_to_the_clipboard() {
    assert!(matches!(next_delivery_action(DeliveryEvent::Begin { elevation_required: false }), DeliveryAction::Paste));
    assert!(matches!(next_delivery_action(DeliveryEvent::Begin { elevation_required: true }), DeliveryAction::CopyToClipboard));
    assert!(matches!(next_delivery_action(DeliveryEvent::Pasted(Ok(()))), DeliveryAction::Finish { replaced: true }));
    assert!(matches!(
        next_delivery_action(DeliveryEvent::Pasted(Err(SelectionError::Input(String::new())))),
        DeliveryAction::CopyToClipboard
    ));
    assert!(matches!(next_delivery_action(DeliveryEvent::Copied(Ok(()))), DeliveryAction::Finish { replaced: false }));
    assert!(matches!(
        next_delivery_action(DeliveryEvent::Copied(Err(SelectionError::Clipboard("x".to_string())))),
        DeliveryAction::Fail(PipelineError::Replacement(SelectionError::Clipboard(m))) if m == "x"
    ));
    assert_eq!(replacement_action(true), "replaced");
    assert_eq!(replacement_action(false), "saved_to_clipboard");
}

#[test]
fn a_pasted_preview_is_cleared_and_kept_for_undo() {
    let mut previews = SafePreviewStore::new();
    let mut last = LastReplacementStore::new();
    let preview = previews.open_preview("orig".to_string(), "new".to_string(), "p".to_string());
    let action = settle_delivered_preview(&mut previews, &mut last, &preview, true).unwrap();
    assert_eq!(action, "replaced");
    assert!(previews.current_safe_preview(preview.id).is_err());
    assert_eq!(last.last_replacement_original().unwrap(), "orig");
}

#[test]
fn a_preview_left_on_the_clipboard_is_cleared_but_not_kept() {
    let mut previews = SafePreviewStore::new();
    let mut last = LastReplacementStore::new();
    last.remember_last_replacement("earlier");
    let preview = previews.open_preview("orig".to_string(), "new".to_string(), "p".to_string());
    let action = settle_delivered_preview(&mut previews, &mut last, &preview, false).unwrap();
    assert_eq!(action, "saved_to_clipboard");
    assert!(previews.current_safe_preview(preview.id).is_err());
    assert_eq!(last.last_replacement_original().unwrap(), "earlier");
}

#[test]
fn a_changed_preview_is_not_settled() {
    let mut previews = SafePreviewStore::new();
    let mut last = LastReplacementStore::new();
    let first = previews.open_preview("one".to_string(), "1".to_string(), "p".to_string());
    let second = previews.open_preview("two".to_string(), "2".to_string(), "p".to_string());
    let settled = settle_delivered_preview(&mut previews, &mut last, &first, true);
    assert!(matches!(
        settled,
        Err(PipelineError::Replacement(SelectionError::Clipboard(m))) if m == "safe preview has already changed"
    ));
    assert!(previews.current_safe_preview(second.id).is_ok());
    assert!(last.last_replacement_original().is_err());
}
