use shanka::history::{
    history_item, history_result_text, prepend_history_item, record_into_history,
    truncate_history_text, RewriteHistoryItem, RewriteHistoryRecord, HISTORY_LIMIT,
    HISTORY_TEXT_LIMIT,
};

fn item(id: u64) -> RewriteHistoryItem {
    RewriteHistoryItem {
        id,
        mode: "safe".to_string(),
        original_text: format!("original {id}"),
        result_text: format!("result {id}"),
        persona_id: None,
        action: "copied".to_string(),
        replaced: false,
        created_at_ms: id,
    }
}

#[test]
fn history_texts_keep_the_first_characters() {
    assert_eq!(HISTORY_TEXT_LIMIT, 4_000);
    let long = "字".repeat(HISTORY_TEXT_LIMIT + 10);
    assert_eq!(truncate_history_text(&long).chars().count(), HISTORY_TEXT_LIMIT);
    assert_eq!(truncate_history_text("short"), "short");
}

#[test]
fn a_record_becomes_an_entry_with_its_time_as_id() {
    let record = RewriteHistoryRecord {
        mode: "magic",
        original_text: "before",
        result_text: "after",
        persona_id: Some("clean-correction"),
        action: "replaced",
        replaced: true,
    };
    let entry = history_item(&record, 42);
    assert_eq!(entry.id, 42);
    assert_eq!(entry.created_at_ms, 42);
    assert_eq!(entry.mode, "magic");
    assert_eq!(entry.original_text, "before");
    assert_eq!(entry.result_text, "after");
    assert_eq!(entry.persona_id.as_deref(), Some("clean-correction"));
    assert_eq!(entry.action, "replaced");
    assert!(entry.replaced);
}

#[test]
fn history_keeps_the_newest_entries_first() {
    let mut history = Vec::new();
    for id in 1..=(HISTORY_LIMIT as u64 + 5) {
        history = prepend_history_item(&history, item(id));
    }
    assert_eq!(history.len(), HISTORY_LIMIT);
    assert_eq!(history[0].id, HISTORY_LIMIT as u64 + 5);
    assert_eq!(history[HISTORY_LIMIT - 1].id, 6);
}

#[test]
fn disabled_history_records_nothing() {
    let record = RewriteHistoryRecord {
        mode: "safe",
        original_text: "a",
        result_text: "b",
        persona_id: None,
        action: "copied",
        replaced: false,
    };
    assert!(record_into_history(&vec![item(1)], &record, false, 9).is_none());
    let updated = record_into_history(&vec![item(1)], &record, true, 9).expect("recorded");
    assert_eq!(updated.len(), 2);
    assert_eq!(updated[0].id, 9);
    assert_eq!(updated[1].id, 1);
}

#[test]
fn history_results_are_found_by_id() {
    let history = vec![item(3), item(2), item(3)];
    assert_eq!(history_result_text(&history, 2).unwrap(), "result 2");
    assert_eq!(history_result_text(&history, 3).unwrap(), "result 3");
    assert_eq!(
        history_result_text(&history, 7).unwrap_err(),
        "history item is no longer available"
    );
}

#[test]
fn a_recorded_rewrite_reads_back_from_history() {
    let history = vec![item(7), item(3)];
    let record = RewriteHistoryRecord {
        mode: "safe",
        original_text: "before",
        result_text: "after",
        persona_id: Some("clean-correction"),
        action: "copied",
        replaced: false,
    };
    let updated = record_into_history(&history, &record, true, 7).expect("recorded");
    assert_eq!(history_result_text(&updated, 7).unwrap(), "after");
    assert_eq!(history_result_text(&updated, 3).unwrap(), "result 3");
}
