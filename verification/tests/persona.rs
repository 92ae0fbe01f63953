use shanka::persona::{
    default_safe_persona_id, normalize_config, persona_catalog, resolve_persona, PersonaConfig,
    PersonaConfigItem,
};

#[test]
fn normalize_config_resets_built_in_user_edits() {
    let config = PersonaConfig {
        items: vec![PersonaConfigItem {
            id: "clean-correction".to_string(),
            name: "Changed".to_string(),
            description: "Changed description".to_string(),
            system_prompt: "Changed prompt".to_string(),
            enabled: false,
            built_in: true,
            ..PersonaConfigItem::default()
        }],
        ..PersonaConfig::default()
    };

    let normalized = normalize_config(&config);
    let clean = normalized
        .items
        .iter()
        .find(|persona| persona.id == "clean-correction")
        .expect("built-in clean correction persona should exist");

    assert_eq!(clean.name, "纯净纠错");
    assert_eq!(clean.description, "不改变语气，只修正错别字、标点和基础排版");
    assert_eq!(
        clean.system_prompt,
        "Correct typos, punctuation, and formatting without changing the author's voice."
    );
    assert!(!clean.enabled);
    assert!(clean.built_in);
}

#[test]
fn normalize_config_keeps_deleted_built_in_removed() {
    let config = PersonaConfig {
        deleted_built_in_persona_ids: vec!["translation-zh".to_string()],
        ..PersonaConfig::default()
    };

    let normalized = normalize_config(&config);

    assert!(normalized
        .deleted_built_in_persona_ids
        .contains(&"translation-zh".to_string()));
    assert!(!normalized
        .items
        .iter()
        .any(|persona| persona.id == "translation-zh"));
}

#[test]
fn normalize_config_adds_new_built_ins_when_not_deleted() {
    let config = PersonaConfig {
        items: vec![PersonaConfigItem {
            id: "clean-correction".to_string(),
            name: "Clean Correction".to_string(),
            description: "Clean up writing.".to_string(),
            system_prompt: "Prompt".to_string(),
            enabled: true,
            built_in: true,
            ..PersonaConfigItem::default()
        }],
        deleted_built_in_persona_ids: Vec::new(),
        ..PersonaConfig::default()
    };

    let normalized = normalize_config(&config);

    assert!(normalized
        .items
        .iter()
        .any(|persona| persona.id == "translation-zh"));
    assert!(normalized
        .items
        .iter()
        .any(|persona| persona.id == "vibecoding-requirements"));
}

#[test]
fn normalize_config_falls_back_when_default_is_disabled() {
    let config = PersonaConfig {
        default_safe_persona_id: "clean-correction".to_string(),
        items: vec![PersonaConfigItem {
            id: "clean-correction".to_string(),
            name: "Clean Correction".to_string(),
            description: "Clean up writing.".to_string(),
            system_prompt: "Prompt".to_string(),
            enabled: false,
            built_in: true,
            ..PersonaConfigItem::default()
        }],
        deleted_built_in_persona_ids: Vec::new(),
    };

    let normalized = normalize_config(&config);

    assert_ne!(normalized.default_safe_persona_id, "clean-correction");
    assert!(normalized
        .items
        .iter()
        .any(|persona| persona.id == normalized.default_safe_persona_id && persona.enabled));
}

#[test]
fn resolve_persona_can_use_custom_persona() {
    let config = PersonaConfig {
        items: vec![PersonaConfigItem {
            id: "custom-friendly".to_string(),
            name: "Friendly".to_string(),
            description: "Friendly rewrite".to_string(),
            system_prompt: "Make it friendlier.".to_string(),
            enabled: true,
            ..PersonaConfigItem::default()
        }],
        ..PersonaConfig::default()
    };

    let resolved =
        resolve_persona(&config, Some("custom-friendly")).expect("custom persona should resolve");

    assert_eq!(resolved.name, "Friendly");
    assert_eq!(resolved.system_prompt, "Make it friendlier.");
}

fn custom(id: &str, enabled: bool) -> PersonaConfigItem {
    PersonaConfigItem {
        id: id.to_string(),
        name: format!("{id} name"),
        description: format!("{id} description"),
        system_prompt: format!("{id} prompt"),
        enabled,
        ..PersonaConfigItem::default()
    }
}

#[test]
fn normalizing_twice_changes_nothing() {
    let config = PersonaConfig {
        default_safe_persona_id: "missing".to_string(),
        items: vec![custom("a", false), custom("a", true), custom("b", true), custom("", true)],
        deleted_built_in_persona_ids: vec![
            " translation-zh ".to_string(),
            "translation-zh".to_string(),
            "unknown".to_string(),
        ],
    };
    let once = normalize_config(&config);
    let twice = normalize_config(&once);
    assert_eq!(once, twice);
}

#[test]
fn normalization_orders_built_ins_first_and_drops_duplicates_and_unusable_customs() {
    let config = PersonaConfig {
        default_safe_persona_id: "b".to_string(),
        items: vec![custom("a", false), custom("a", true), custom("b", true), custom("  ", true)],
        deleted_built_in_persona_ids: vec![" translation-zh ".to_string(), "unknown".to_string()],
    };
    let normalized = normalize_config(&config);
    let ids: Vec<&str> = normalized.items.iter().map(|p| p.id.as_str()).collect();
    assert_eq!(ids, vec!["clean-correction", "vibecoding-requirements", "a", "b"]);
    assert!(!normalized.items[2].enabled);
    assert!(!normalized.items[2].built_in);
    assert_eq!(normalized.deleted_built_in_persona_ids, vec!["translation-zh".to_string()]);
    assert_eq!(normalized.default_safe_persona_id, "b");
}

#[test]
fn all_built_ins_deleted_and_nothing_custom_restores_the_catalog() {
    let config = PersonaConfig {
        default_safe_persona_id: "clean-correction".to_string(),
        items: Vec::new(),
        deleted_built_in_persona_ids: vec![
            "clean-correction".to_string(),
            "translation-zh".to_string(),
            "vibecoding-requirements".to_string(),
        ],
    };
    let normalized = normalize_config(&config);
    assert_eq!(normalized.items, persona_catalog());
    assert!(normalized.deleted_built_in_persona_ids.is_empty());
    assert_eq!(normalized.default_safe_persona_id, default_safe_persona_id());
}

#[test]
fn nothing_enabled_enables_the_fallback_persona() {
    let mut items = persona_catalog();
    for item in items.iter_mut() {
        item.enabled = false;
    }
    let config = PersonaConfig {
        default_safe_persona_id: "translation-zh".to_string(),
        items,
        deleted_built_in_persona_ids: Vec::new(),
    };
    let normalized = normalize_config(&config);
    assert!(normalized.items[0].enabled);
    assert_eq!(normalized.items[0].id, "clean-correction");
    assert!(!normalized.items[1].enabled);
    assert_eq!(normalized.default_safe_persona_id, "clean-correction");
}

#[test]
fn resolve_persona_falls_back_to_the_default() {
    let config = PersonaConfig::default();
    let by_default = resolve_persona(&config, None).expect("default resolves");
    assert_eq!(by_default.name, "纯净纠错");
    let unknown = resolve_persona(&config, Some("nope")).expect("unknown falls back");
    assert_eq!(unknown.name, "纯净纠错");
    let translation = resolve_persona(&config, Some("translation-zh")).expect("built-in resolves");
    assert_ne!(translation.name, by_default.name);
}

#[test]
fn the_catalog_default_is_clean_correction() {
    assert_eq!(default_safe_persona_id(), "clean-correction");
    let catalog = persona_catalog();
    assert_eq!(catalog.len(), 3);
    assert!(catalog.iter().all(|p| p.built_in && p.enabled));
}

#[test]
fn custom_personas_come_from_usable_input() {
    let config = PersonaConfig {
        items: vec![custom("kept", false), custom("", true)],
        ..PersonaConfig::default()
    };
    let normalized = normalize_config(&config);
    let customs: Vec<&PersonaConfigItem> = normalized.items.iter().filter(|p| !p.built_in).collect();
    assert_eq!(customs.len(), 1);
    assert_eq!(customs[0].id, "kept");
    assert_eq!(customs[0].system_prompt, "kept prompt");
    assert!(!customs[0].enabled);
}
