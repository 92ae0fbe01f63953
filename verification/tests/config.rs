use shanka::config::{
    default_hotkeys, normalized_personas, persona_config_eq, settle_loaded_config, AppConfig,
    AppSettingsConfig, ConfigError, HotkeyConfig, CONFIG_SCHEMA_VERSION,
};
use shanka::persona::{normalize_config, PersonaConfig, PersonaConfigItem};
use shanka::platform::TargetOs;

#[test]
fn default_hotkeys_per_platform() {
    let mac = default_hotkeys(TargetOs::MacOs);
    assert_eq!(mac.safe_mode, "Cmd+Shift+KeyC");
    assert_eq!(mac.magic_mode, "Cmd+Shift+Space");
    let other = HotkeyConfig::defaults_for(TargetOs::Windows);
    assert_eq!(other.safe_mode, "Ctrl+Shift+KeyC");
    assert_eq!(other.magic_mode, "Ctrl+Shift+Space");
}

#[test]
fn default_settings() {
    let settings = AppSettingsConfig::default();
    assert_eq!(settings.provider, "openai");
    assert_eq!(settings.base_url, "https://api.openai.com/v1");
    assert_eq!(settings.timeout_ms, 8_000);
    assert!(settings.history_enabled);
    assert!(!settings.launch_at_login);
    assert!(!settings.can_use_remote_provider());
}

#[test]
fn settings_are_cleaned_for_saving() {
    let settings = AppSettingsConfig {
        api_key: "  sk-1 ".to_string(),
        base_url: " https://x.test/v1// ".to_string(),
        model: " m ".to_string(),
        timeout_ms: 10,
        ..AppSettingsConfig::default()
    };
    let cleaned = settings.normalized().expect("valid");
    assert_eq!(cleaned.api_key, "sk-1");
    assert_eq!(cleaned.base_url, "https://x.test/v1");
    assert_eq!(cleaned.model, "m");
    assert_eq!(cleaned.timeout_ms, 1_000);
    assert!(cleaned.can_use_remote_provider());
    let slow = AppSettingsConfig { timeout_ms: 500_000, ..AppSettingsConfig::default() };
    assert_eq!(slow.normalized().unwrap().timeout_ms, 120_000);
}

#[test]
fn an_empty_base_url_is_refused() {
    let settings = AppSettingsConfig { base_url: " /// ".to_string(), ..AppSettingsConfig::default() };
    match settings.normalized() {
        Err(e @ ConfigError::InvalidSettings(_)) => {
            assert_eq!(e.message(), "invalid app settings: base_url cannot be empty")
        }
        other => panic!("unexpected {other:?}"),
    }
}

#[test]
fn config_error_messages() {
    assert_eq!(ConfigError::Io("x".to_string()).message(), "config I/O error: x");
    assert_eq!(ConfigError::Json("x".to_string()).message(), "config JSON error: x");
    assert_eq!(
        ConfigError::InvalidHotkey { field: "safe_mode", message: "bad".to_string() }.message(),
        "invalid safe_mode hotkey: bad"
    );
    assert_eq!(
        ConfigError::DuplicateHotkeys("Ctrl+KeyC".to_string()).message(),
        "safe and magic hotkeys must be different: Ctrl+KeyC"
    );
    assert_eq!(ConfigError::InvalidPersonas("p".to_string()).message(), "invalid personas: p");
    assert_eq!(ConfigError::Path("p".to_string()).message(), "config path error: p");
}

#[test]
fn personas_are_normalized_for_saving() {
    let personas = PersonaConfig { default_safe_persona_id: "x".to_string(), ..PersonaConfig::default() };
    let saved = normalized_personas(&personas).expect("never empty");
    assert_eq!(saved, normalize_config(&personas));
    assert_eq!(saved.default_safe_persona_id, "clean-correction");
}

#[test]
fn an_unreadable_file_becomes_the_defaults() {
    let (config, needs_save) = settle_loaded_config(Err(ConfigError::Json("eof".to_string())), TargetOs::Linux);
    assert!(needs_save);
    assert_eq!(config.schema_version, CONFIG_SCHEMA_VERSION);
    assert_eq!(config.hotkeys.safe_mode, "Ctrl+Shift+KeyC");
    assert_eq!(config.personas, PersonaConfig::default());
}

#[test]
fn a_loaded_file_is_saved_again_only_when_normalization_changed_it() {
    let mut config = AppConfig::default_for(TargetOs::Linux);
    config.personas.items.push(PersonaConfigItem { id: "  ".to_string(), ..PersonaConfigItem::default() });
    let (settled, needs_save) = settle_loaded_config(Ok(config), TargetOs::Linux);
    assert!(needs_save);
    let (again, needs_second_save) = settle_loaded_config(Ok(settled), TargetOs::Linux);
    assert!(!needs_second_save);
    assert!(persona_config_eq(&again.personas, &PersonaConfig::default()));
}

#[test]
fn saving_writes_normalized_personas() {
    let mut config = AppConfig::default_for(TargetOs::MacOs);
    config.personas.default_safe_persona_id = "gone".to_string();
    let saved = config.prepared_for_saving();
    assert_eq!(saved.personas.default_safe_persona_id, "clean-correction");
    assert_eq!(saved.hotkeys.safe_mode, "Cmd+Shift+KeyC");
    assert_eq!(saved.settings.base_url, config.settings.base_url);
}

#[test]
fn normalizing_keeps_whether_the_provider_can_be_used() {
    let usable = AppSettingsConfig {
        api_key: " k ".to_string(),
        model: " m ".to_string(),
        base_url: " https://x/ ".to_string(),
        ..AppSettingsConfig::default()
    };
    assert!(usable.can_use_remote_provider());
    assert!(usable.normalized().unwrap().can_use_remote_provider());
    let unusable = AppSettingsConfig { api_key: "  ".to_string(), model: "m".to_string(), ..AppSettingsConfig::default() };
    assert!(!unusable.can_use_remote_provider());
    assert!(!unusable.normalized().unwrap().can_use_remote_provider());
    assert!(!AppSettingsConfig::default().can_use_remote_provider());
}
