use shanka::config::AppSettingsConfig;
use shanka::keychain::{
    api_key_needs_storing, api_key_read_needed, default_api_key_ref, keychain_supported, load_api_key,
    settings_to_persist, store_api_key, KeychainReadError, KeychainWriteError, API_KEY_ACCOUNT,
    API_KEY_REF, SERVICE,
};
use shanka::platform::TargetOs;

#[test]
fn the_key_is_filed_under_the_app() {
    assert_eq!(default_api_key_ref(), "keychain://shanka/openai-compatible-api-key");
    assert_eq!(SERVICE, "Shanka");
    assert_eq!(API_KEY_ACCOUNT, "openai-compatible-api-key");
}

#[test]
fn only_desktop_platforms_have_a_keychain() {
    assert!(keychain_supported(TargetOs::Windows));
    assert!(keychain_supported(TargetOs::MacOs));
    assert!(keychain_supported(TargetOs::Linux));
    assert!(!keychain_supported(TargetOs::Other));
    assert_eq!(
        store_api_key(TargetOs::Other, None).unwrap_err(),
        "system keychain is not supported on this platform"
    );
    assert_eq!(
        load_api_key(TargetOs::Other, "ref", None).unwrap_err(),
        "system keychain is not supported on this platform"
    );
}

#[test]
fn storing_the_key_returns_its_reference() {
    assert_eq!(store_api_key(TargetOs::Linux, Some(Ok(()))).unwrap(), default_api_key_ref());
    assert_eq!(
        store_api_key(TargetOs::Linux, Some(Err(KeychainWriteError::Open("no service".to_string())))).unwrap_err(),
        "failed to open system keychain: no service"
    );
    assert_eq!(
        store_api_key(TargetOs::MacOs, Some(Err(KeychainWriteError::Write("denied".to_string())))).unwrap_err(),
        "failed to write API key to system keychain: denied"
    );
}

#[test]
fn loading_the_key() {
    assert!(!api_key_read_needed(TargetOs::Linux, "   "));
    assert!(api_key_read_needed(TargetOs::Linux, "keychain://x"));
    assert_eq!(load_api_key(TargetOs::Linux, " ", None).unwrap(), None);
    assert_eq!(
        load_api_key(TargetOs::Windows, "ref", Some(Ok("sk-1".to_string()))).unwrap(),
        Some("sk-1".to_string())
    );
    assert_eq!(load_api_key(TargetOs::Windows, "ref", Some(Err(KeychainReadError::NoEntry))).unwrap(), None);
    assert_eq!(
        load_api_key(TargetOs::Windows, "ref", Some(Err(KeychainReadError::Read("locked".to_string())))).unwrap_err(),
        "failed to read API key from system keychain: locked"
    );
    assert_eq!(
        load_api_key(TargetOs::Windows, "ref", Some(Err(KeychainReadError::Open("x".to_string())))).unwrap_err(),
        "failed to open system keychain: x"
    );
}

fn settings_with_key(key: &str) -> AppSettingsConfig {
    let mut settings = AppSettingsConfig::default();
    settings.api_key = key.to_string();
    settings.model = "gpt-4o-mini".to_string();
    settings
}

#[test]
fn only_a_plain_key_needs_storing() {
    assert!(api_key_needs_storing(&settings_with_key("sk-123")));
    assert!(!api_key_needs_storing(&settings_with_key("   ")));
    assert!(!api_key_needs_storing(&settings_with_key("")));
    assert!(!api_key_needs_storing(&settings_with_key(API_KEY_REF)));
}

#[test]
fn persisted_settings_keep_only_the_key_reference() {
    let (persisted, error) = settings_to_persist(TargetOs::Linux, &settings_with_key("sk-123"), Some(Ok(())));
    assert_eq!(persisted.api_key, "keychain://shanka/openai-compatible-api-key");
    assert_eq!(persisted.model, "gpt-4o-mini");
    assert!(error.is_none());
}

#[test]
fn a_failed_keychain_write_leaves_the_settings_and_reports_why() {
    let settings = settings_with_key("sk-123");
    let (persisted, error) = settings_to_persist(
        TargetOs::Windows,
        &settings,
        Some(Err(KeychainWriteError::Open("no service".to_string()))),
    );
    assert_eq!(persisted.api_key, "sk-123");
    assert_eq!(error.unwrap(), "failed to open system keychain: no service");
    let (persisted, error) = settings_to_persist(
        TargetOs::MacOs,
        &settings,
        Some(Err(KeychainWriteError::Write("denied".to_string()))),
    );
    assert_eq!(persisted.api_key, "sk-123");
    assert_eq!(error.unwrap(), "failed to write API key to system keychain: denied");
}

#[test]
fn without_a_keychain_or_a_key_the_settings_are_persisted_as_they_are() {
    let (persisted, error) = settings_to_persist(TargetOs::Other, &settings_with_key("sk-123"), None);
    assert_eq!(persisted.api_key, "sk-123");
    assert!(error.is_none());
    let (persisted, error) = settings_to_persist(TargetOs::Linux, &settings_with_key("  "), None);
    assert_eq!(persisted.api_key, "  ");
    assert!(error.is_none());
    let (persisted, error) = settings_to_persist(TargetOs::Linux, &settings_with_key(API_KEY_REF), None);
    assert_eq!(persisted.api_key, API_KEY_REF);
    assert!(error.is_none());
}

#[test]
fn persisting_again_keeps_the_reference() {
    let (once, _) = settings_to_persist(TargetOs::Linux, &settings_with_key("sk-123"), Some(Ok(())));
    assert!(!api_key_needs_storing(&once));
    let (twice, error) = settings_to_persist(TargetOs::Linux, &once, None);
    assert_eq!(twice.api_key, once.api_key);
    assert!(error.is_none());
}
