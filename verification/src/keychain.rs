//! The API key in the system keychain: where it is filed, on which platforms
//! there is a keychain, and what each keychain outcome means.

use vstd::prelude::*;

use crate::config::{AppSettingsConfig, AppSettingsView};
use crate::platform::TargetOs;
use crate::text::{concat, is_blank, owned, trim_ws};

verus! {

/// The keychain account the key is filed under.
pub const API_KEY_ACCOUNT: &'static str = "openai-compatible-api-key";

/// The reference to the stored key that the settings keep.
pub const API_KEY_REF: &'static str = "keychain://shanka/openai-compatible-api-key";

/// The keychain service the key is filed under.
pub const SERVICE: &'static str = "Shanka";

/// The reference that the settings keep for the stored key.
pub fn default_api_key_ref() -> (r: String)
    ensures
        r@ == API_KEY_REF@,
{
    owned(API_KEY_REF)
}

/// Whether `os` has a system keychain the app can use.
pub open spec fn keychain_available(os: TargetOs) -> bool {
    os == TargetOs::Windows || os == TargetOs::MacOs || os == TargetOs::Linux
}

pub fn keychain_supported(os: TargetOs) -> (r: bool)
    ensures
        r == keychain_available(os),
{
    os == TargetOs::Windows || os == TargetOs::MacOs || os == TargetOs::Linux
}

/// The error on a platform without a keychain.
pub open spec fn unsupported_message() -> Seq<char> {
    "system keychain is not supported on this platform"@
}

/// Why writing the key failed.
#[derive(Clone, Debug)]
pub enum KeychainWriteError {
    /// The keychain entry could not be opened.
    Open(String),
    /// The key could not be written.
    Write(String),
}

/// Why reading the key failed.
#[derive(Clone, Debug)]
pub enum KeychainReadError {
    /// The keychain entry could not be opened.
    Open(String),
    /// No key is stored.
    NoEntry,
    /// The key could not be read.
    Read(String),
}

/// The outcome of storing the key on `os`: the reference to keep, or the
/// error. `write` is the outcome of writing it to the keychain, which is only
/// tried where there is one.
pub fn store_api_key(os: TargetOs, write: Option<Result<(), KeychainWriteError>>) -> (r: Result<
    String,
    String,
>)
    requires
        keychain_available(os) ==> write is Some,
    ensures
        !keychain_available(os) ==> (r matches Err(m) && m@ == unsupported_message()),
        keychain_available(os) ==> match write.unwrap() {
            Ok(_) => r matches Ok(x) && x@ == API_KEY_REF@,
            Err(KeychainWriteError::Open(e)) => r matches Err(m) && m@
                == "failed to open system keychain: "@ + e@,
            Err(KeychainWriteError::Write(e)) => r matches Err(m) && m@
                == "failed to write API key to system keychain: "@ + e@,
        },
{
    if !keychain_supported(os) {
        return Err(owned("system keychain is not supported on this platform"));
    }
    match write {
        Some(Ok(_)) => Ok(default_api_key_ref()),
        Some(Err(KeychainWriteError::Open(e))) => Err(
            concat("failed to open system keychain: ", e.as_str()),
        ),
        Some(Err(KeychainWriteError::Write(e))) => Err(
            concat("failed to write API key to system keychain: ", e.as_str()),
        ),
        None => Err(owned("system keychain is not supported on this platform")),
    }
}

/// Whether loading the key with reference `api_key_ref` reads the keychain:
/// only where there is one and when the reference is not blank.
pub open spec fn read_needed(os: TargetOs, api_key_ref: Seq<char>) -> bool {
    keychain_available(os) && trim_ws(api_key_ref).len() > 0
}

pub fn api_key_read_needed(os: TargetOs, api_key_ref: &str) -> (r: bool)
    ensures
        r == read_needed(os, api_key_ref@),
{
    keychain_supported(os) && !is_blank(api_key_ref)
}

/// The key found for `api_key_ref` on `os`: the error where there is no
/// keychain, none for a blank reference or a missing entry, else what the
/// keychain read (`read`, the outcome of reading it, made when it is needed).
pub fn load_api_key(os: TargetOs, api_key_ref: &str, read: Option<Result<String, KeychainReadError>>) -> (r:
    Result<Option<String>, String>)
    requires
        read_needed(os, api_key_ref@) ==> read is Some,
    ensures
        !keychain_available(os) ==> (r matches Err(m) && m@ == unsupported_message()),
        keychain_available(os) && !read_needed(os, api_key_ref@) ==> r matches Ok(None),
        read_needed(os, api_key_ref@) ==> match read.unwrap() {
            Ok(k) => r matches Ok(Some(x)) && x == k,
            Err(KeychainReadError::NoEntry) => r matches Ok(None),
            Err(KeychainReadError::Open(e)) => r matches Err(m) && m@
                == "failed to open system keychain: "@ + e@,
            Err(KeychainReadError::Read(e)) => r matches Err(m) && m@
                == "failed to read API key from system keychain: "@ + e@,
        },
{
    if !keychain_supported(os) {
        return Err(owned("system keychain is not supported on this platform"));
    }
    if is_blank(api_key_ref) {
        return Ok(None);
    }
    match read {
        Some(Ok(k)) => Ok(Some(k)),
        Some(Err(KeychainReadError::NoEntry)) => Ok(None),
        Some(Err(KeychainReadError::Open(e))) => Err(
            concat("failed to open system keychain: ", e.as_str()),
        ),
        Some(Err(KeychainReadError::Read(e))) => Err(
            concat("failed to read API key from system keychain: ", e.as_str()),
        ),
        None => Ok(None),
    }
}

/// Whether saving `settings` stores their API key in the keychain: when a key
/// is given that is not already the reference to the stored one.
pub open spec fn key_needs_storing(settings: AppSettingsView) -> bool {
    trim_ws(settings.api_key).len() > 0 && settings.api_key != API_KEY_REF@
}

pub fn api_key_needs_storing(settings: &AppSettingsConfig) -> (r: bool)
    ensures
        r == key_needs_storing(settings@),
{
    !is_blank(settings.api_key.as_str()) && !crate::text::str_eq(
        settings.api_key.as_str(),
        API_KEY_REF,
    )
}

/// The settings to write to the configuration file on `os`, and the error of
/// storing their key when that failed. `write` is the outcome of writing the
/// key to the keychain, made only where there is one and the key needs storing.
/// When the keychain takes the key, the file gets the reference returned by
/// `store_api_key` in its place; otherwise the settings are written as they
/// are (the key is kept in the keychain only where possible).
pub fn settings_to_persist(
    os: TargetOs,
    settings: &AppSettingsConfig,
    write: Option<Result<(), KeychainWriteError>>,
) -> (r: (AppSettingsConfig, Option<String>))
    requires
        keychain_available(os) && key_needs_storing(settings@) ==> write is Some,
    ensures
        !(keychain_available(os) && key_needs_storing(settings@)) ==> r.0@ == settings@ && r.1 is None,
        keychain_available(os) && key_needs_storing(settings@) ==> match write.unwrap() {
            Ok(_) => r.0@ == (AppSettingsView { api_key: API_KEY_REF@, ..settings@ }) && r.1 is None,
            Err(KeychainWriteError::Open(e)) => r.0@ == settings@ && (r.1 matches Some(m) && m@
                == "failed to open system keychain: "@ + e@),
            Err(KeychainWriteError::Write(e)) => r.0@ == settings@ && (r.1 matches Some(m) && m@
                == "failed to write API key to system keychain: "@ + e@),
        },
{
    if !keychain_supported(os) || !api_key_needs_storing(settings) {
        return (settings.duplicate(), None);
    }
    match store_api_key(os, write) {
        Ok(reference) => {
            let mut persisted = settings.duplicate();
            persisted.api_key = reference;
            (persisted, None)
        },
        Err(e) => (settings.duplicate(), Some(e)),
    }
}

/// Saving settings whose key the keychain has taken stores nothing again:
/// their key is the reference, so a second save writes them as they are.
pub proof fn law_persisting_again_stores_nothing(settings: AppSettingsView)
    ensures
        !key_needs_storing(AppSettingsView { api_key: API_KEY_REF@, ..settings }),
{
}

} // verus!
