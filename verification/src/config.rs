//! The app configuration: hotkeys, provider settings and personas, their
//! defaults, their validation and what a freshly loaded file becomes.

use vstd::prelude::*;

use crate::persona::{normalize_config, normalize_spec, PersonaConfig, PersonaConfigView};
use crate::platform::TargetOs;
use crate::text::{concat, concat3, owned, trim, trim_end_class, trim_end_seq, trim_ws, CharClass};

verus! {

/// The schema version written into new configuration files.
pub const CONFIG_SCHEMA_VERSION: u16 = 1;

/// The smallest and largest provider timeouts, in milliseconds.
pub const MIN_TIMEOUT_MS: u64 = 1_000;
pub const MAX_TIMEOUT_MS: u64 = 120_000;

/// global_hotkey's parsed hotkey.
#[verifier::external_type_specification]
#[verifier::external_body]
pub struct ExHotKey(global_hotkey::hotkey::HotKey);

/// The hotkeys as the user writes them, e.g. `"Ctrl+Shift+KeyC"`.
#[derive(Clone, Debug)]
pub struct HotkeyConfig {
    pub safe_mode: String,
    pub magic_mode: String,
}

pub struct HotkeyConfigView {
    pub safe_mode: Seq<char>,
    pub magic_mode: Seq<char>,
}

impl View for HotkeyConfig {
    type V = HotkeyConfigView;

    open spec fn view(&self) -> HotkeyConfigView {
        HotkeyConfigView { safe_mode: self.safe_mode@, magic_mode: self.magic_mode@ }
    }
}

/// The two hotkeys, parsed, each with the id that global_hotkey gave it (the
/// id that its press events carry).
#[derive(Clone, Copy, Debug)]
pub struct ResolvedHotkeyConfig {
    pub safe_mode: global_hotkey::hotkey::HotKey,
    pub magic_mode: global_hotkey::hotkey::HotKey,
    pub safe_mode_id: u32,
    pub magic_mode_id: u32,
}

/// The provider and app settings.
#[derive(Clone, Debug)]
pub struct AppSettingsConfig {
    pub provider: String,
    pub api_key: String,
    pub base_url: String,
    pub model: String,
    pub timeout_ms: u64,
    pub history_enabled: bool,
    pub launch_at_login: bool,
    pub debug_logging: bool,
}

pub struct AppSettingsView {
    pub provider: Seq<char>,
    pub api_key: Seq<char>,
    pub base_url: Seq<char>,
    pub model: Seq<char>,
    pub timeout_ms: u64,
    pub history_enabled: bool,
    pub launch_at_login: bool,
    pub debug_logging: bool,
}

impl View for AppSettingsConfig {
    type V = AppSettingsView;

    open spec fn view(&self) -> AppSettingsView {
        AppSettingsView {
            provider: self.provider@,
            api_key: self.api_key@,
            base_url: self.base_url@,
            model: self.model@,
            timeout_ms: self.timeout_ms,
            history_enabled: self.history_enabled,
            launch_at_login: self.launch_at_login,
            debug_logging: self.debug_logging,
        }
    }
}

/// The whole configuration file.
#[derive(Clone, Debug)]
pub struct AppConfig {
    pub schema_version: u16,
    pub hotkeys: HotkeyConfig,
    pub settings: AppSettingsConfig,
    pub personas: PersonaConfig,
}

pub struct AppConfigView {
    pub schema_version: u16,
    pub hotkeys: HotkeyConfigView,
    pub settings: AppSettingsView,
    pub personas: PersonaConfigView,
}

impl View for AppConfig {
    type V = AppConfigView;

    open spec fn view(&self) -> AppConfigView {
        AppConfigView {
            schema_version: self.schema_version,
            hotkeys: self.hotkeys@,
            settings: self.settings@,
            personas: self.personas@,
        }
    }
}

/// Why a configuration could not be read, written or accepted.
#[derive(Debug)]
pub enum ConfigError {
    Io(String),
    Json(String),
    InvalidHotkey { field: &'static str, message: String },
    DuplicateHotkeys(String),
    InvalidSettings(String),
    InvalidPersonas(String),
    Path(String),
}

/// The text that describes a configuration error.
pub open spec fn config_error_message(e: ConfigError) -> Seq<char> {
    match e {
        ConfigError::Io(m) => "config I/O error: "@ + m@,
        ConfigError::Json(m) => "config JSON error: "@ + m@,
        ConfigError::InvalidHotkey { field, message } => "invalid "@ + field@ + " hotkey: "@
            + message@,
        ConfigError::DuplicateHotkeys(h) => "safe and magic hotkeys must be different: "@ + h@,
        ConfigError::InvalidSettings(m) => "invalid app settings: "@ + m@,
        ConfigError::InvalidPersonas(m) => "invalid personas: "@ + m@,
        ConfigError::Path(m) => "config path error: "@ + m@,
    }
}

impl ConfigError {
    /// The text that describes this error.
    pub fn message(&self) -> (r: String)
        ensures
            r@ == config_error_message(*self),
    {
        match self {
            ConfigError::Io(m) => concat("config I/O error: ", m.as_str()),
            ConfigError::Json(m) => concat("config JSON error: ", m.as_str()),
            ConfigError::InvalidHotkey { field, message } => {
                let mut r = concat3("invalid ", field, " hotkey: ");
                r.append(message.as_str());
                r
            },
            ConfigError::DuplicateHotkeys(h) => concat(
                "safe and magic hotkeys must be different: ",
                h.as_str(),
            ),
            ConfigError::InvalidSettings(m) => concat("invalid app settings: ", m.as_str()),
            ConfigError::InvalidPersonas(m) => concat("invalid personas: ", m.as_str()),
            ConfigError::Path(m) => concat("config path error: ", m.as_str()),
        }
    }
}

/// The default hotkeys: Cmd on macOS, Ctrl elsewhere, with Shift+C for Safe
/// Mode and Shift+Space for Magic Mode.
pub open spec fn default_hotkeys_spec(os: TargetOs) -> HotkeyConfigView {
    if os == TargetOs::MacOs {
        HotkeyConfigView { safe_mode: "Cmd+Shift+KeyC"@, magic_mode: "Cmd+Shift+Space"@ }
    } else {
        HotkeyConfigView { safe_mode: "Ctrl+Shift+KeyC"@, magic_mode: "Ctrl+Shift+Space"@ }
    }
}

/// The default hotkey for Safe Mode.
pub fn default_safe_mode_hotkey(os: TargetOs) -> (r: String)
    ensures
        r@ == default_hotkeys_spec(os).safe_mode,
{
    if os == TargetOs::MacOs {
        owned("Cmd+Shift+KeyC")
    } else {
        owned("Ctrl+Shift+KeyC")
    }
}

/// The default hotkey for Magic Mode.
pub fn default_magic_mode_hotkey(os: TargetOs) -> (r: String)
    ensures
        r@ == default_hotkeys_spec(os).magic_mode,
{
    if os == TargetOs::MacOs {
        owned("Cmd+Shift+Space")
    } else {
        owned("Ctrl+Shift+Space")
    }
}

/// The default hotkeys of the platform.
pub fn default_hotkeys(os: TargetOs) -> (r: HotkeyConfig)
    ensures
        r@ == default_hotkeys_spec(os),
{
    HotkeyConfig { safe_mode: default_safe_mode_hotkey(os), magic_mode: default_magic_mode_hotkey(os) }
}

/// What global_hotkey's `HotKey::from_str` gives for `text`: the hotkey's
/// `id()`, or the parse error's text. Besides the text, the parse depends only
/// on whether the crate is built for macOS, where `CmdOrCtrl` means Meta
/// rather than Control (`cmd_or_ctrl_is_meta`).
pub uninterp spec fn hotkey_parse(text: Seq<char>, cmd_or_ctrl_is_meta: bool) -> Result<u32, Seq<char>>;

/// The id or error text of a parse outcome.
pub open spec fn parse_view(r: Result<(global_hotkey::hotkey::HotKey, u32), String>) -> Result<
    u32,
    Seq<char>,
> {
    match r {
        Ok(p) => Ok(p.1),
        Err(e) => Err(e@),
    }
}

/// Parses a hotkey with global_hotkey's `HotKey::from_str` and returns it
/// with its `id()`, or the parse error's text (malformed text gives an error,
/// never a panic). The claim is that the id or error text is what
/// `hotkey_parse` gives for `hotkey` on one of the two kinds of build; which
/// one is not stated, and nothing is stated of the returned `HotKey` value.
#[verifier::external_body]
fn parse_hotkey(hotkey: &str) -> (r: Result<(global_hotkey::hotkey::HotKey, u32), String>)
    ensures
        exists|m: bool| parse_view(r) == #[trigger] hotkey_parse(hotkey@, m),
{
    match hotkey.parse::<global_hotkey::hotkey::HotKey>() {
        Ok(parsed) => Ok((parsed, parsed.id())),
        Err(error) => Err(error.to_string()),
    }
}

/// What resolving the hotkeys gives, from the outcome of parsing each of them:
/// the first parse error, else a duplicate error when both hotkeys have the
/// same id, else both hotkeys.
pub open spec fn resolve_outcome_ok(
    safe: Result<(global_hotkey::hotkey::HotKey, u32), String>,
    magic: Result<(global_hotkey::hotkey::HotKey, u32), String>,
) -> bool {
    &&& safe is Ok
    &&& magic is Ok
    &&& safe->Ok_0.1 != magic->Ok_0.1
}

/// The hotkeys resolved from the outcome of parsing each of them.
pub fn resolve_parsed(
    safe_text: &str,
    safe: Result<(global_hotkey::hotkey::HotKey, u32), String>,
    magic: Result<(global_hotkey::hotkey::HotKey, u32), String>,
) -> (r: Result<ResolvedHotkeyConfig, ConfigError>)
    ensures
        r is Ok <==> resolve_outcome_ok(safe, magic),
        r matches Ok(h) ==> h.safe_mode == safe->Ok_0.0 && h.magic_mode == magic->Ok_0.0
            && h.safe_mode_id == safe->Ok_0.1 && h.magic_mode_id == magic->Ok_0.1,
        match safe {
            Err(m) => r matches Err(ConfigError::InvalidHotkey { field, message }) && field@
                == "safe_mode"@ && message == m,
            Ok(s) => match magic {
                Err(m) => r matches Err(ConfigError::InvalidHotkey { field, message }) && field@
                    == "magic_mode"@ && message == m,
                Ok(g) => s.1 == g.1 ==> (r matches Err(ConfigError::DuplicateHotkeys(h)) && h@
                    == safe_text@),
            },
        },
{
    let (safe_mode, safe_id) = match safe {
        Ok(parsed) => parsed,
        Err(message) => {
            return Err(ConfigError::InvalidHotkey { field: "safe_mode", message });
        },
    };
    let (magic_mode, magic_id) = match magic {
        Ok(parsed) => parsed,
        Err(message) => {
            return Err(ConfigError::InvalidHotkey { field: "magic_mode", message });
        },
    };
    if safe_id == magic_id {
        return Err(ConfigError::DuplicateHotkeys(owned(safe_text)));
    }
    Ok(ResolvedHotkeyConfig { safe_mode, magic_mode, safe_mode_id: safe_id, magic_mode_id: magic_id })
}

impl HotkeyConfig {
    /// The default hotkeys of the platform.
    pub fn defaults_for(os: TargetOs) -> (r: HotkeyConfig)
        ensures
            r@ == default_hotkeys_spec(os),
    {
        default_hotkeys(os)
    }

    /// Parses both hotkeys and checks that they differ: the safe hotkey is
    /// parsed from `safe_mode` and the magic one from `magic_mode`; the first
    /// that does not parse is reported with the parser's error, and two
    /// hotkeys with one id are refused.
    pub fn resolve(&self) -> (r: Result<ResolvedHotkeyConfig, ConfigError>)
        ensures
            r matches Ok(h) ==> {
                &&& h.safe_mode_id != h.magic_mode_id
                &&& exists|m: bool| #[trigger] hotkey_parse(self.safe_mode@, m) == Ok::<u32, Seq<char>>(h.safe_mode_id)
                &&& exists|m: bool| #[trigger] hotkey_parse(self.magic_mode@, m) == Ok::<u32, Seq<char>>(h.magic_mode_id)
            },
            r matches Err(e) ==> match e {
                ConfigError::InvalidHotkey { field, message } => {
                    ||| field@ == "safe_mode"@ && exists|m: bool| #[trigger] hotkey_parse(self.safe_mode@, m)
                        == Err::<u32, Seq<char>>(message@)
                    ||| field@ == "magic_mode"@ && (exists|m: bool| #[trigger] hotkey_parse(self.safe_mode@, m) is Ok)
                        && exists|m: bool| #[trigger] hotkey_parse(self.magic_mode@, m)
                        == Err::<u32, Seq<char>>(message@)
                },
                ConfigError::DuplicateHotkeys(h) => h@ == self.safe_mode@ && exists|m1: bool, m2: bool|
                    #[trigger] hotkey_parse(self.safe_mode@, m1) is Ok && hotkey_parse(self.safe_mode@, m1)
                        == #[trigger] hotkey_parse(self.magic_mode@, m2),
                _ => false,
            },
    {
        let safe = parse_hotkey(self.safe_mode.as_str());
        let magic = parse_hotkey(self.magic_mode.as_str());
        resolve_parsed(self.safe_mode.as_str(), safe, magic)
    }
}

/// The default settings.
pub open spec fn default_settings_spec() -> AppSettingsView {
    AppSettingsView {
        provider: "openai"@,
        api_key: Seq::empty(),
        base_url: "https://api.openai.com/v1"@,
        model: Seq::empty(),
        timeout_ms: 8_000,
        history_enabled: true,
        launch_at_login: false,
        debug_logging: false,
    }
}

impl Default for AppSettingsConfig {
    fn default() -> (r: Self)
        ensures
            r@ == default_settings_spec(),
    {
        AppSettingsConfig {
            provider: owned("openai"),
            api_key: String::new(),
            base_url: owned("https://api.openai.com/v1"),
            model: String::new(),
            timeout_ms: 8_000,
            history_enabled: true,
            launch_at_login: false,
            debug_logging: false,
        }
    }
}

/// `t` clamped to the accepted timeout range.
pub open spec fn clamp_timeout(t: u64) -> u64 {
    if t < MIN_TIMEOUT_MS {
        MIN_TIMEOUT_MS
    } else if t > MAX_TIMEOUT_MS {
        MAX_TIMEOUT_MS
    } else {
        t
    }
}

/// The base URL without surrounding whitespace and trailing slashes.
pub open spec fn clean_base_url(u: Seq<char>) -> Seq<char> {
    trim_end_seq(trim_ws(u), CharClass::Slash)
}

/// What `normalized` makes of settings: `None` when the base URL is empty once
/// cleaned, else the settings with the base URL cleaned, the API key and
/// model trimmed and the timeout clamped.
pub open spec fn normalized_settings_spec(s: AppSettingsView) -> Option<AppSettingsView> {
    let base_url = clean_base_url(s.base_url);
    if base_url.len() == 0 {
        None
    } else {
        Some(
            AppSettingsView {
                api_key: trim_ws(s.api_key),
                base_url,
                model: trim_ws(s.model),
                timeout_ms: clamp_timeout(s.timeout_ms),
                ..s
            },
        )
    }
}

/// The provider can be called when the API key, base URL and model are all
/// non-blank.
pub open spec fn remote_provider_usable(s: AppSettingsView) -> bool {
    trim_ws(s.api_key).len() > 0 && trim_ws(s.base_url).len() > 0 && trim_ws(s.model).len() > 0
}

impl AppSettingsConfig {
    /// The settings cleaned for saving, or an error when the base URL is empty.
    pub fn normalized(&self) -> (r: Result<Self, ConfigError>)
        ensures
            match normalized_settings_spec(self@) {
                Some(v) => r matches Ok(s) && s@ == v,
                None => r matches Err(ConfigError::InvalidSettings(m)) && m@
                    == "base_url cannot be empty"@,
            },
    {
        let trimmed = trim(self.base_url.as_str());
        let base_url = trim_end_class(trimmed.as_str(), CharClass::Slash);
        if base_url.unicode_len() == 0 {
            return Err(ConfigError::InvalidSettings(owned("base_url cannot be empty")));
        }
        let timeout_ms = if self.timeout_ms < MIN_TIMEOUT_MS {
            MIN_TIMEOUT_MS
        } else if self.timeout_ms > MAX_TIMEOUT_MS {
            MAX_TIMEOUT_MS
        } else {
            self.timeout_ms
        };
        Ok(
            AppSettingsConfig {
                provider: self.provider.clone(),
                api_key: trim(self.api_key.as_str()),
                base_url,
                model: trim(self.model.as_str()),
                timeout_ms,
                history_enabled: self.history_enabled,
                launch_at_login: self.launch_at_login,
                debug_logging: self.debug_logging,
            },
        )
    }

    /// Whether the configured provider can be called.
    pub fn can_use_remote_provider(&self) -> (r: bool)
        ensures
            r == remote_provider_usable(self@),
    {
        !crate::text::is_blank(self.api_key.as_str()) && !crate::text::is_blank(
            self.base_url.as_str(),
        ) && !crate::text::is_blank(self.model.as_str())
    }

    /// A copy of these settings.
    pub fn duplicate(&self) -> (r: Self)
        ensures
            r@ == self@,
    {
        AppSettingsConfig {
            provider: self.provider.clone(),
            api_key: self.api_key.clone(),
            base_url: self.base_url.clone(),
            model: self.model.clone(),
            timeout_ms: self.timeout_ms,
            history_enabled: self.history_enabled,
            launch_at_login: self.launch_at_login,
            debug_logging: self.debug_logging,
        }
    }
}

/// The personas, normalized for saving. Normalization always leaves at least
/// one persona, so this never fails.
pub fn normalized_personas(personas: &PersonaConfig) -> (r: Result<PersonaConfig, ConfigError>)
    ensures
        r matches Ok(p) && p@ == normalize_spec(personas@),
{
    let normalized = normalize_config(personas);
    proof {
        crate::persona_laws::law_normalized_config_is_well_formed(personas@);
    }
    if normalized.items.len() == 0 {
        return Err(
            ConfigError::InvalidPersonas(owned("at least one enabled persona is required")),
        );
    }
    Ok(normalized)
}

/// The default configuration of the platform.
pub open spec fn default_config_spec(os: TargetOs) -> AppConfigView {
    AppConfigView {
        schema_version: CONFIG_SCHEMA_VERSION,
        hotkeys: default_hotkeys_spec(os),
        settings: default_settings_spec(),
        personas: PersonaConfigView {
            default_id: crate::persona::catalog_default_id(),
            items: crate::persona::catalog(),
            deleted: Seq::empty(),
        },
    }
}

impl AppConfig {
    /// The default configuration of the platform.
    pub fn default_for(os: TargetOs) -> (r: AppConfig)
        ensures
            r@ == default_config_spec(os),
    {
        AppConfig {
            schema_version: CONFIG_SCHEMA_VERSION,
            hotkeys: default_hotkeys(os),
            settings: AppSettingsConfig::default(),
            personas: PersonaConfig::default(),
        }
    }

    /// The configuration as it is written to disk: with its personas
    /// normalized, everything else as it is.
    pub fn prepared_for_saving(&self) -> (r: AppConfig)
        ensures
            r@ == (AppConfigView { personas: normalize_spec(self@.personas), ..self@ }),
    {
        AppConfig {
            schema_version: self.schema_version,
            hotkeys: HotkeyConfig {
                safe_mode: self.hotkeys.safe_mode.clone(),
                magic_mode: self.hotkeys.magic_mode.clone(),
            },
            settings: self.settings.duplicate(),
            personas: normalize_config(&self.personas),
        }
    }
}

/// Whether two persona configurations are equal.
pub fn persona_config_eq(a: &PersonaConfig, b: &PersonaConfig) -> (r: bool)
    ensures
        r == (a@ == b@),
{
    if a.default_safe_persona_id != b.default_safe_persona_id {
        return false;
    }
    if a.items.len() != b.items.len() || a.deleted_built_in_persona_ids.len()
        != b.deleted_built_in_persona_ids.len() {
        assert(a@.items.len() == a.items@.len() && b@.items.len() == b.items@.len());
        assert(a@.deleted.len() == a.deleted_built_in_persona_ids@.len());
        assert(b@.deleted.len() == b.deleted_built_in_persona_ids@.len());
        return false;
    }
    let mut i: usize = 0;
    while i < a.items.len()
        invariant
            a.items@.len() == b.items@.len(),
            i <= a.items@.len(),
            forall|j: int| 0 <= j < i ==> a.items@[j]@ == b.items@[j]@,
        decreases a.items@.len() - i,
    {
        let x = &a.items[i];
        let y = &b.items[i];
        if x.id != y.id || x.name != y.name || x.description != y.description || x.name_key
            != y.name_key || x.description_key != y.description_key || x.system_prompt
            != y.system_prompt || x.built_in != y.built_in || x.enabled != y.enabled {
            assert(a@.items[i as int] == x@);
            assert(b@.items[i as int] == y@);
            return false;
        }
        i = i + 1;
    }
    let mut k: usize = 0;
    while k < a.deleted_built_in_persona_ids.len()
        invariant
            a.deleted_built_in_persona_ids@.len() == b.deleted_built_in_persona_ids@.len(),
            k <= a.deleted_built_in_persona_ids@.len(),
            forall|j: int|
                0 <= j < k ==> a.deleted_built_in_persona_ids@[j]@
                    == b.deleted_built_in_persona_ids@[j]@,
        decreases a.deleted_built_in_persona_ids@.len() - k,
    {
        if a.deleted_built_in_persona_ids[k] != b.deleted_built_in_persona_ids[k] {
            assert(a@.deleted[k as int] == a.deleted_built_in_persona_ids@[k as int]@);
            assert(b@.deleted[k as int] == b.deleted_built_in_persona_ids@[k as int]@);
            return false;
        }
        k = k + 1;
    }
    assert(a@.items =~= b@.items);
    assert(a@.deleted =~= b@.deleted);
    true
}

/// What a loaded configuration file becomes: a file that could not be read or
/// parsed is replaced by the defaults; a readable one gets its personas
/// normalized. The flag says whether the result must be written back (the
/// defaults always; a readable file when normalization changed its personas).
pub fn settle_loaded_config(loaded: Result<AppConfig, ConfigError>, os: TargetOs) -> (r: (
    AppConfig,
    bool,
))
    ensures
        match loaded {
            Ok(c) => r.0@ == (AppConfigView { personas: normalize_spec(c@.personas), ..c@ })
                && r.1 == (normalize_spec(c@.personas) != c@.personas),
            Err(_) => r.0@ == default_config_spec(os) && r.1,
        },
{
    match loaded {
        Ok(mut config) => {
            let normalized = normalize_config(&config.personas);
            let changed = !persona_config_eq(&normalized, &config.personas);
            config.personas = normalized;
            (config, changed)
        },
        Err(_) => (AppConfig::default_for(os), true),
    }
}

/// A configuration written back after loading is read back as it was: its
/// personas are already normalized, so loading it asks for no second save.
pub proof fn law_settled_config_needs_no_second_save(c: AppConfigView)
    ensures
        ({
            let settled = AppConfigView { personas: normalize_spec(c.personas), ..c };
            normalize_spec(settled.personas) == settled.personas
        }),
{
    crate::persona_laws::law_normalize_is_idempotent(c.personas);
}

/// Normalizing settings never changes whether the remote provider can be
/// used, and the default settings (no API key, no model) cannot use it.
pub proof fn law_normalizing_keeps_remote_provider_usable(s: AppSettingsView)
    ensures
        normalized_settings_spec(s) matches Some(n) ==> remote_provider_usable(n)
            == remote_provider_usable(s),
        !remote_provider_usable(default_settings_spec()),
{
    crate::text::lemma_trim_idempotent(s.api_key, CharClass::Whitespace);
    crate::text::lemma_trim_idempotent(s.model, CharClass::Whitespace);
    let t = trim_ws(s.base_url);
    let clean = clean_base_url(s.base_url);
    crate::text::lemma_trim_start_first(s.base_url, CharClass::Whitespace);
    crate::text::lemma_trim_end_prefix(crate::text::trim_start_seq(s.base_url, CharClass::Whitespace), CharClass::Whitespace);
    crate::text::lemma_trim_end_prefix(t, CharClass::Slash);
    if clean.len() > 0 {
        assert(t.len() > 0);
        assert(clean[0] == t[0]);
        assert(t[0] == crate::text::trim_start_seq(s.base_url, CharClass::Whitespace)[0]);
        assert(crate::text::trim_start_seq(clean, CharClass::Whitespace) == clean);
        crate::text::lemma_trim_end_prefix(clean, CharClass::Whitespace);
    }
    assert(trim_ws(Seq::<char>::empty()) == Seq::<char>::empty());
}

/// Normalized settings keep a timeout inside 1 000..=120 000 ms as it is and
/// bring one outside to the nearest bound; the provider and the history,
/// launch-at-login and debug-logging choices are kept as they are.
pub proof fn law_normalizing_keeps_choices_and_clamps_timeout(s: AppSettingsView)
    ensures
        normalized_settings_spec(s) matches Some(n) ==> {
            &&& 1_000 <= n.timeout_ms <= 120_000
            &&& 1_000 <= s.timeout_ms <= 120_000 ==> n.timeout_ms == s.timeout_ms
            &&& s.timeout_ms < 1_000 ==> n.timeout_ms == 1_000
            &&& s.timeout_ms > 120_000 ==> n.timeout_ms == 120_000
            &&& n.provider == s.provider
            &&& n.history_enabled == s.history_enabled
            &&& n.launch_at_login == s.launch_at_login
            &&& n.debug_logging == s.debug_logging
        },
{
}

} // verus!
