//! What the host platform offers: the capability report shown in settings and
//! the permission check made before any text operation.

use vstd::prelude::*;

use crate::text::{ascii_lower_seq, chars_of, concat, is_blank, owned, to_ascii_lowercase, trim_ws};

verus! {

/// The operating system the app runs on.
#[derive(Clone, Copy, PartialEq, Eq, Debug, Structural)]
pub enum TargetOs {
    Windows,
    MacOs,
    Linux,
    Other,
}

pub open spec fn os_for_name(name: Seq<char>) -> TargetOs {
    if name == "windows"@ {
        TargetOs::Windows
    } else if name == "macos"@ {
        TargetOs::MacOs
    } else if name == "linux"@ {
        TargetOs::Linux
    } else {
        TargetOs::Other
    }
}

impl TargetOs {
    /// The platform named as `std::env::consts::OS` names it.
    pub fn from_name(name: &str) -> (r: TargetOs)
        ensures
            r == os_for_name(name@),
    {
        if crate::text::str_eq(name, "windows") {
            TargetOs::Windows
        } else if crate::text::str_eq(name, "macos") {
            TargetOs::MacOs
        } else if crate::text::str_eq(name, "linux") {
            TargetOs::Linux
        } else {
            TargetOs::Other
        }
    }
}

/// The state of one capability and the message key that explains it.
#[derive(Clone, Copy, Debug)]
pub struct PlatformCapability {
    pub status: &'static str,
    pub message_key: &'static str,
}

pub struct PlatformCapabilityView {
    pub status: Seq<char>,
    pub message_key: Seq<char>,
}

impl View for PlatformCapability {
    type V = PlatformCapabilityView;

    open spec fn view(&self) -> PlatformCapabilityView {
        PlatformCapabilityView { status: self.status@, message_key: self.message_key@ }
    }
}

pub open spec fn capability(status: Seq<char>, message_key: Seq<char>) -> PlatformCapabilityView {
    PlatformCapabilityView { status, message_key }
}

impl PlatformCapability {
    pub fn ok(message_key: &'static str) -> (r: Self)
        ensures
            r@ == capability("ok"@, message_key@),
    {
        PlatformCapability { status: "ok", message_key }
    }

    pub fn warning(message_key: &'static str) -> (r: Self)
        ensures
            r@ == capability("warning"@, message_key@),
    {
        PlatformCapability { status: "warning", message_key }
    }

    pub fn blocked(message_key: &'static str) -> (r: Self)
        ensures
            r@ == capability("blocked"@, message_key@),
    {
        PlatformCapability { status: "blocked", message_key }
    }
}

/// The capability report of the platform.
#[derive(Clone, Debug)]
pub struct PlatformStatus {
    pub os: &'static str,
    pub accessibility: PlatformCapability,
    pub global_hotkey: PlatformCapability,
    pub clipboard: PlatformCapability,
    pub input_simulation: PlatformCapability,
    pub linux_session: Option<String>,
    pub notes: Vec<&'static str>,
    pub settings_action_available: bool,
}

pub struct PlatformStatusView {
    pub os: Seq<char>,
    pub accessibility: PlatformCapabilityView,
    pub global_hotkey: PlatformCapabilityView,
    pub clipboard: PlatformCapabilityView,
    pub input_simulation: PlatformCapabilityView,
    pub linux_session: Option<Seq<char>>,
    pub notes: Seq<Seq<char>>,
    pub settings_action_available: bool,
}

impl View for PlatformStatus {
    type V = PlatformStatusView;

    open spec fn view(&self) -> PlatformStatusView {
        PlatformStatusView {
            os: self.os@,
            accessibility: self.accessibility@,
            global_hotkey: self.global_hotkey@,
            clipboard: self.clipboard@,
            input_simulation: self.input_simulation@,
            linux_session: match self.linux_session {
                Some(s) => Some(s@),
                None => None,
            },
            notes: self.notes@.map_values(|n: &'static str| n@),
            settings_action_available: self.settings_action_available,
        }
    }
}

/// The desktop session that a Linux report names: the value of
/// `XDG_SESSION_TYPE` when it is set and not blank, else `"unknown"`.
pub open spec fn linux_session_name(session_var: Option<Seq<char>>) -> Seq<char> {
    match session_var {
        Some(v) => if trim_ws(v).len() > 0 {
            v
        } else {
            "unknown"@
        },
        None => "unknown"@,
    }
}

/// What the platform report says, given the platform, the value of
/// `XDG_SESSION_TYPE` (read on Linux) and whether macOS trusts the app with
/// Accessibility.
pub open spec fn status_spec(
    os: TargetOs,
    session_var: Option<Seq<char>>,
    accessibility_trusted: bool,
) -> PlatformStatusView {
    match os {
        TargetOs::Windows => PlatformStatusView {
            os: "windows"@,
            accessibility: capability("ok"@, "settings.platform.accessibility.notRequired"@),
            global_hotkey: capability("ok"@, "settings.platform.globalHotkey.ok"@),
            clipboard: capability("ok"@, "settings.platform.clipboard.ok"@),
            input_simulation: capability("ok"@, "settings.platform.input.ok"@),
            linux_session: None,
            notes: seq!["settings.platform.note.windowsAdminFallback"@],
            settings_action_available: false,
        },
        TargetOs::MacOs => PlatformStatusView {
            os: "macos"@,
            accessibility: if accessibility_trusted {
                capability("ok"@, "settings.platform.accessibility.granted"@)
            } else {
                capability("blocked"@, "settings.platform.accessibility.missing"@)
            },
            global_hotkey: capability("ok"@, "settings.platform.globalHotkey.ok"@),
            clipboard: capability("ok"@, "settings.platform.clipboard.ok"@),
            input_simulation: if accessibility_trusted {
                capability("ok"@, "settings.platform.input.ok"@)
            } else {
                capability("blocked"@, "settings.platform.input.needsAccessibility"@)
            },
            linux_session: None,
            notes: seq!["settings.platform.note.macosAccessibility"@],
            settings_action_available: true,
        },
        TargetOs::Linux => {
            let session = linux_session_name(session_var);
            let wayland = ascii_lower_seq(session) == "wayland"@;
            PlatformStatusView {
                os: "linux"@,
                accessibility: capability(
                    "warning"@,
                    "settings.platform.accessibility.linuxLimited"@,
                ),
                global_hotkey: if wayland {
                    capability("warning"@, "settings.platform.globalHotkey.waylandLimited"@)
                } else {
                    capability("ok"@, "settings.platform.globalHotkey.x11Likely"@)
                },
                clipboard: if wayland {
                    capability("warning"@, "settings.platform.clipboard.waylandLimited"@)
                } else {
                    capability("ok"@, "settings.platform.clipboard.x11Likely"@)
                },
                input_simulation: if wayland {
                    capability("warning"@, "settings.platform.input.waylandLimited"@)
                } else {
                    capability("ok"@, "settings.platform.input.x11Likely"@)
                },
                linux_session: Some(session),
                notes: if wayland {
                    seq!["settings.platform.note.linuxWayland"@]
                } else {
                    seq!["settings.platform.note.linuxX11"@]
                },
                settings_action_available: false,
            }
        },
        TargetOs::Other => PlatformStatusView {
            os: "unknown"@,
            accessibility: capability("warning"@, "settings.platform.accessibility.unknown"@),
            global_hotkey: capability("warning"@, "settings.platform.globalHotkey.unknown"@),
            clipboard: capability("warning"@, "settings.platform.clipboard.unknown"@),
            input_simulation: capability("warning"@, "settings.platform.input.unknown"@),
            linux_session: None,
            notes: seq!["settings.platform.note.unknown"@],
            settings_action_available: false,
        },
    }
}

fn one_note(note: &'static str) -> (v: Vec<&'static str>)
    ensures
        v@.map_values(|n: &'static str| n@) == seq![note@],
{
    let mut v: Vec<&'static str> = Vec::new();
    v.push(note);
    assert(v@.map_values(|n: &'static str| n@) =~= seq![note@]);
    v
}

/// The capability report for `os`. `session_var` is the value of
/// `XDG_SESSION_TYPE` (used on Linux only); `accessibility_trusted` says
/// whether macOS trusts the app with Accessibility (used on macOS only).
pub fn status(os: TargetOs, session_var: Option<&str>, accessibility_trusted: bool) -> (r:
    PlatformStatus)
    ensures
        r@ == status_spec(
            os,
            match session_var {
                Some(v) => Some(v@),
                None => None,
            },
            accessibility_trusted,
        ),
{
    match os {
        TargetOs::Windows => PlatformStatus {
            os: "windows",
            accessibility: PlatformCapability::ok("settings.platform.accessibility.notRequired"),
            global_hotkey: PlatformCapability::ok("settings.platform.globalHotkey.ok"),
            clipboard: PlatformCapability::ok("settings.platform.clipboard.ok"),
            input_simulation: PlatformCapability::ok("settings.platform.input.ok"),
            linux_session: None,
            notes: one_note("settings.platform.note.windowsAdminFallback"),
            settings_action_available: false,
        },
        TargetOs::MacOs => PlatformStatus {
            os: "macos",
            accessibility: if accessibility_trusted {
                PlatformCapability::ok("settings.platform.accessibility.granted")
            } else {
                PlatformCapability::blocked("settings.platform.accessibility.missing")
            },
            global_hotkey: PlatformCapability::ok("settings.platform.globalHotkey.ok"),
            clipboard: PlatformCapability::ok("settings.platform.clipboard.ok"),
            input_simulation: if accessibility_trusted {
                PlatformCapability::ok("settings.platform.input.ok")
            } else {
                PlatformCapability::blocked("settings.platform.input.needsAccessibility")
            },
            linux_session: None,
            notes: one_note("settings.platform.note.macosAccessibility"),
            settings_action_available: true,
        },
        TargetOs::Linux => {
            let session = match session_var {
                Some(v) => if !is_blank(v) {
                    owned(v)
                } else {
                    owned("unknown")
                },
                None => owned("unknown"),
            };
            let lowered = to_ascii_lowercase(session.as_str());
            let wayland_chars = chars_of("wayland");
            let wayland = vec_char_eq(&lowered, &wayland_chars);
            PlatformStatus {
                os: "linux",
                accessibility: PlatformCapability::warning(
                    "settings.platform.accessibility.linuxLimited",
                ),
                global_hotkey: if wayland {
                    PlatformCapability::warning("settings.platform.globalHotkey.waylandLimited")
                } else {
                    PlatformCapability::ok("settings.platform.globalHotkey.x11Likely")
                },
                clipboard: if wayland {
                    PlatformCapability::warning("settings.platform.clipboard.waylandLimited")
                } else {
                    PlatformCapability::ok("settings.platform.clipboard.x11Likely")
                },
                input_simulation: if wayland {
                    PlatformCapability::warning("settings.platform.input.waylandLimited")
                } else {
                    PlatformCapability::ok("settings.platform.input.x11Likely")
                },
                linux_session: Some(session),
                notes: if wayland {
                    one_note("settings.platform.note.linuxWayland")
                } else {
                    one_note("settings.platform.note.linuxX11")
                },
                settings_action_available: false,
            }
        },
        TargetOs::Other => PlatformStatus {
            os: "unknown",
            accessibility: PlatformCapability::warning("settings.platform.accessibility.unknown"),
            global_hotkey: PlatformCapability::warning("settings.platform.globalHotkey.unknown"),
            clipboard: PlatformCapability::warning("settings.platform.clipboard.unknown"),
            input_simulation: PlatformCapability::warning("settings.platform.input.unknown"),
            linux_session: None,
            notes: one_note("settings.platform.note.unknown"),
            settings_action_available: false,
        },
    }
}

/// Whether two character vectors are equal.
pub fn vec_char_eq(a: &Vec<char>, b: &Vec<char>) -> (r: bool)
    ensures
        r == (a@ == b@),
{
    if a.len() != b.len() {
        return false;
    }
    let mut i: usize = 0;
    while i < a.len()
        invariant
            a@.len() == b@.len(),
            i <= a@.len(),
            forall|j: int| 0 <= j < i ==> a@[j] == b@[j],
        decreases a@.len() - i,
    {
        if a[i] != b[i] {
            return false;
        }
        i = i + 1;
    }
    assert(a@ =~= b@);
    true
}

/// Why text operations cannot run on this platform, if they cannot: on macOS
/// without Accessibility trust they are blocked.
pub fn text_operation_permission_issue(os: TargetOs, accessibility_trusted: bool) -> (r: Option<
    &'static str,
>)
    ensures
        match r {
            Some(m) => os == TargetOs::MacOs && !accessibility_trusted && m@
                == "macOS Accessibility permission is required"@,
            None => !(os == TargetOs::MacOs && !accessibility_trusted),
        },
{
    if os == TargetOs::MacOs && !accessibility_trusted {
        Some("macOS Accessibility permission is required")
    } else {
        None
    }
}

/// The modifier key that copy and paste shortcuts use: Meta on macOS, Control elsewhere.
pub fn primary_modifier(os: TargetOs) -> (r: &'static str)
    ensures
        r@ == (if os == TargetOs::MacOs {
            "Meta"@
        } else {
            "Control"@
        }),
{
    if os == TargetOs::MacOs {
        "Meta"
    } else {
        "Control"
    }
}

/// The settings page that grants the permission text operations need: the
/// Accessibility privacy pane on macOS; other platforms need none.
pub fn permission_settings_target(os: TargetOs) -> (r: Option<&'static str>)
    ensures
        r is Some <==> os == TargetOs::MacOs,
        r matches Some(t) ==> t@
            == "x-apple.systempreferences:com.apple.preference.security?Privacy_Accessibility"@,
{
    if os == TargetOs::MacOs {
        Some("x-apple.systempreferences:com.apple.preference.security?Privacy_Accessibility")
    } else {
        None
    }
}

/// The outcome of opening the permission settings on `os`, where `launched`
/// is the outcome of opening the page (on platforms without one nothing is
/// opened and it is ignored).
pub fn open_permission_settings(os: TargetOs, launched: Result<(), String>) -> (r: Result<
    (),
    String,
>)
    ensures
        os != TargetOs::MacOs ==> r is Ok,
        os == TargetOs::MacOs ==> match launched {
            Ok(_) => r is Ok,
            Err(e) => r matches Err(m) && m@ == "failed to open macOS Accessibility settings: "@
                + e@,
        },
{
    if os != TargetOs::MacOs {
        return Ok(());
    }
    match launched {
        Ok(_) => Ok(()),
        Err(e) => Err(concat("failed to open macOS Accessibility settings: ", e.as_str())),
    }
}

/// The Win32 flags of a GUI thread that is in a menu (menu, system menu or
/// popup menu mode).
pub const GUI_MENU_FLAGS: u32 = 0x4 | 0x8 | 0x10;

/// Whether the selection capture must first close a menu: on Windows, when
/// the foreground window's GUI thread reports (`gui_flags`) a menu mode, as an
/// Alt hotkey can leave one open. `None` means the flags could not be read.
pub fn prepare_for_selection_capture(os: TargetOs, gui_flags: Option<u32>) -> (r: bool)
    ensures
        r == (os == TargetOs::Windows && (gui_flags matches Some(f) && f & GUI_MENU_FLAGS != 0)),
{
    if os != TargetOs::Windows {
        return false;
    }
    match gui_flags {
        Some(f) => f & GUI_MENU_FLAGS != 0,
        None => false,
    }
}

/// The window a Safe Mode preview was opened over (a window handle, 0 for
/// none), to give focus back to before pasting.
#[derive(Clone, Copy, Debug)]
pub struct PreviewTarget {
    pub window: isize,
}

impl PreviewTarget {
    pub fn new() -> (r: Self)
        ensures
            r.window == 0,
    {
        PreviewTarget { window: 0 }
    }

    /// Remembers the window in front (`foreground`) when a preview opens; only
    /// Windows keeps it.
    pub fn remember_preview_target_window(&mut self, os: TargetOs, foreground: isize)
        ensures
            final(self).window == (if os == TargetOs::Windows {
                foreground
            } else {
                old(self).window
            }),
    {
        if os == TargetOs::Windows {
            self.window = foreground;
        }
    }

    /// The window to give focus back to, if one was remembered.
    pub fn restore_preview_target_window(&self, os: TargetOs) -> (r: Option<isize>)
        ensures
            r == (if os == TargetOs::Windows && self.window != 0 {
                Some(self.window)
            } else {
                None
            }),
    {
        if os == TargetOs::Windows && self.window != 0 {
            Some(self.window)
        } else {
            None
        }
    }

    /// The window a paste goes to: the remembered one, else `foreground`.
    pub fn paste_target_window(&self, foreground: isize) -> (r: isize)
        ensures
            r == (if self.window == 0 {
                foreground
            } else {
                self.window
            }),
    {
        if self.window == 0 {
            foreground
        } else {
            self.window
        }
    }
}

/// Whether the paste target's process must be inspected for elevation: only
/// on Windows, when this app is not elevated itself and the target is another
/// process (`target_process_id`, 0 when there is no target window).
pub fn paste_target_needs_inspection(
    os: TargetOs,
    current_process_elevated: bool,
    target_process_id: u32,
    own_process_id: u32,
) -> (r: bool)
    ensures
        r == (os == TargetOs::Windows && !current_process_elevated && target_process_id != 0
            && target_process_id != own_process_id),
{
    os == TargetOs::Windows && !current_process_elevated && target_process_id != 0
        && target_process_id != own_process_id
}

/// Whether pasting must fall back to the clipboard because the target runs
/// elevated, from the inspection of its process (`None` when it was not
/// needed). An inspection that failed counts as elevated, to be safe.
pub fn paste_target_requires_elevation(inspection: Option<Result<bool, String>>) -> (r: bool)
    ensures
        r == match inspection {
            None => false,
            Some(Ok(elevated)) => elevated,
            Some(Err(_)) => true,
        },
{
    match inspection {
        None => false,
        Some(Ok(elevated)) => elevated,
        Some(Err(_)) => true,
    }
}

} // verus!
