//! Reading the selected text: the rewrite modes, the selection providers and
//! the order in which they are tried.

use vstd::prelude::*;

use crate::platform::TargetOs;
use crate::text::{concat, owned};

verus! {

/// The two ways a rewrite is delivered: a preview to review (Safe) or a direct
/// replacement (Magic).
#[derive(Clone, Copy, Debug, PartialEq, Eq, Structural)]
pub enum SelectionMode {
    Safe,
    Magic,
}

impl SelectionMode {
    /// The display name of the mode.
    pub fn label(self) -> (r: &'static str)
        ensures
            r@ == (match self {
                SelectionMode::Safe => "Safe Mode"@,
                SelectionMode::Magic => "Magic Mode"@,
            }),
    {
        match self {
            SelectionMode::Safe => "Safe Mode",
            SelectionMode::Magic => "Magic Mode",
        }
    }
}

/// Selected text and the provider that read it.
#[derive(Debug)]
pub struct SelectedText {
    pub text: String,
    pub provider: &'static str,
}

/// Why the selected text could not be read or replaced.
#[derive(Debug)]
pub enum SelectionError {
    Clipboard(String),
    Input(String),
    NativeProvider { provider: &'static str, message: String },
    NoTextSelected,
    UnsupportedPlatformNativeProvider(&'static str),
    PermissionDenied(String),
}

/// The text that describes a selection error.
pub open spec fn selection_error_message(e: SelectionError) -> Seq<char> {
    match e {
        SelectionError::Clipboard(m) => "clipboard error: "@ + m@,
        SelectionError::Input(m) => "input error: "@ + m@,
        SelectionError::NativeProvider { provider, message } => provider@ + " error: "@ + message@,
        SelectionError::NoTextSelected => "no text selected"@,
        SelectionError::UnsupportedPlatformNativeProvider(p) => p@ + " is not implemented yet"@,
        SelectionError::PermissionDenied(m) => m@,
    }
}

impl SelectionError {
    /// The text that describes this error.
    pub fn message(&self) -> (r: String)
        ensures
            r@ == selection_error_message(*self),
    {
        match self {
            SelectionError::Clipboard(m) => concat("clipboard error: ", m.as_str()),
            SelectionError::Input(m) => concat("input error: ", m.as_str()),
            SelectionError::NativeProvider { provider, message } => crate::text::concat3(
                provider,
                " error: ",
                message.as_str(),
            ),
            SelectionError::NoTextSelected => owned("no text selected"),
            SelectionError::UnsupportedPlatformNativeProvider(p) => concat(
                p,
                " is not implemented yet",
            ),
            SelectionError::PermissionDenied(m) => m.clone(),
        }
    }
}

/// A source of the selected text.
pub trait SelectionProvider {
    fn name(&self) -> &'static str;

    fn read_selected_text(&self, mode: SelectionMode) -> Result<String, SelectionError>;
}

/// The name of the provider that reads the selection through the clipboard.
pub open spec fn clipboard_provider_name() -> Seq<char> {
    "clipboard-copy"@
}

/// The name of the native selection provider of a platform.
pub open spec fn native_provider_name(os: TargetOs) -> Seq<char> {
    match os {
        TargetOs::Windows => "windows-native-selection"@,
        TargetOs::MacOs => "macos-accessibility"@,
        TargetOs::Linux => "linux-at-spi"@,
        TargetOs::Other => "native-selection"@,
    }
}

/// The name of the native selection provider of `os`.
pub fn platform_provider_name(os: TargetOs) -> (r: &'static str)
    ensures
        r@ == native_provider_name(os),
{
    match os {
        TargetOs::Windows => "windows-native-selection",
        TargetOs::MacOs => "macos-accessibility",
        TargetOs::Linux => "linux-at-spi",
        TargetOs::Other => "native-selection",
    }
}

/// The platform's native selection reader. No platform has one yet, so it
/// always reports itself as unsupported.
#[derive(Clone, Copy, Debug)]
pub struct PlatformNativeSelectionProvider {
    pub os: TargetOs,
}

impl SelectionProvider for PlatformNativeSelectionProvider {
    fn name(&self) -> (r: &'static str)
        ensures
            r@ == native_provider_name(self.os),
    {
        platform_provider_name(self.os)
    }

    fn read_selected_text(&self, mode: SelectionMode) -> (r: Result<String, SelectionError>)
        ensures
            r matches Err(SelectionError::UnsupportedPlatformNativeProvider(p)) && p@
                == native_provider_name(self.os),
    {
        Err(SelectionError::UnsupportedPlatformNativeProvider(platform_provider_name(self.os)))
    }
}

/// The native selection provider of `os`.
pub fn platform_provider(os: TargetOs) -> (r: PlatformNativeSelectionProvider)
    ensures
        r.os == os,
{
    PlatformNativeSelectionProvider { os }
}

/// The outcome of reading with the clipboard provider, labelled with its name.
pub fn read_selected_text_with_clipboard_only(
    mode: SelectionMode,
    clipboard: Result<String, SelectionError>,
) -> (r: Result<SelectedText, SelectionError>)
    ensures
        match clipboard {
            Ok(t) => r matches Ok(s) && s.text == t && s.provider@ == clipboard_provider_name(),
            Err(e) => r matches Err(f) && f == e,
        },
{
    match clipboard {
        Ok(text) => Ok(SelectedText { text, provider: "clipboard-copy" }),
        Err(error) => Err(error),
    }
}

/// The selected text, read through the clipboard first (`clipboard` is the
/// outcome of that read); when it fails the native provider is tried, and
/// when that fails too the clipboard error is returned.
pub fn read_selected_text(
    mode: SelectionMode,
    clipboard: Result<String, SelectionError>,
    native: &PlatformNativeSelectionProvider,
) -> (r: Result<SelectedText, SelectionError>)
    ensures
        match clipboard {
            Ok(t) => r matches Ok(s) && s.text == t && s.provider@ == clipboard_provider_name(),
            Err(e) => r matches Err(f) && f == e,
        },
{
    match clipboard {
        Ok(text) => Ok(SelectedText { text, provider: "clipboard-copy" }),
        Err(primary_error) => {
            match native.read_selected_text(mode) {
                Ok(text) => Ok(SelectedText { text, provider: native.name() }),
                Err(_) => Err(primary_error),
            }
        },
    }
}

/// The selected text, read with the native provider first; when it fails the
/// outcome of the clipboard read (`clipboard`) is used.
pub fn read_selected_text_native_first(
    mode: SelectionMode,
    native: &PlatformNativeSelectionProvider,
    clipboard: Result<String, SelectionError>,
) -> (r: Result<SelectedText, SelectionError>)
    ensures
        match clipboard {
            Ok(t) => r matches Ok(s) && s.text == t && s.provider@ == clipboard_provider_name(),
            Err(e) => r matches Err(f) && f == e,
        },
{
    match native.read_selected_text(mode) {
        Ok(text) => Ok(SelectedText { text, provider: native.name() }),
        Err(_) => read_selected_text_with_clipboard_only(mode, clipboard),
    }
}

} // verus!
