//! The rewrite pipeline: its errors and their codes, the Safe Mode preview
//! that waits for the user's decision, the text kept for undo, and how a
//! replacement is delivered (pasted, or left in the clipboard).

use vstd::prelude::*;

use crate::persona::{normalize_config, normalize_spec, PersonaConfig, PersonaConfigView};
use crate::rewrite::{RewriteError, RewriteResponse};
use crate::selection::{SelectedText, SelectionError};
use crate::text::{concat, owned};

verus! {

/// Why a pipeline run failed, by stage.
#[derive(Debug)]
pub enum PipelineError {
    Selection(SelectionError),
    Rewrite(RewriteError),
    Replacement(SelectionError),
}

/// The error code that the HUD shows for a pipeline error.
pub open spec fn error_code_spec(e: PipelineError) -> Seq<char> {
    match e {
        PipelineError::Selection(SelectionError::NoTextSelected) => "NO_TEXT_SELECTED"@,
        PipelineError::Selection(SelectionError::Clipboard(_)) => "CLIPBOARD_ACCESS_FAILED"@,
        PipelineError::Selection(SelectionError::Input(_)) => "PASTE_BLOCKED"@,
        PipelineError::Selection(SelectionError::PermissionDenied(_)) => "PLATFORM_PERMISSION_REQUIRED"@,
        PipelineError::Selection(_) => "API_ERROR"@,
        PipelineError::Rewrite(RewriteError::Config(_)) => "API_CONFIG_MISSING"@,
        PipelineError::Rewrite(RewriteError::Timeout) => "NETWORK_TIMEOUT"@,
        PipelineError::Rewrite(RewriteError::InvalidResponse(_)) => "PROVIDER_RESPONSE_INVALID"@,
        PipelineError::Rewrite(_) => "API_ERROR"@,
        PipelineError::Replacement(SelectionError::Clipboard(_)) => "CLIPBOARD_ACCESS_FAILED"@,
        PipelineError::Replacement(_) => "PASTE_BLOCKED"@,
    }
}

/// The text that describes a pipeline error.
pub open spec fn pipeline_error_message(e: PipelineError) -> Seq<char> {
    match e {
        PipelineError::Selection(s) => "selection failed: "@
            + crate::selection::selection_error_message(s),
        PipelineError::Rewrite(r) => "rewrite failed: "@ + crate::rewrite::rewrite_error_message(r),
        PipelineError::Replacement(s) => "replacement failed: "@
            + crate::selection::selection_error_message(s),
    }
}

impl PipelineError {
    /// The error code that the HUD shows.
    pub fn error_code(&self) -> (r: &'static str)
        ensures
            r@ == error_code_spec(*self),
    {
        match self {
            PipelineError::Selection(SelectionError::NoTextSelected) => "NO_TEXT_SELECTED",
            PipelineError::Selection(SelectionError::Clipboard(_)) => "CLIPBOARD_ACCESS_FAILED",
            PipelineError::Selection(SelectionError::Input(_)) => "PASTE_BLOCKED",
            PipelineError::Selection(SelectionError::PermissionDenied(_)) => "PLATFORM_PERMISSION_REQUIRED",
            PipelineError::Selection(_) => "API_ERROR",
            PipelineError::Rewrite(RewriteError::Config(_)) => "API_CONFIG_MISSING",
            PipelineError::Rewrite(RewriteError::Timeout) => "NETWORK_TIMEOUT",
            PipelineError::Rewrite(RewriteError::InvalidResponse(_)) => "PROVIDER_RESPONSE_INVALID",
            PipelineError::Rewrite(_) => "API_ERROR",
            PipelineError::Replacement(SelectionError::Clipboard(_)) => "CLIPBOARD_ACCESS_FAILED",
            PipelineError::Replacement(_) => "PASTE_BLOCKED",
        }
    }

    /// The text that describes this error.
    pub fn message(&self) -> (r: String)
        ensures
            r@ == pipeline_error_message(*self),
    {
        match self {
            PipelineError::Selection(e) => {
                let m = e.message();
                concat("selection failed: ", m.as_str())
            },
            PipelineError::Rewrite(e) => {
                let m = e.message();
                concat("rewrite failed: ", m.as_str())
            },
            PipelineError::Replacement(e) => {
                let m = e.message();
                concat("replacement failed: ", m.as_str())
            },
        }
    }
}

/// The error of a run that the platform does not permit, if it does not.
pub fn permission_gate(issue: Option<&str>) -> (r: Result<(), PipelineError>)
    ensures
        match issue {
            Some(m) => r matches Err(PipelineError::Selection(SelectionError::PermissionDenied(x)))
                && x@ == m@,
            None => r is Ok,
        },
{
    match issue {
        Some(message) => Err(
            PipelineError::Selection(SelectionError::PermissionDenied(owned(message))),
        ),
        None => Ok(()),
    }
}

/// What a successful run reports.
#[derive(Debug)]
pub struct PipelineOutcome {
    pub selected_characters: usize,
    pub replacement_characters: usize,
    pub selection_provider: &'static str,
    pub rewrite_provider: &'static str,
    pub rewrite_duration: std::time::Duration,
    pub total_duration: std::time::Duration,
}

/// A captured selection and its rewrite.
#[derive(Debug)]
pub struct RewritePipelineResult {
    pub original_text: String,
    pub replacement_text: String,
    pub selection_provider: &'static str,
    pub rewrite_provider: &'static str,
    pub rewrite_duration: std::time::Duration,
}

/// The selection and its rewrite, side by side.
pub fn pipeline_result(selection: SelectedText, rewrite: RewriteResponse) -> (r:
    RewritePipelineResult)
    ensures
        r.original_text == selection.text,
        r.replacement_text == rewrite.text,
        r.selection_provider == selection.provider,
        r.rewrite_provider == rewrite.provider,
        r.rewrite_duration == rewrite.duration,
{
    RewritePipelineResult {
        original_text: selection.text,
        replacement_text: rewrite.text,
        selection_provider: selection.provider,
        rewrite_provider: rewrite.provider,
        rewrite_duration: rewrite.duration,
    }
}

impl RewritePipelineResult {
    /// The run's report: the character counts of both texts and the providers.
    pub fn into_outcome(self, total_duration: std::time::Duration) -> (r: PipelineOutcome)
        ensures
            r.selected_characters == self.original_text@.len(),
            r.replacement_characters == self.replacement_text@.len(),
            r.selection_provider == self.selection_provider,
            r.rewrite_provider == self.rewrite_provider,
            r.rewrite_duration == self.rewrite_duration,
            r.total_duration == total_duration,
    {
        PipelineOutcome {
            selected_characters: self.original_text.unicode_len(),
            replacement_characters: self.replacement_text.unicode_len(),
            selection_provider: self.selection_provider,
            rewrite_provider: self.rewrite_provider,
            rewrite_duration: self.rewrite_duration,
            total_duration,
        }
    }
}

// ---------------------------------------------------------------------------
// The Safe Mode preview
// ---------------------------------------------------------------------------

/// A Safe Mode rewrite waiting for the user to copy, replace, regenerate or dismiss it.
#[derive(Clone, Debug)]
pub struct SafePreview {
    pub id: u64,
    pub original_text: String,
    pub replacement_text: String,
    pub persona_id: String,
}

pub struct SafePreviewView {
    pub id: u64,
    pub original_text: Seq<char>,
    pub replacement_text: Seq<char>,
    pub persona_id: Seq<char>,
}

impl View for SafePreview {
    type V = SafePreviewView;

    open spec fn view(&self) -> SafePreviewView {
        SafePreviewView {
            id: self.id,
            original_text: self.original_text@,
            replacement_text: self.replacement_text@,
            persona_id: self.persona_id@,
        }
    }
}

impl SafePreview {
    pub fn duplicate(&self) -> (r: Self)
        ensures
            r@ == self@,
    {
        SafePreview {
            id: self.id,
            original_text: self.original_text.clone(),
            replacement_text: self.replacement_text.clone(),
            persona_id: self.persona_id.clone(),
        }
    }
}

/// The preview slot and the last preview id handed out.
#[derive(Debug)]
pub struct SafePreviewStore {
    last_id: u64,
    current: Option<SafePreview>,
}

pub struct SafePreviewStoreView {
    pub last_id: u64,
    pub current: Option<SafePreviewView>,
}

impl View for SafePreviewStore {
    type V = SafePreviewStoreView;

    closed spec fn view(&self) -> SafePreviewStoreView {
        SafePreviewStoreView {
            last_id: self.last_id,
            current: match self.current {
                Some(p) => Some(p@),
                None => None,
            },
        }
    }
}

/// The error for a preview that is gone.
pub open spec fn preview_gone_message() -> Seq<char> {
    "safe preview is no longer available"@
}

/// The error for a preview that was replaced by another.
pub open spec fn preview_changed_message() -> Seq<char> {
    "safe preview has already changed"@
}

/// What looking up preview `id` gives: the preview when it is the current
/// one, else why not.
pub open spec fn lookup_spec(s: SafePreviewStoreView, id: u64) -> Result<SafePreviewView, Seq<char>> {
    match s.current {
        None => Err(preview_gone_message()),
        Some(p) => if p.id == id {
            Ok(p)
        } else {
            Err(preview_changed_message())
        },
    }
}

/// What clearing preview `id` does: nothing when there is no preview, an
/// error when another preview is current, else the slot is emptied.
pub open spec fn clear_spec(s: SafePreviewStoreView, id: u64) -> (SafePreviewStoreView, Result<
    (),
    Seq<char>,
>) {
    match s.current {
        None => (s, Ok(())),
        Some(p) => if p.id == id {
            (SafePreviewStoreView { current: None, ..s }, Ok(()))
        } else {
            (s, Err(preview_changed_message()))
        },
    }
}

impl SafePreviewStore {
    /// An empty store that has handed out no id.
    pub fn new() -> (r: Self)
        ensures
            r@.last_id == 0,
            r@.current is None,
    {
        SafePreviewStore { last_id: 0, current: None }
    }

    /// The next preview id: one more than the last.
    pub fn next_safe_preview_id(&mut self) -> (r: u64)
        requires
            old(self)@.last_id < u64::MAX,
        ensures
            r == old(self)@.last_id + 1,
            final(self)@.last_id == r,
            final(self)@.current == old(self)@.current,
    {
        self.last_id = self.last_id + 1;
        self.last_id
    }

    /// Preview `preview_id`, when it is the current one.
    pub fn current_safe_preview(&self, preview_id: u64) -> (r: Result<SafePreview, SelectionError>)
        ensures
            match lookup_spec(self@, preview_id) {
                Ok(p) => r matches Ok(x) && x@ == p,
                Err(m) => r matches Err(SelectionError::Clipboard(x)) && x@ == m,
            },
    {
        match &self.current {
            None => Err(SelectionError::Clipboard(owned("safe preview is no longer available"))),
            Some(preview) => {
                if preview.id != preview_id {
                    return Err(SelectionError::Clipboard(owned("safe preview has already changed")));
                }
                Ok(preview.duplicate())
            },
        }
    }

    /// Empties the slot when preview `preview_id` is the current one.
    pub fn clear_safe_preview(&mut self, preview_id: u64) -> (r: Result<(), SelectionError>)
        ensures
            final(self)@ == clear_spec(old(self)@, preview_id).0,
            match clear_spec(old(self)@, preview_id).1 {
                Ok(_) => r is Ok,
                Err(m) => r matches Err(SelectionError::Clipboard(x)) && x@ == m,
            },
    {
        let matches = match &self.current {
            None => {
                return Ok(());
            },
            Some(preview) => preview.id == preview_id,
        };
        if !matches {
            return Err(SelectionError::Clipboard(owned("safe preview has already changed")));
        }
        self.current = None;
        Ok(())
    }

    /// Empties the slot.
    pub fn clear_any_safe_preview(&mut self) -> (r: Result<(), SelectionError>)
        ensures
            final(self)@ == (SafePreviewStoreView { current: None, ..old(self)@ }),
            r is Ok,
    {
        self.current = None;
        Ok(())
    }

    /// Puts `preview` in the slot.
    pub fn replace_safe_preview_state(&mut self, preview: SafePreview) -> (r: Result<
        (),
        SelectionError,
    >)
        ensures
            final(self)@ == (SafePreviewStoreView { current: Some(preview@), ..old(self)@ }),
            r is Ok,
    {
        self.current = Some(preview);
        Ok(())
    }
}

impl SafePreviewStore {
    /// Whether another preview id can be handed out.
    pub fn preview_ids_left(&self) -> (r: bool)
        ensures
            r == (self@.last_id < u64::MAX),
    {
        self.last_id < u64::MAX
    }

    /// Opens a new preview of `replacement_text` (the rewrite of
    /// `original_text` with persona `persona_id`) under the next id; it
    /// replaces any preview that was open.
    pub fn open_preview(&mut self, original_text: String, replacement_text: String, persona_id: String) -> (r:
        SafePreview)
        requires
            old(self)@.last_id < u64::MAX,
        ensures
            r.id == old(self)@.last_id + 1,
            r.original_text == original_text,
            r.replacement_text == replacement_text,
            r.persona_id == persona_id,
            final(self)@ == (SafePreviewStoreView { last_id: r.id, current: Some(r@) }),
    {
        let id = self.next_safe_preview_id();
        let preview = SafePreview { id, original_text, replacement_text, persona_id };
        let stored = preview.duplicate();
        let _ = self.replace_safe_preview_state(stored);
        preview
    }

    /// The start of regenerating preview `preview_id`: the preview and the
    /// persona to regenerate it with (the requested one, else the preview's),
    /// or the replacement error when that preview is no longer the current one.
    pub fn begin_regeneration(&self, preview_id: u64, requested_persona: Option<String>) -> (r:
        Result<(SafePreview, String), PipelineError>)
        ensures
            match lookup_spec(self@, preview_id) {
                Ok(p) => r matches Ok((x, persona)) && x@ == p && match requested_persona {
                    Some(q) => persona == q,
                    None => persona@ == p.persona_id,
                },
                Err(m) => r matches Err(PipelineError::Replacement(SelectionError::Clipboard(x)))
                    && x@ == m,
            },
    {
        match self.current_safe_preview(preview_id) {
            Err(e) => Err(PipelineError::Replacement(e)),
            Ok(preview) => {
                let persona = regeneration_persona_id(requested_persona, &preview);
                Ok((preview, persona))
            },
        }
    }

    /// The end of regenerating `preview` with persona `persona_id`, from the
    /// rewrite's outcome. A preview that was dismissed or replaced meanwhile is
    /// left alone. Otherwise a new rewrite replaces the preview's text and
    /// persona (same id and original text), and a failed one leaves the preview
    /// as it was, shown with the error's code.
    pub fn finish_regeneration(
        &mut self,
        preview: SafePreview,
        persona_id: String,
        rewrite: Result<String, RewriteError>,
    ) -> (r: RegenerationOutcome)
        ensures
            match lookup_spec(old(self)@, preview.id) {
                Err(m) => final(self)@ == old(self)@ && (r matches RegenerationOutcome::Dismissed(
                    SelectionError::Clipboard(x),
                ) && x@ == m),
                Ok(current) => match rewrite {
                    Ok(text) => r matches RegenerationOutcome::ShowPreview(p) && p.id == preview.id
                        && p.original_text == preview.original_text && p.replacement_text == text
                        && p.persona_id == persona_id && final(self)@ == (SafePreviewStoreView {
                        current: Some(p@),
                        ..old(self)@
                    }),
                    Err(e) => final(self)@ == old(self)@ && (r matches RegenerationOutcome::ShowPreviewError {
                        preview: p,
                        error_code,
                    } && p@ == current && error_code@ == error_code_spec(PipelineError::Rewrite(e))),
                },
            },
    {
        match rewrite {
            Err(e) => {
                let error_code = PipelineError::Rewrite(e).error_code();
                match self.current_safe_preview(preview.id) {
                    Ok(current) => RegenerationOutcome::ShowPreviewError { preview: current, error_code },
                    Err(state_error) => RegenerationOutcome::Dismissed(state_error),
                }
            },
            Ok(text) => {
                let next = regenerated_preview(preview, text, persona_id);
                match self.current_safe_preview(next.id) {
                    Err(state_error) => RegenerationOutcome::Dismissed(state_error),
                    Ok(_) => {
                        let stored = next.duplicate();
                        let _ = self.replace_safe_preview_state(stored);
                        RegenerationOutcome::ShowPreview(next)
                    },
                }
            },
        }
    }
}

/// How a regeneration ends.
#[derive(Debug)]
pub enum RegenerationOutcome {
    /// Show the regenerated preview.
    ShowPreview(SafePreview),
    /// Show the unchanged preview with the rewrite's error code.
    ShowPreviewError { preview: SafePreview, error_code: &'static str },
    /// The preview was dismissed or replaced meanwhile; nothing is shown.
    Dismissed(SelectionError),
}

/// A preview read back after it was stored is the stored preview; after it
/// is cleared (by its id or unconditionally) no preview can be read.
pub proof fn law_preview_store_reads_back(s: SafePreviewStoreView, p: SafePreviewView, other: u64)
    ensures
        lookup_spec(SafePreviewStoreView { current: Some(p), ..s }, p.id) == Ok::<
            SafePreviewView,
            Seq<char>,
        >(p),
        other != p.id ==> lookup_spec(SafePreviewStoreView { current: Some(p), ..s }, other)
            == Err::<SafePreviewView, Seq<char>>(preview_changed_message()),
        lookup_spec(clear_spec(SafePreviewStoreView { current: Some(p), ..s }, p.id).0, other)
            == Err::<SafePreviewView, Seq<char>>(preview_gone_message()),
        lookup_spec(SafePreviewStoreView { current: None, ..s }, other) == Err::<
            SafePreviewView,
            Seq<char>,
        >(preview_gone_message()),
{
}

/// The text a copy or replace action uses: the user's edit when there is
/// one, else the preview's rewrite.
pub fn preview_replacement_text(preview: &SafePreview, edited_text: Option<String>) -> (r: String)
    ensures
        match edited_text {
            Some(t) => r == t,
            None => r@ == preview.replacement_text@,
        },
{
    match edited_text {
        Some(t) => t,
        None => preview.replacement_text.clone(),
    }
}

/// The persona a regeneration uses: the requested one, else the preview's.
pub fn regeneration_persona_id(requested: Option<String>, preview: &SafePreview) -> (r: String)
    ensures
        match requested {
            Some(t) => r == t,
            None => r@ == preview.persona_id@,
        },
{
    match requested {
        Some(t) => t,
        None => preview.persona_id.clone(),
    }
}

/// The preview that replaces `preview` after a regeneration: same id and
/// original text, the new rewrite and persona.
pub fn regenerated_preview(preview: SafePreview, text: String, persona_id: String) -> (r:
    SafePreview)
    ensures
        r.id == preview.id,
        r.original_text == preview.original_text,
        r.replacement_text == text,
        r.persona_id == persona_id,
{
    SafePreview {
        id: preview.id,
        original_text: preview.original_text,
        replacement_text: text,
        persona_id,
    }
}

/// The persona of a new Safe Mode preview: the default persona of the
/// normalized configuration, or the built-in default when the configuration
/// could not be loaded.
pub fn safe_preview_persona_id(personas: Option<&PersonaConfig>) -> (r: String)
    ensures
        match personas {
            Some(p) => r@ == normalize_spec(p@).default_id,
            None => r@ == crate::persona::catalog_default_id(),
        },
{
    match personas {
        Some(p) => normalize_config(p).default_safe_persona_id,
        None => owned(crate::persona::default_safe_persona_id()),
    }
}

// ---------------------------------------------------------------------------
// Undo
// ---------------------------------------------------------------------------

/// The original text of the last replacement, kept so that it can be copied back.
#[derive(Debug)]
pub struct LastReplacementStore {
    original_text: Option<String>,
}

impl View for LastReplacementStore {
    type V = Option<Seq<char>>;

    closed spec fn view(&self) -> Option<Seq<char>> {
        match self.original_text {
            Some(t) => Some(t@),
            None => None,
        }
    }
}

impl LastReplacementStore {
    pub fn new() -> (r: Self)
        ensures
            r@ is None,
    {
        LastReplacementStore { original_text: None }
    }

    /// Keeps `original_text` as the text of the last replacement.
    pub fn remember_last_replacement(&mut self, original_text: &str)
        ensures
            final(self)@ == Some(original_text@),
    {
        self.original_text = Some(owned(original_text));
    }

    /// The original text of the last replacement.
    pub fn last_replacement_original(&self) -> (r: Result<String, PipelineError>)
        ensures
            match self@ {
                Some(t) => r matches Ok(x) && x@ == t,
                None => r matches Err(PipelineError::Replacement(SelectionError::Clipboard(m)))
                    && m@ == "last replacement is no longer available"@,
            },
    {
        match &self.original_text {
            Some(t) => Ok(t.clone()),
            None => Err(
                PipelineError::Replacement(
                    SelectionError::Clipboard(owned("last replacement is no longer available")),
                ),
            ),
        }
    }
}

// ---------------------------------------------------------------------------
// Delivering a replacement
// ---------------------------------------------------------------------------

/// What happened in the last step of delivering a replacement.
#[derive(Debug)]
pub enum DeliveryEvent {
    /// Delivery starts; the flag says whether the target window runs elevated.
    Begin { elevation_required: bool },
    /// The paste into the target window finished.
    Pasted(Result<(), SelectionError>),
    /// The replacement was written to the clipboard.
    Copied(Result<(), SelectionError>),
}

/// What to do next when delivering a replacement.
#[derive(Debug)]
pub enum DeliveryAction {
    /// Paste the replacement into the target window.
    Paste,
    /// Write the replacement to the clipboard.
    CopyToClipboard,
    /// Delivery is over: the text was pasted (`replaced`) or left in the clipboard.
    Finish { replaced: bool },
    /// Delivery failed.
    Fail(PipelineError),
}

/// The next delivery step: an elevated target gets the text in the clipboard
/// (paste would be blocked); otherwise it is pasted, and a failed paste falls
/// back to the clipboard; only a clipboard failure fails the delivery.
pub fn next_delivery_action(event: DeliveryEvent) -> (r: DeliveryAction)
    ensures
        match event {
            DeliveryEvent::Begin { elevation_required } => if elevation_required {
                r is CopyToClipboard
            } else {
                r is Paste
            },
            DeliveryEvent::Pasted(Ok(_)) => r == DeliveryAction::Finish { replaced: true },
            DeliveryEvent::Pasted(Err(_)) => r is CopyToClipboard,
            DeliveryEvent::Copied(Ok(_)) => r == DeliveryAction::Finish { replaced: false },
            DeliveryEvent::Copied(Err(e)) => r == DeliveryAction::Fail(PipelineError::Replacement(e)),
        },
{
    match event {
        DeliveryEvent::Begin { elevation_required } => if elevation_required {
            DeliveryAction::CopyToClipboard
        } else {
            DeliveryAction::Paste
        },
        DeliveryEvent::Pasted(Ok(())) => DeliveryAction::Finish { replaced: true },
        DeliveryEvent::Pasted(Err(_)) => DeliveryAction::CopyToClipboard,
        DeliveryEvent::Copied(Ok(())) => DeliveryAction::Finish { replaced: false },
        DeliveryEvent::Copied(Err(e)) => DeliveryAction::Fail(PipelineError::Replacement(e)),
    }
}

/// The history action of a delivered replacement.
pub fn replacement_action(replaced: bool) -> (r: &'static str)
    ensures
        r@ == (if replaced {
            "replaced"@
        } else {
            "saved_to_clipboard"@
        }),
{
    if replaced {
        "replaced"
    } else {
        "saved_to_clipboard"
    }
}

/// What follows the delivery of Safe Mode preview `preview`, `replaced`
/// telling whether its text was pasted into the target (else it was left on
/// the clipboard). The preview is cleared first; if it has changed meanwhile
/// that is the error and nothing else changes. Otherwise a paste makes the
/// preview's original the text to restore, and the history action to record
/// is returned.
pub fn settle_delivered_preview(
    previews: &mut SafePreviewStore,
    last: &mut LastReplacementStore,
    preview: &SafePreview,
    replaced: bool,
) -> (r: Result<&'static str, PipelineError>)
    ensures
        final(previews)@ == clear_spec(old(previews)@, preview.id).0,
        match clear_spec(old(previews)@, preview.id).1 {
            Ok(_) => {
                &&& r matches Ok(a) && a@ == (if replaced {
                    "replaced"@
                } else {
                    "saved_to_clipboard"@
                })
                &&& final(last)@ == (if replaced {
                    Some(preview.original_text@)
                } else {
                    old(last)@
                })
            },
            Err(m) => {
                &&& r matches Err(PipelineError::Replacement(SelectionError::Clipboard(x))) && x@ == m
                &&& final(last)@ == old(last)@
            },
        },
{
    match previews.clear_safe_preview(preview.id) {
        Err(e) => Err(PipelineError::Replacement(e)),
        Ok(()) => {
            if replaced {
                last.remember_last_replacement(preview.original_text.as_str());
            }
            Ok(replacement_action(replaced))
        },
    }
}

} // verus!
