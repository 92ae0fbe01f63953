//! The state shown by the heads-up display.

use vstd::prelude::*;

verus! {

/// One state of the HUD.
#[derive(Clone, Debug)]
pub struct HudUpdate {
    pub status: &'static str,
    pub message: Option<String>,
    pub original_text: Option<String>,
    pub error_code: Option<&'static str>,
    pub preview_id: Option<u64>,
    pub persona_id: Option<String>,
}

pub struct HudUpdateView {
    pub status: Seq<char>,
    pub message: Option<Seq<char>>,
    pub original_text: Option<Seq<char>>,
    pub error_code: Option<Seq<char>>,
    pub preview_id: Option<u64>,
    pub persona_id: Option<Seq<char>>,
}

pub open spec fn opt_view(o: Option<String>) -> Option<Seq<char>> {
    match o {
        Some(s) => Some(s@),
        None => None,
    }
}

impl View for HudUpdate {
    type V = HudUpdateView;

    open spec fn view(&self) -> HudUpdateView {
        HudUpdateView {
            status: self.status@,
            message: opt_view(self.message),
            original_text: opt_view(self.original_text),
            error_code: match self.error_code {
                Some(c) => Some(c@),
                None => None,
            },
            preview_id: self.preview_id,
            persona_id: opt_view(self.persona_id),
        }
    }
}

/// A HUD state with only a status.
pub open spec fn plain_status(status: Seq<char>) -> HudUpdateView {
    HudUpdateView {
        status,
        message: None,
        original_text: None,
        error_code: None,
        preview_id: None,
        persona_id: None,
    }
}

fn with_status(status: &'static str) -> (r: HudUpdate)
    ensures
        r@ == plain_status(status@),
{
    HudUpdate {
        status,
        message: None,
        original_text: None,
        error_code: None,
        preview_id: None,
        persona_id: None,
    }
}

impl HudUpdate {
    /// Nothing to show.
    pub fn idle() -> (r: Self)
        ensures
            r@ == plain_status("idle"@),
    {
        with_status("idle")
    }

    /// A rewrite is running.
    pub fn refining() -> (r: Self)
        ensures
            r@ == plain_status("refining"@),
    {
        with_status("refining")
    }

    /// The replacement was pasted and can be undone.
    pub fn undo_available() -> (r: Self)
        ensures
            r@ == plain_status("undo_available"@),
    {
        with_status("undo_available")
    }

    /// The result was left in the clipboard.
    pub fn saved_to_clipboard() -> (r: Self)
        ensures
            r@ == plain_status("saved_to_clipboard"@),
    {
        with_status("saved_to_clipboard")
    }

    /// A run failed with `error_code`.
    pub fn error(error_code: &'static str) -> (r: Self)
        ensures
            r@ == (HudUpdateView { error_code: Some(error_code@), ..plain_status("error"@) }),
    {
        HudUpdate { error_code: Some(error_code), ..with_status("error") }
    }

    /// A Safe Mode preview of `text` (the rewrite of `original_text`).
    pub fn preview(preview_id: u64, original_text: String, text: String, persona_id: String) -> (r:
        Self)
        ensures
            r@ == (HudUpdateView {
                status: "preview"@,
                message: Some(text@),
                original_text: Some(original_text@),
                error_code: None,
                preview_id: Some(preview_id),
                persona_id: Some(persona_id@),
            }),
    {
        HudUpdate {
            status: "preview",
            message: Some(text),
            original_text: Some(original_text),
            error_code: None,
            preview_id: Some(preview_id),
            persona_id: Some(persona_id),
        }
    }

    /// A Safe Mode preview that stays as it was because regenerating it failed.
    pub fn preview_error(
        preview_id: u64,
        original_text: String,
        text: String,
        persona_id: String,
        error_code: &'static str,
    ) -> (r: Self)
        ensures
            r@ == (HudUpdateView {
                status: "preview"@,
                message: Some(text@),
                original_text: Some(original_text@),
                error_code: Some(error_code@),
                preview_id: Some(preview_id),
                persona_id: Some(persona_id@),
            }),
    {
        HudUpdate {
            status: "preview",
            message: Some(text),
            original_text: Some(original_text),
            error_code: Some(error_code),
            preview_id: Some(preview_id),
            persona_id: Some(persona_id),
        }
    }

    pub fn duplicate(&self) -> (r: Self)
        ensures
            r@ == self@,
    {
        HudUpdate {
            status: self.status,
            message: match &self.message {
                Some(m) => Some(m.clone()),
                None => None,
            },
            original_text: match &self.original_text {
                Some(m) => Some(m.clone()),
                None => None,
            },
            error_code: self.error_code,
            preview_id: self.preview_id,
            persona_id: match &self.persona_id {
                Some(m) => Some(m.clone()),
                None => None,
            },
        }
    }
}

/// The HUD state to report: the latest one, or idle when it cannot be read.
pub fn current(latest: Option<&HudUpdate>) -> (r: HudUpdate)
    ensures
        match latest {
            Some(u) => r@ == u@,
            None => r@ == plain_status("idle"@),
        },
{
    match latest {
        Some(u) => u.duplicate(),
        None => HudUpdate::idle(),
    }
}

/// Whether the HUD hides itself after showing `status`.
pub open spec fn auto_hides(status: Seq<char>) -> bool {
    status == "replaced"@ || status == "undo_available"@ || status == "error"@ || status
        == "saved_to_clipboard"@
}

pub fn should_auto_hide(status: &str) -> (r: bool)
    ensures
        r == auto_hides(status@),
{
    crate::text::str_eq(status, "replaced") || crate::text::str_eq(status, "undo_available")
        || crate::text::str_eq(status, "error") || crate::text::str_eq(status, "saved_to_clipboard")
}

} // verus!
