//! The HUD window's layout for each status, the counter that keeps a stale
//! auto-hide from hiding a newer HUD, and where a preview stays on screen.

use vstd::prelude::*;

use crate::hud::{auto_hides, should_auto_hide};
use crate::text::str_eq;

verus! {

/// The label of the settings window.
pub const MAIN_WINDOW_LABEL: &'static str = "main";

/// The label of the HUD window.
pub const HUD_WINDOW_LABEL: &'static str = "hud";

/// How long a self-hiding HUD status stays up, in milliseconds.
pub const HUD_HIDE_DELAY_MS: u64 = 2_200;

/// The size of the HUD for one status, in physical pixels, how far above the
/// anchor it stands, and whether it takes focus and clicks.
#[derive(Clone, Copy, Debug, PartialEq, Eq, Structural)]
pub struct HudLayout {
    pub width: u32,
    pub height: u32,
    pub vertical_offset: u32,
    pub interactive: bool,
}

/// The layout for `status`: a large interactive panel for a preview, a small
/// interactive one for undo, a small click-through one otherwise.
pub open spec fn layout_spec(status: Seq<char>) -> HudLayout {
    if status == "preview"@ {
        HudLayout { width: 420, height: 228, vertical_offset: 10, interactive: true }
    } else if status == "undo_available"@ {
        HudLayout { width: 220, height: 52, vertical_offset: 8, interactive: true }
    } else {
        HudLayout { width: 180, height: 52, vertical_offset: 8, interactive: false }
    }
}

pub fn layout_for_status(status: &str) -> (r: HudLayout)
    ensures
        r == layout_spec(status@),
{
    if str_eq(status, "preview") {
        return HudLayout { width: 420, height: 228, vertical_offset: 10, interactive: true };
    }
    if str_eq(status, "undo_available") {
        return HudLayout { width: 220, height: 52, vertical_offset: 8, interactive: true };
    }
    HudLayout { width: 180, height: 52, vertical_offset: 8, interactive: false }
}

/// Counts HUD presentations, so that an auto-hide scheduled for one of them
/// does nothing once a later one is shown.
#[derive(Clone, Copy, Debug)]
pub struct HudGeneration {
    pub current: u64,
}

/// The generation number after `current`; the counter wraps.
pub open spec fn next_generation(current: u64) -> u64 {
    if current == u64::MAX {
        0
    } else {
        (current + 1) as u64
    }
}

impl HudGeneration {
    pub fn new() -> (r: Self)
        ensures
            r.current == 0,
    {
        HudGeneration { current: 0 }
    }

    /// A new presentation: its generation number.
    pub fn present(&mut self) -> (r: u64)
        ensures
            r == next_generation(old(self).current),
            final(self).current == r,
    {
        self.current = self.current.wrapping_add(1);
        self.current
    }

    /// Whether an auto-hide scheduled for presentation `generation` may hide
    /// the HUD: only when nothing was presented since.
    pub fn should_hide(&self, generation: u64) -> (r: bool)
        ensures
            r == (self.current == generation),
    {
        self.current == generation
    }
}

/// What presenting the HUD with one status decides: the presentation's
/// generation number, the window's layout, and whether an auto-hide is
/// scheduled for it.
#[derive(Clone, Copy, Debug)]
pub struct HudPresentation {
    pub generation: u64,
    pub layout: HudLayout,
    pub schedule_hide: bool,
}

impl HudGeneration {
    /// Presents the HUD with `status`: a new generation, the status's layout,
    /// and an auto-hide for the statuses that hide themselves.
    pub fn present_status(&mut self, status: &str) -> (r: HudPresentation)
        ensures
            r.generation == next_generation(old(self).current),
            final(self).current == r.generation,
            r.layout == layout_spec(status@),
            r.schedule_hide == auto_hides(status@),
    {
        let generation = self.present();
        HudPresentation {
            generation,
            layout: layout_for_status(status),
            schedule_hide: should_auto_hide(status),
        }
    }
}

/// The generation after `n` more presentations.
pub open spec fn generation_after(current: u64, n: nat) -> u64
    decreases n,
{
    if n == 0 {
        current
    } else {
        next_generation(generation_after(current, (n - 1) as nat))
    }
}

proof fn lemma_generation_after(current: u64, n: nat)
    requires
        n <= u64::MAX,
    ensures
        generation_after(current, n) == (if current + n <= u64::MAX {
            current + n
        } else {
            current + n - u64::MAX - 1
        }),
    decreases n,
{
    if n > 0 {
        lemma_generation_after(current, (n - 1) as nat);
    }
}

/// The auto-hide scheduled for a presentation hides the HUD exactly when no
/// presentation came after it (counting up to one full turn of the counter):
/// each presentation moves the generation on, and `should_hide` compares the
/// scheduled generation with the current one.
pub proof fn law_auto_hide_only_if_nothing_presented_since(current: u64, later: nat)
    requires
        later <= u64::MAX,
    ensures
        ({
            let scheduled = next_generation(current);
            (generation_after(scheduled, later) == scheduled) <==> later == 0
        }),
{
    lemma_generation_after(next_generation(current), later);
}

/// The HUD takes focus and clicks exactly for a preview and for undo.
pub proof fn law_interactive_statuses(status: Seq<char>)
    ensures
        layout_spec(status).interactive <==> (status == "preview"@ || status
            == "undo_available"@),
{
}

/// A presentation cancels the pending auto-hide of the one before it: the
/// generation an auto-hide was scheduled for is no longer the current one
/// once the HUD has been presented again.
pub proof fn law_later_presentation_cancels_hide(current: u64)
    ensures
        next_generation(next_generation(current)) != next_generation(current),
{
}

/// Where the HUD stands during one rewrite: the point it is anchored to, and
/// the position a preview took, which later previews keep.
#[derive(Clone, Copy, Debug)]
pub struct HudPositionSession<P> {
    pub anchor: Option<P>,
    pub preview_position: Option<P>,
}

impl<P: Copy> HudPositionSession<P> {
    pub fn new() -> (r: Self)
        ensures
            r.anchor is None,
            r.preview_position is None,
    {
        HudPositionSession { anchor: None, preview_position: None }
    }

    /// A new rewrite starts: anchored at `anchor`, no preview position yet.
    pub fn begin(&mut self, anchor: Option<P>)
        ensures
            final(self).anchor == anchor,
            final(self).preview_position is None,
    {
        self.anchor = anchor;
        self.preview_position = None;
    }

    /// The position a preview took in this session, if any.
    pub fn locked_preview_position(&self) -> (r: Option<P>)
        ensures
            r == self.preview_position,
    {
        self.preview_position
    }

    /// Remembers where a preview stands; the first one in a session wins.
    pub fn remember_preview_position(&mut self, position: P)
        ensures
            final(self).anchor == old(self).anchor,
            final(self).preview_position == (match old(self).preview_position {
                Some(p) => Some(p),
                None => Some(position),
            }),
    {
        if self.preview_position.is_none() {
            self.preview_position = Some(position);
        }
    }

    /// The point to anchor the HUD to: the session's, else `cursor`.
    pub fn anchor_or(&self, cursor: P) -> (r: P)
        ensures
            r == (match self.anchor {
                Some(a) => a,
                None => cursor,
            }),
    {
        match self.anchor {
            Some(a) => a,
            None => cursor,
        }
    }
}

/// Once a preview has taken a position, later previews of the same session
/// keep it.
pub proof fn law_preview_position_is_kept<P>(s: HudPositionSession<P>, first: P, later: P)
    requires
        s.preview_position is None,
    ensures
        ({
            let after_first = HudPositionSession { preview_position: Some(first), ..s };
            let after_later = HudPositionSession {
                preview_position: match after_first.preview_position {
                    Some(p) => Some(p),
                    None => Some(later),
                },
                ..after_first
            };
            after_later.preview_position == Some(first)
        }),
{
}

} // verus!
