//! Routing global hotkey presses to the rewrite modes, and deciding whether a
//! press starts a capture.

use vstd::prelude::*;

use crate::config::ResolvedHotkeyConfig;
use crate::selection::SelectionMode;
use crate::text::{concat, concat3};

verus! {

/// Presses closer together than this many milliseconds count as one.
pub const DEBOUNCE_MS: u64 = 300;

/// A registered hotkey and the mode it starts.
#[derive(Clone, Copy, Debug)]
pub struct HotkeyRoute {
    pub mode: SelectionMode,
    pub hotkey: global_hotkey::hotkey::HotKey,
    pub hotkey_id: u32,
}

/// The routes for the two configured hotkeys: Safe Mode first, then Magic Mode.
pub fn routes_from_hotkeys(hotkeys: ResolvedHotkeyConfig) -> (r: [HotkeyRoute; 2])
    ensures
        r@[0].mode == SelectionMode::Safe,
        r@[0].hotkey == hotkeys.safe_mode,
        r@[0].hotkey_id == hotkeys.safe_mode_id,
        r@[1].mode == SelectionMode::Magic,
        r@[1].hotkey == hotkeys.magic_mode,
        r@[1].hotkey_id == hotkeys.magic_mode_id,
{
    [
        HotkeyRoute {
            mode: SelectionMode::Safe,
            hotkey: hotkeys.safe_mode,
            hotkey_id: hotkeys.safe_mode_id,
        },
        HotkeyRoute {
            mode: SelectionMode::Magic,
            hotkey: hotkeys.magic_mode,
            hotkey_id: hotkeys.magic_mode_id,
        },
    ]
}

/// The route whose hotkey raised the event `event_id`: the first that matches,
/// none when no routes are installed.
pub fn route_for_event(routes: Option<&[HotkeyRoute; 2]>, event_id: u32) -> (r: Option<
    HotkeyRoute,
>)
    ensures
        match routes {
            None => r is None,
            Some(rs) => if rs@[0].hotkey_id == event_id {
                r == Some(rs@[0])
            } else if rs@[1].hotkey_id == event_id {
                r == Some(rs@[1])
            } else {
                r is None
            },
        },
{
    match routes {
        None => None,
        Some(rs) => {
            if rs[0].hotkey_id == event_id {
                Some(rs[0])
            } else if rs[1].hotkey_id == event_id {
                Some(rs[1])
            } else {
                None
            }
        },
    }
}

/// Whether two route sets register the same hotkeys, in the same order.
pub fn same_hotkeys(left: &[HotkeyRoute; 2], right: &[HotkeyRoute; 2]) -> (r: bool)
    ensures
        r == (left@[0].hotkey_id == right@[0].hotkey_id && left@[1].hotkey_id
            == right@[1].hotkey_id),
{
    left[0].hotkey_id == right[0].hotkey_id && left[1].hotkey_id == right[1].hotkey_id
}

/// The error of a reload whose new hotkeys could not be registered, with the
/// error of putting the previous ones back when that failed too.
pub fn reload_failure_message(register_error: &str, restore_error: Option<&str>) -> (r: String)
    ensures
        r@ == (match restore_error {
            None => "failed to register new hotkeys: "@ + register_error@,
            Some(e) => "failed to register new hotkeys: "@ + register_error@
                + "; also failed to restore previous hotkeys: "@ + e@,
        }),
{
    let head = concat("failed to register new hotkeys: ", register_error);
    match restore_error {
        None => head,
        Some(e) => concat3(head.as_str(), "; also failed to restore previous hotkeys: ", e),
    }
}

/// What registering one set of two hotkeys asks to be done next.
#[derive(Debug)]
pub enum RegistrationAction {
    /// Register the hotkey at this index of the set.
    Register(usize),
    /// Unregister the hotkey at this index again (rolling back).
    Unregister(usize),
    /// The registration is over.
    Finish(Result<(), String>),
}

/// What happened at the step a registration waits on.
#[derive(Debug)]
pub enum RegistrationEvent {
    /// The hotkey was registered.
    Registered,
    /// Registering the hotkey written `hotkey` failed with `error`.
    RegisterFailed { hotkey: String, error: String },
    /// A hotkey was unregistered again (whatever the outcome).
    Unregistered,
}

/// Registering the two hotkeys of a set: all of them, or, when one fails, none
/// (the ones already registered are unregistered again, last first).
#[derive(Debug)]
pub struct SetRegistration {
    /// The index of the hotkey being registered or unregistered.
    pub index: usize,
    /// The error to report once the rollback is done.
    pub failure: Option<String>,
}

/// Whether `event` is one that the registration at `index` (rolling back when
/// `rolling_back`) can take.
pub open spec fn registration_expects(rolling_back: bool, index: usize, event: RegistrationEvent) -> bool {
    if rolling_back {
        event is Unregistered
    } else {
        index < 2 && !(event is Unregistered)
    }
}

impl SetRegistration {
    pub open spec fn wf(&self) -> bool {
        self.index < 2
    }

    /// Starts registering a set: its first hotkey.
    pub fn start() -> (r: (Self, RegistrationAction))
        ensures
            r.0.wf(),
            r.0.failure is None,
            r.1 == RegistrationAction::Register(0),
    {
        (SetRegistration { index: 0, failure: None }, RegistrationAction::Register(0))
    }

    /// Whether `event` is one that this registration can take.
    pub fn expects(&self, event: &RegistrationEvent) -> (r: bool)
        ensures
            r == registration_expects(self.failure is Some, self.index, *event),
    {
        match (&self.failure, event) {
            (Some(_), RegistrationEvent::Unregistered) => true,
            (Some(_), _) => false,
            (None, RegistrationEvent::Unregistered) => false,
            (None, _) => self.index < 2,
        }
    }

    /// Takes the event the registration waits on. Each registered hotkey
    /// leads to the next; after the last the set is registered. A failure
    /// unregisters the hotkeys registered before it, last first, then reports
    /// `failed to register {hotkey}: {error}`.
    pub fn advance(&mut self, event: RegistrationEvent) -> (r: RegistrationAction)
        requires
            old(self).wf(),
            registration_expects(old(self).failure is Some, old(self).index, event),
        ensures
            final(self).wf(),
            match old(self).failure {
                None => match event {
                    RegistrationEvent::Registered => if old(self).index + 1 < 2 {
                        r == RegistrationAction::Register((old(self).index + 1) as usize)
                            && final(self).index == old(self).index + 1 && final(self).failure is None
                    } else {
                        r == RegistrationAction::Finish(Ok(()))
                    },
                    RegistrationEvent::RegisterFailed { hotkey, error } => {
                        let message = "failed to register "@ + hotkey@ + ": "@ + error@;
                        if old(self).index == 0 {
                            r matches RegistrationAction::Finish(Err(m)) && m@ == message
                        } else {
                            r == RegistrationAction::Unregister((old(self).index - 1) as usize)
                                && final(self).index == old(self).index - 1
                                && (final(self).failure matches Some(m) && m@ == message)
                        }
                    },
                    RegistrationEvent::Unregistered => false,
                },
                Some(m) => if old(self).index == 0 {
                    r == RegistrationAction::Finish(Err(m))
                } else {
                    r == RegistrationAction::Unregister((old(self).index - 1) as usize)
                        && final(self).index == old(self).index - 1 && final(self).failure
                        == Some(m)
                },
            },
    {
        match self.failure.take() {
            None => match event {
                RegistrationEvent::Registered => {
                    if self.index + 1 < 2 {
                        self.index = self.index + 1;
                        RegistrationAction::Register(self.index)
                    } else {
                        RegistrationAction::Finish(Ok(()))
                    }
                },
                RegistrationEvent::RegisterFailed { hotkey, error } => {
                    let mut message = concat3("failed to register ", hotkey.as_str(), ": ");
                    message.append(error.as_str());
                    if self.index == 0 {
                        RegistrationAction::Finish(Err(message))
                    } else {
                        self.index = self.index - 1;
                        self.failure = Some(message);
                        RegistrationAction::Unregister(self.index)
                    }
                },
                RegistrationEvent::Unregistered => RegistrationAction::Finish(Ok(())),
            },
            Some(m) => {
                if self.index == 0 {
                    RegistrationAction::Finish(Err(m))
                } else {
                    self.index = self.index - 1;
                    self.failure = Some(m);
                    RegistrationAction::Unregister(self.index)
                }
            },
        }
    }
}

/// Which of the two route sets a reload step concerns.
#[derive(Clone, Copy, Debug, PartialEq, Eq, Structural)]
pub enum RouteSet {
    Previous,
    Next,
}

/// What replacing the registered hotkeys asks to be done next.
#[derive(Debug)]
pub enum ReloadAction {
    /// Unregister the hotkeys of the current routes.
    UnregisterPrevious,
    /// Register the hotkeys of this set (all or none).
    Register(RouteSet),
    /// Install the new routes.
    InstallNext,
    /// The reload is over.
    Finish(Result<(), String>),
}

/// What happened at the step a reload waits on.
#[derive(Debug)]
pub enum ReloadEvent {
    Unregistered(Result<(), String>),
    Registered(Result<(), String>),
    Installed(Result<(), String>),
}

/// Where replacing the registered hotkeys stands.
#[derive(Debug)]
pub enum ReloadPhase {
    UnregisteringPrevious,
    RegisteringNext,
    /// The new hotkeys failed with this error; the previous ones are being put back.
    RestoringPrevious(String),
    InstallingNext,
    Done,
}

/// Replacing the registered hotkeys with new ones.
#[derive(Debug)]
pub struct HotkeyReload {
    pub phase: ReloadPhase,
}

/// Whether `event` is the one `phase` waits on.
pub open spec fn reload_expects(phase: ReloadPhase, event: ReloadEvent) -> bool {
    match phase {
        ReloadPhase::UnregisteringPrevious => event is Unregistered,
        ReloadPhase::RegisteringNext => event is Registered,
        ReloadPhase::RestoringPrevious(_) => event is Registered,
        ReloadPhase::InstallingNext => event is Installed,
        ReloadPhase::Done => false,
    }
}

impl HotkeyReload {
    /// Starts replacing the `previous` routes with `next`: nothing to do when
    /// they register the same hotkeys, else the previous ones are unregistered
    /// first.
    pub fn start(previous: &[HotkeyRoute; 2], next: &[HotkeyRoute; 2]) -> (r: (Self, ReloadAction))
        ensures
            (previous@[0].hotkey_id == next@[0].hotkey_id && previous@[1].hotkey_id
                == next@[1].hotkey_id) ==> r.1 == ReloadAction::Finish(Ok(())),
            !(previous@[0].hotkey_id == next@[0].hotkey_id && previous@[1].hotkey_id
                == next@[1].hotkey_id) ==> r.1 == ReloadAction::UnregisterPrevious
                && r.0.phase is UnregisteringPrevious,
    {
        if same_hotkeys(previous, next) {
            (HotkeyReload { phase: ReloadPhase::Done }, ReloadAction::Finish(Ok(())))
        } else {
            (
                HotkeyReload { phase: ReloadPhase::UnregisteringPrevious },
                ReloadAction::UnregisterPrevious,
            )
        }
    }

    /// Whether `event` is the one this reload waits on.
    pub fn expects(&self, event: &ReloadEvent) -> (r: bool)
        ensures
            r == reload_expects(self.phase, *event),
    {
        match self.phase {
            ReloadPhase::UnregisteringPrevious => matches!(event, ReloadEvent::Unregistered(_)),
            ReloadPhase::RegisteringNext => matches!(event, ReloadEvent::Registered(_)),
            ReloadPhase::RestoringPrevious(_) => matches!(event, ReloadEvent::Registered(_)),
            ReloadPhase::InstallingNext => matches!(event, ReloadEvent::Installed(_)),
            ReloadPhase::Done => false,
        }
    }

    /// Takes the event the reload waits on. A failed unregistration ends it
    /// with that error; new hotkeys that fail to register are replaced by the
    /// previous ones again and the error reported (with the restore's error
    /// when that fails too); registered new hotkeys are installed.
    pub fn advance(&mut self, event: ReloadEvent) -> (r: ReloadAction)
        requires
            reload_expects(old(self).phase, event),
        ensures
            final(self).phase is Done <==> r is Finish,
            match (old(self).phase, event) {
                (ReloadPhase::UnregisteringPrevious, ReloadEvent::Unregistered(u)) => match u {
                    Err(e) => r == ReloadAction::Finish(Err(e)),
                    Ok(_) => r == ReloadAction::Register(RouteSet::Next) && final(self).phase is RegisteringNext,
                },
                (ReloadPhase::RegisteringNext, ReloadEvent::Registered(g)) => match g {
                    Ok(_) => r == ReloadAction::InstallNext && final(self).phase is InstallingNext,
                    Err(e) => r == ReloadAction::Register(RouteSet::Previous) && final(self).phase
                        == ReloadPhase::RestoringPrevious(e),
                },
                (ReloadPhase::RestoringPrevious(e), ReloadEvent::Registered(g)) => r matches ReloadAction::Finish(Err(m))
                    && m@ == (match g {
                    Ok(_) => "failed to register new hotkeys: "@ + e@,
                    Err(f) => "failed to register new hotkeys: "@ + e@
                        + "; also failed to restore previous hotkeys: "@ + f@,
                }),
                (ReloadPhase::InstallingNext, ReloadEvent::Installed(i)) => r == ReloadAction::Finish(i),
                _ => false,
            },
    {
        let mut phase = ReloadPhase::Done;
        std::mem::swap(&mut phase, &mut self.phase);
        match (phase, event) {
            (ReloadPhase::UnregisteringPrevious, ReloadEvent::Unregistered(u)) => match u {
                Err(e) => ReloadAction::Finish(Err(e)),
                Ok(_) => {
                    self.phase = ReloadPhase::RegisteringNext;
                    ReloadAction::Register(RouteSet::Next)
                },
            },
            (ReloadPhase::RegisteringNext, ReloadEvent::Registered(g)) => match g {
                Ok(_) => {
                    self.phase = ReloadPhase::InstallingNext;
                    ReloadAction::InstallNext
                },
                Err(e) => {
                    self.phase = ReloadPhase::RestoringPrevious(e);
                    ReloadAction::Register(RouteSet::Previous)
                },
            },
            (ReloadPhase::RestoringPrevious(e), ReloadEvent::Registered(g)) => {
                let restore_error = match &g {
                    Ok(_) => None,
                    Err(f) => Some(f.as_str()),
                };
                ReloadAction::Finish(Err(reload_failure_message(e.as_str(), restore_error)))
            },
            (ReloadPhase::InstallingNext, ReloadEvent::Installed(i)) => ReloadAction::Finish(i),
            (p, _) => {
                self.phase = p;
                ReloadAction::Finish(Ok(()))
            },
        }
    }
}

/// What a released hotkey leads to.
#[derive(Clone, Copy, Debug, PartialEq, Eq, Structural)]
pub enum HotkeyDecision {
    /// Shortcut recording is on: hotkeys are paused.
    IgnoredRecording,
    /// Too soon after the previous press.
    IgnoredDebounce,
    /// A capture is already running.
    IgnoredBusy,
    /// A capture starts.
    Start,
}

/// The state that decides whether a hotkey press starts a capture.
#[derive(Clone, Copy, Debug)]
pub struct HotkeyGate {
    pub recording_active: bool,
    pub last_trigger_ms: u64,
    pub capture_in_progress: bool,
}

/// Whether a press at `now_ms` comes too soon after the one at `last_ms`
/// (0 meaning no press yet); a clock that went back counts as no time passed.
pub open spec fn debounced(last_ms: u64, now_ms: u64) -> bool {
    last_ms != 0 && (if now_ms >= last_ms {
        now_ms - last_ms
    } else {
        0
    }) < DEBOUNCE_MS
}

/// The decision for a hotkey released at `now_ms`, and the state after it.
/// Recording pauses everything and records nothing; otherwise the press time is
/// always recorded, then the debounce and a running capture are checked.
pub open spec fn press_spec(g: HotkeyGate, now_ms: u64) -> (HotkeyGate, HotkeyDecision) {
    if g.recording_active {
        (g, HotkeyDecision::IgnoredRecording)
    } else if debounced(g.last_trigger_ms, now_ms) {
        (HotkeyGate { last_trigger_ms: now_ms, ..g }, HotkeyDecision::IgnoredDebounce)
    } else if g.capture_in_progress {
        (HotkeyGate { last_trigger_ms: now_ms, ..g }, HotkeyDecision::IgnoredBusy)
    } else {
        (
            HotkeyGate { last_trigger_ms: now_ms, capture_in_progress: true, ..g },
            HotkeyDecision::Start,
        )
    }
}

impl HotkeyGate {
    /// No recording, no press yet, no capture.
    pub fn new() -> (r: Self)
        ensures
            !r.recording_active,
            r.last_trigger_ms == 0,
            !r.capture_in_progress,
    {
        HotkeyGate { recording_active: false, last_trigger_ms: 0, capture_in_progress: false }
    }

    /// Pauses or resumes hotkeys while the user records a new shortcut.
    pub fn set_recording_active(&mut self, active: bool)
        ensures
            *final(self) == (HotkeyGate { recording_active: active, ..*old(self) }),
    {
        self.recording_active = active;
    }

    /// Records a press at `now_ms` and says whether it came too soon after the
    /// previous one.
    pub fn is_debounced(&mut self, now_ms: u64) -> (r: bool)
        ensures
            r == debounced(old(self).last_trigger_ms, now_ms),
            *final(self) == (HotkeyGate { last_trigger_ms: now_ms, ..*old(self) }),
    {
        let previous = self.last_trigger_ms;
        self.last_trigger_ms = now_ms;
        previous != 0 && now_ms.saturating_sub(previous) < DEBOUNCE_MS
    }

    /// Decides what a hotkey released at `now_ms` does.
    pub fn on_hotkey_released(&mut self, now_ms: u64) -> (r: HotkeyDecision)
        ensures
            (*final(self), r) == press_spec(*old(self), now_ms),
    {
        if self.recording_active {
            return HotkeyDecision::IgnoredRecording;
        }
        if self.is_debounced(now_ms) {
            return HotkeyDecision::IgnoredDebounce;
        }
        if self.capture_in_progress {
            return HotkeyDecision::IgnoredBusy;
        }
        self.capture_in_progress = true;
        HotkeyDecision::Start
    }

    /// After the hotkey's keys are up: whether the capture goes on. When
    /// recording started meanwhile it is cancelled and the capture slot freed.
    pub fn after_release_wait(&mut self) -> (r: bool)
        ensures
            r == !old(self).recording_active,
            *final(self) == (if old(self).recording_active {
                HotkeyGate { capture_in_progress: false, ..*old(self) }
            } else {
                *old(self)
            }),
    {
        if self.recording_active {
            self.capture_in_progress = false;
            false
        } else {
            true
        }
    }

    /// The capture ended, whatever its outcome.
    pub fn finish_capture(&mut self)
        ensures
            *final(self) == (HotkeyGate { capture_in_progress: false, ..*old(self) }),
    {
        self.capture_in_progress = false;
    }
}

/// While a capture runs, no press starts another; the capture stays claimed.
pub proof fn law_one_capture_at_a_time(g: HotkeyGate, now_ms: u64)
    requires
        g.capture_in_progress,
    ensures
        press_spec(g, now_ms).1 != HotkeyDecision::Start,
        press_spec(g, now_ms).0.capture_in_progress,
{
}

/// A press that starts a capture found none running and claims the slot.
pub proof fn law_start_claims_capture(g: HotkeyGate, now_ms: u64)
    ensures
        press_spec(g, now_ms).1 == HotkeyDecision::Start <==> (!g.recording_active && !debounced(
            g.last_trigger_ms,
            now_ms,
        ) && !g.capture_in_progress),
        press_spec(g, now_ms).1 == HotkeyDecision::Start ==> press_spec(
            g,
            now_ms,
        ).0.capture_in_progress,
{
}

/// While shortcut recording is on, presses are ignored and change nothing.
pub proof fn law_recording_pauses_hotkeys(g: HotkeyGate, now_ms: u64)
    requires
        g.recording_active,
    ensures
        press_spec(g, now_ms) == (g, HotkeyDecision::IgnoredRecording),
{
}

/// A second press less than the debounce interval after a counted one is
/// ignored, whatever else happened in between.
pub proof fn law_debounce(g: HotkeyGate, first_ms: u64, second_ms: u64)
    requires
        !g.recording_active,
        first_ms != 0,
        first_ms <= second_ms < first_ms + DEBOUNCE_MS,
    ensures
        press_spec(press_spec(g, first_ms).0, second_ms).1 == HotkeyDecision::IgnoredDebounce,
{
}

/// Once a capture finishes, the next press that is neither paused nor too soon
/// starts a new one.
pub proof fn law_finish_frees_capture(g: HotkeyGate, now_ms: u64)
    requires
        !g.recording_active,
        !debounced(g.last_trigger_ms, now_ms),
    ensures
        press_spec(HotkeyGate { capture_in_progress: false, ..g }, now_ms).1
            == HotkeyDecision::Start,
{
}

} // verus!
