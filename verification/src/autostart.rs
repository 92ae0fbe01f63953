//! Launch at login: the argument that marks an automatic start, and the steps
//! of turning the login entry on or off.

use vstd::prelude::*;

use crate::text::{concat, concat3, str_eq};

verus! {

/// The argument the login entry starts the app with.
pub const FROM_AUTOSTART_ARG: &'static str = "--from-autostart";

/// Whether the app was started by its login entry: one of its arguments is
/// exactly the autostart argument.
pub fn started_from_autostart_args(args: &[&str]) -> (r: bool)
    ensures
        r == exists|i: int| 0 <= i < args@.len() && args@[i]@ == FROM_AUTOSTART_ARG@,
{
    let mut i: usize = 0;
    while i < args.len()
        invariant
            i <= args@.len(),
            forall|j: int| 0 <= j < i ==> args@[j]@ != FROM_AUTOSTART_ARG@,
        decreases args@.len() - i,
    {
        if str_eq(args[i], FROM_AUTOSTART_ARG) {
            return true;
        }
        i = i + 1;
    }
    false
}

/// Whether the login entry is rewritten at startup: only when reading its
/// state says it is on (so that it points at the current executable).
pub fn should_refresh_entry(enabled_state: Result<bool, String>) -> (r: bool)
    ensures
        r == (enabled_state == Ok::<bool, String>(true)),
{
    match enabled_state {
        Ok(b) => b,
        Err(_) => false,
    }
}

/// The word for the change asked for.
pub open spec fn change_word(enabled: bool) -> Seq<char> {
    if enabled {
        "enable"@
    } else {
        "disable"@
    }
}

/// Where turning the login entry on or off stands.
#[derive(Clone, Debug)]
pub enum TogglePhase {
    /// Turning it on: first see whether it already is.
    CheckingBeforeEnable,
    /// Turning it on.
    Enabling,
    /// Turning it off.
    Disabling,
    /// Turning it off failed with this error: see whether it is off anyway.
    CheckingAfterFailedDisable(String),
    /// The change was made: read the state it left.
    CheckingResult,
    /// Nothing is left to do.
    Done,
}

/// What the toggle asks to be done next.
#[derive(Debug)]
pub enum ToggleAction {
    /// Read whether the entry is on.
    QueryEnabled,
    /// Turn the entry on.
    Enable,
    /// Turn the entry off.
    Disable,
    /// The outcome: the state reached, or the error.
    Finish(Result<bool, String>),
}

/// What happened at the step the toggle waits on.
#[derive(Debug)]
pub enum ToggleEvent {
    /// The state was read, or could not be.
    Queried(Result<bool, String>),
    /// The entry was turned on or off, or could not be.
    Changed(Result<(), String>),
}

/// Turning the login entry on (`enabled`) or off.
#[derive(Debug)]
pub struct AutostartToggle {
    pub enabled: bool,
    pub phase: TogglePhase,
}

/// Whether `event` is the one `phase` waits on.
pub open spec fn toggle_expects(phase: TogglePhase, event: ToggleEvent) -> bool {
    match phase {
        TogglePhase::CheckingBeforeEnable => event is Queried,
        TogglePhase::Enabling => event is Changed,
        TogglePhase::Disabling => event is Changed,
        TogglePhase::CheckingAfterFailedDisable(_) => event is Queried,
        TogglePhase::CheckingResult => event is Queried,
        TogglePhase::Done => false,
    }
}

impl AutostartToggle {
    /// The phases that only turning on, or only turning off, goes through.
    pub open spec fn wf(&self) -> bool {
        match self.phase {
            TogglePhase::CheckingBeforeEnable => self.enabled,
            TogglePhase::Enabling => self.enabled,
            TogglePhase::Disabling => !self.enabled,
            TogglePhase::CheckingAfterFailedDisable(_) => !self.enabled,
            _ => true,
        }
    }

    /// Starts turning the entry on (`enabled`) or off, with the first action.
    pub fn start(enabled: bool) -> (r: (Self, ToggleAction))
        ensures
            r.0.wf(),
            r.0.enabled == enabled,
            enabled ==> r.0.phase == TogglePhase::CheckingBeforeEnable && r.1
                == ToggleAction::QueryEnabled,
            !enabled ==> r.0.phase == TogglePhase::Disabling && r.1 == ToggleAction::Disable,
    {
        if enabled {
            (
                AutostartToggle { enabled, phase: TogglePhase::CheckingBeforeEnable },
                ToggleAction::QueryEnabled,
            )
        } else {
            (AutostartToggle { enabled, phase: TogglePhase::Disabling }, ToggleAction::Disable)
        }
    }

    /// Whether `event` is the one this toggle waits on.
    pub fn expects(&self, event: &ToggleEvent) -> (r: bool)
        ensures
            r == toggle_expects(self.phase, *event),
    {
        match self.phase {
            TogglePhase::CheckingBeforeEnable => matches!(event, ToggleEvent::Queried(_)),
            TogglePhase::Enabling => matches!(event, ToggleEvent::Changed(_)),
            TogglePhase::Disabling => matches!(event, ToggleEvent::Changed(_)),
            TogglePhase::CheckingAfterFailedDisable(_) => matches!(event, ToggleEvent::Queried(_)),
            TogglePhase::CheckingResult => matches!(event, ToggleEvent::Queried(_)),
            TogglePhase::Done => false,
        }
    }

    /// Takes the event the toggle waits on and says what to do next.
    ///
    /// Turning on is skipped when the entry already is on. A failed enable is
    /// reported at once. A failed disable still succeeds when the entry turns
    /// out to be off. After a change the state is read again (an unreadable
    /// state counts as the one asked for), and a state other than the one
    /// asked for is an error.
    pub fn advance(&mut self, event: ToggleEvent) -> (r: ToggleAction)
        requires
            old(self).wf(),
            toggle_expects(old(self).phase, event),
        ensures
            final(self).wf(),
            final(self).enabled == old(self).enabled,
            r matches ToggleAction::Finish(Ok(state)) ==> state == old(self).enabled,
            final(self).phase == TogglePhase::Done <==> r is Finish,
            match (old(self).phase, event) {
                (TogglePhase::CheckingBeforeEnable, ToggleEvent::Queried(q)) => if q
                    == Ok::<bool, String>(true) {
                    r == ToggleAction::Finish(Ok(true))
                } else {
                    r == ToggleAction::Enable && final(self).phase == TogglePhase::Enabling
                },
                (TogglePhase::Enabling, ToggleEvent::Changed(c)) => match c {
                    Err(e) => r matches ToggleAction::Finish(Err(m)) && m@
                        == "failed to enable launch-at-login: "@ + e@,
                    Ok(_) => r == ToggleAction::QueryEnabled && final(self).phase
                        == TogglePhase::CheckingResult,
                },
                (TogglePhase::Disabling, ToggleEvent::Changed(c)) => match c {
                    Err(e) => r == ToggleAction::QueryEnabled && final(self).phase
                        == TogglePhase::CheckingAfterFailedDisable(e),
                    Ok(_) => r == ToggleAction::QueryEnabled && final(self).phase
                        == TogglePhase::CheckingResult,
                },
                (TogglePhase::CheckingAfterFailedDisable(e), ToggleEvent::Queried(q)) => if q
                    == Ok::<bool, String>(false) {
                    r == ToggleAction::Finish(Ok(false))
                } else {
                    r matches ToggleAction::Finish(Err(m)) && m@
                        == "failed to disable launch-at-login: "@ + e@
                },
                (TogglePhase::CheckingResult, ToggleEvent::Queried(q)) => {
                    let state = match q {
                        Ok(b) => b,
                        Err(_) => old(self).enabled,
                    };
                    if state == old(self).enabled {
                        r == ToggleAction::Finish(Ok(state))
                    } else {
                        r matches ToggleAction::Finish(Err(m)) && m@ == "failed to "@
                            + change_word(old(self).enabled)
                            + " launch-at-login: system state did not change"@
                    }
                },
                _ => false,
            },
    {
        let mut phase = TogglePhase::Done;
        std::mem::swap(&mut phase, &mut self.phase);
        match (phase, event) {
            (TogglePhase::CheckingBeforeEnable, ToggleEvent::Queried(q)) => {
                if let Ok(true) = q {
                    ToggleAction::Finish(Ok(true))
                } else {
                    self.phase = TogglePhase::Enabling;
                    ToggleAction::Enable
                }
            },
            (TogglePhase::Enabling, ToggleEvent::Changed(c)) => match c {
                Err(e) => ToggleAction::Finish(
                    Err(concat("failed to enable launch-at-login: ", e.as_str())),
                ),
                Ok(_) => {
                    self.phase = TogglePhase::CheckingResult;
                    ToggleAction::QueryEnabled
                },
            },
            (TogglePhase::Disabling, ToggleEvent::Changed(c)) => match c {
                Err(e) => {
                    self.phase = TogglePhase::CheckingAfterFailedDisable(e);
                    ToggleAction::QueryEnabled
                },
                Ok(_) => {
                    self.phase = TogglePhase::CheckingResult;
                    ToggleAction::QueryEnabled
                },
            },
            (TogglePhase::CheckingAfterFailedDisable(e), ToggleEvent::Queried(q)) => {
                if let Ok(false) = q {
                    ToggleAction::Finish(Ok(false))
                } else {
                    ToggleAction::Finish(
                        Err(concat("failed to disable launch-at-login: ", e.as_str())),
                    )
                }
            },
            (TogglePhase::CheckingResult, ToggleEvent::Queried(q)) => {
                let state = match q {
                    Ok(b) => b,
                    Err(_) => self.enabled,
                };
                if state == self.enabled {
                    ToggleAction::Finish(Ok(state))
                } else {
                    let word = if self.enabled {
                        "enable"
                    } else {
                        "disable"
                    };
                    ToggleAction::Finish(
                        Err(
                            concat3(
                                "failed to ",
                                word,
                                " launch-at-login: system state did not change",
                            ),
                        ),
                    )
                }
            },
            (p, _) => {
                self.phase = p;
                ToggleAction::Finish(Ok(self.enabled))
            },
        }
    }
}

} // verus!
