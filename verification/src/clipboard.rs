//! Reading the selection through the clipboard: the sentinel written before the
//! copy, the steps of a capture, how each clipboard read is judged, and what a
//! capture or a paste finally reports.

use vstd::prelude::*;

use crate::selection::{SelectionError, SelectionMode};
use crate::text::{concat, concat3, decimal, decimal_string, str_eq, trim_class, trim_seq, CharClass};

verus! {

/// How many times the copy shortcut is sent before giving up.
pub const COPY_ATTEMPTS: usize = 3;

/// The steps of a clipboard capture, in order.
#[derive(Clone, Copy, Debug, PartialEq, Eq, Structural)]
pub enum ClipboardCaptureStep {
    BackupOriginal,
    PrepareSentinel,
    TriggerCopy,
    RestoreOriginal,
    ValidateSelection,
    Complete,
}

/// The text written to the clipboard before the copy, unique to the moment
/// `now_nanos` it was made at, so that a copy that changed nothing is seen.
pub open spec fn sentinel_spec(now_nanos: u128) -> Seq<char> {
    "__SHANKA_COPY_SENTINEL_"@ + decimal(now_nanos as nat) + "__"@
}

/// Clipboard text with the NUL characters around it removed.
pub fn normalize_clipboard_text(text: String) -> (r: String)
    ensures
        r@ == trim_seq(text@, CharClass::Nul),
{
    trim_class(text.as_str(), CharClass::Nul)
}

/// Why the clipboard's text could not be read.
#[derive(Clone, Debug)]
pub enum ClipboardReadFailure {
    /// The clipboard holds no text.
    ContentNotAvailable,
    /// Any other failure, with its description.
    Other(String),
}

/// A clipboard error with its context: `"{context}: {error}"`.
pub fn clipboard_failure(context: &str, error: &str) -> (r: SelectionError)
    ensures
        r matches SelectionError::Clipboard(m) && m@ == context@ + ": "@ + error@,
{
    SelectionError::Clipboard(concat3(context, ": ", error))
}

/// What one read of the clipboard's text gives: the text without surrounding
/// NULs; no text selected when the clipboard holds no text; else the failure.
pub fn clipboard_read_outcome(read: Result<String, ClipboardReadFailure>) -> (r: Result<
    String,
    SelectionError,
>)
    ensures
        match read {
            Ok(t) => r matches Ok(u) && u@ == trim_seq(t@, CharClass::Nul),
            Err(ClipboardReadFailure::ContentNotAvailable) => r matches Err(
                SelectionError::NoTextSelected,
            ),
            Err(ClipboardReadFailure::Other(m)) => r matches Err(SelectionError::Clipboard(c))
                && c@ == "failed to read copied selection as text: "@ + m@,
        },
{
    match read {
        Ok(text) => Ok(normalize_clipboard_text(text)),
        Err(ClipboardReadFailure::ContentNotAvailable) => Err(SelectionError::NoTextSelected),
        Err(ClipboardReadFailure::Other(m)) => Err(
            SelectionError::Clipboard(concat("failed to read copied selection as text: ", m.as_str())),
        ),
    }
}

/// Whether `text` is a real selection: not empty and not the sentinel.
pub open spec fn is_selection(text: Seq<char>, sentinel: Seq<char>) -> bool {
    text.len() > 0 && text != sentinel
}

/// One poll of the clipboard while waiting for the copied text: the text when
/// it is a real selection (`Ok`), else the error that the wait keeps as its
/// latest (`Err`): no text selected for an empty clipboard or the sentinel,
/// the read's own error otherwise.
pub fn copied_text_poll(read: Result<String, SelectionError>, sentinel: &str) -> (r: Result<
    String,
    SelectionError,
>)
    ensures
        match read {
            Ok(t) => if is_selection(t@, sentinel@) {
                r == Ok::<String, SelectionError>(t)
            } else {
                r matches Err(SelectionError::NoTextSelected)
            },
            Err(e) => r == Err::<String, SelectionError>(e),
        },
{
    match read {
        Ok(text) => {
            if text.unicode_len() > 0 && !str_eq(text.as_str(), sentinel) {
                Ok(text)
            } else {
                Err(SelectionError::NoTextSelected)
            }
        },
        Err(error) => Err(error),
    }
}

/// One poll of the clipboard while waiting for it to hold `expected`: done
/// (`Ok`) when it does, else the error that the wait keeps as its latest.
pub fn clipboard_contains_poll(read: Result<String, SelectionError>, expected: &str) -> (r: Result<
    (),
    SelectionError,
>)
    ensures
        match read {
            Ok(t) => if t@ == expected@ {
                r is Ok
            } else {
                r matches Err(SelectionError::NoTextSelected)
            },
            Err(e) => r == Err::<(), SelectionError>(e),
        },
{
    match read {
        Ok(text) => {
            if str_eq(text.as_str(), expected) {
                Ok(())
            } else {
                Err(SelectionError::NoTextSelected)
            }
        },
        Err(error) => Err(error),
    }
}

/// After copy attempt `attempt` (counted from 1): the outcome of the whole
/// copy when it is decided (`Some`), or `None` to try again. Copied text ends
/// it; a failure ends it only on the last attempt (or later), with that failure.
pub fn after_copy_attempt(attempt: usize, result: Result<String, SelectionError>) -> (r: Option<
    Result<String, SelectionError>,
>)
    ensures
        match result {
            Ok(t) => r == Some(Ok::<String, SelectionError>(t)),
            Err(e) => if attempt < COPY_ATTEMPTS {
                r is None
            } else {
                r == Some(Err::<String, SelectionError>(e))
            },
        },
{
    match result {
        Ok(text) => Some(Ok(text)),
        Err(error) => {
            if attempt < COPY_ATTEMPTS {
                None
            } else {
                Some(Err(error))
            }
        },
    }
}

/// What happened at the step a capture waits on.
#[derive(Debug)]
pub enum CaptureEvent {
    /// The original clipboard was read (or could not be).
    BackupRead(Result<(), SelectionError>),
    /// The sentinel was written (or could not be).
    SentinelWritten(Result<(), SelectionError>),
    /// The copy attempts ended with this text or error.
    CopyFinished(Result<String, SelectionError>),
    /// The original clipboard was put back (or could not be).
    Restored(Result<(), SelectionError>),
}

/// What a capture asks to be done next.
#[derive(Debug)]
pub enum CaptureAction {
    WriteSentinel,
    TriggerCopy,
    RestoreOriginal,
    /// The capture is over, with the selected text or the error.
    Finish(Result<String, SelectionError>),
}

/// A clipboard capture in progress: the mode it reads for, its sentinel, the
/// step it is at, and what the copy gave once it is known.
#[derive(Debug)]
pub struct ClipboardCaptureMachine {
    pub mode: SelectionMode,
    pub sentinel: String,
    pub step: ClipboardCaptureStep,
    pub copied: Option<Result<String, SelectionError>>,
}

/// Whether `event` is the one that `step` waits on.
pub open spec fn expects(step: ClipboardCaptureStep, event: CaptureEvent) -> bool {
    match step {
        ClipboardCaptureStep::BackupOriginal => event is BackupRead,
        ClipboardCaptureStep::PrepareSentinel => event is SentinelWritten,
        ClipboardCaptureStep::TriggerCopy => event is CopyFinished,
        ClipboardCaptureStep::RestoreOriginal => event is Restored,
        _ => false,
    }
}

/// What a capture reports once the original clipboard is back: the restore's
/// error first, then the copy's, then no text selected when what was copied is
/// empty or the sentinel, else the copied text.
pub open spec fn finish_spec(
    copied: Result<String, SelectionError>,
    restored: Result<(), SelectionError>,
    sentinel: Seq<char>,
) -> Result<String, SelectionError> {
    match restored {
        Err(e) => Err(e),
        Ok(_) => match copied {
            Err(e) => Err(e),
            Ok(t) => if is_selection(t@, sentinel) {
                Ok(t)
            } else {
                Err(SelectionError::NoTextSelected)
            },
        },
    }
}

impl ClipboardCaptureMachine {
    /// The well-formed states: the copy's outcome is held exactly while the
    /// original clipboard is being restored.
    pub open spec fn wf(&self) -> bool {
        (self.step == ClipboardCaptureStep::RestoreOriginal) == (self.copied is Some)
    }

    /// A capture for `mode` made at `now_nanos`; it starts by backing up the
    /// clipboard.
    pub fn new(mode: SelectionMode, now_nanos: u128) -> (r: Self)
        ensures
            r.wf(),
            r.mode == mode,
            r.sentinel@ == sentinel_spec(now_nanos),
            r.step == ClipboardCaptureStep::BackupOriginal,
    {
        let digits = decimal_string(now_nanos);
        ClipboardCaptureMachine {
            mode,
            sentinel: concat3("__SHANKA_COPY_SENTINEL_", digits.as_str(), "__"),
            step: ClipboardCaptureStep::BackupOriginal,
            copied: None,
        }
    }

    /// Whether `event` is the one this capture waits on.
    pub fn expects_event(&self, event: &CaptureEvent) -> (r: bool)
        ensures
            r == expects(self.step, *event),
    {
        match self.step {
            ClipboardCaptureStep::BackupOriginal => matches!(event, CaptureEvent::BackupRead(_)),
            ClipboardCaptureStep::PrepareSentinel => matches!(event, CaptureEvent::SentinelWritten(_)),
            ClipboardCaptureStep::TriggerCopy => matches!(event, CaptureEvent::CopyFinished(_)),
            ClipboardCaptureStep::RestoreOriginal => matches!(event, CaptureEvent::Restored(_)),
            _ => false,
        }
    }

    /// Takes the event the capture waits on and says what to do next. A failed
    /// backup or sentinel write ends the capture with its error, before the
    /// clipboard was touched; once the copy was tried, the original clipboard
    /// is always restored before the capture reports.
    pub fn advance(&mut self, event: CaptureEvent) -> (r: CaptureAction)
        requires
            old(self).wf(),
            expects(old(self).step, event),
        ensures
            final(self).wf(),
            final(self).mode == old(self).mode,
            final(self).sentinel == old(self).sentinel,
            match event {
                CaptureEvent::BackupRead(Err(e)) => r == CaptureAction::Finish(Err(e))
                    && final(self).step == ClipboardCaptureStep::Complete,
                CaptureEvent::BackupRead(Ok(_)) => r is WriteSentinel && final(self).step
                    == ClipboardCaptureStep::PrepareSentinel,
                CaptureEvent::SentinelWritten(Err(e)) => r == CaptureAction::Finish(Err(e))
                    && final(self).step == ClipboardCaptureStep::Complete,
                CaptureEvent::SentinelWritten(Ok(_)) => r is TriggerCopy && final(self).step
                    == ClipboardCaptureStep::TriggerCopy,
                CaptureEvent::CopyFinished(c) => r is RestoreOriginal && final(self).step
                    == ClipboardCaptureStep::RestoreOriginal && final(self).copied == Some(c),
                CaptureEvent::Restored(x) => r == CaptureAction::Finish(
                    finish_spec(old(self).copied.unwrap(), x, old(self).sentinel@),
                ) && final(self).step == ClipboardCaptureStep::Complete,
            },
    {
        match event {
            CaptureEvent::BackupRead(Err(e)) => {
                self.step = ClipboardCaptureStep::Complete;
                CaptureAction::Finish(Err(e))
            },
            CaptureEvent::BackupRead(Ok(_)) => {
                self.step = ClipboardCaptureStep::PrepareSentinel;
                CaptureAction::WriteSentinel
            },
            CaptureEvent::SentinelWritten(Err(e)) => {
                self.step = ClipboardCaptureStep::Complete;
                CaptureAction::Finish(Err(e))
            },
            CaptureEvent::SentinelWritten(Ok(_)) => {
                self.step = ClipboardCaptureStep::TriggerCopy;
                CaptureAction::TriggerCopy
            },
            CaptureEvent::CopyFinished(c) => {
                self.step = ClipboardCaptureStep::RestoreOriginal;
                self.copied = Some(c);
                CaptureAction::RestoreOriginal
            },
            CaptureEvent::Restored(x) => {
                let copied = self.copied.take();
                self.step = ClipboardCaptureStep::Complete;
                let copied = match copied {
                    Some(c) => c,
                    None => {
                        return CaptureAction::Finish(Err(SelectionError::NoTextSelected));
                    },
                };
                CaptureAction::Finish(self.finish(copied, x))
            },
        }
    }

    /// What the capture reports once the original clipboard is back.
    pub fn finish(&self, copied: Result<String, SelectionError>, restored: Result<
        (),
        SelectionError,
    >) -> (r: Result<String, SelectionError>)
        ensures
            r == finish_spec(copied, restored, self.sentinel@),
    {
        match restored {
            Err(e) => Err(e),
            Ok(_) => match copied {
                Err(e) => Err(e),
                Ok(t) => {
                    if t.unicode_len() > 0 && !str_eq(t.as_str(), self.sentinel.as_str()) {
                        Ok(t)
                    } else {
                        Err(SelectionError::NoTextSelected)
                    }
                },
            },
        }
    }
}

/// A capture never reports an empty selection or its own sentinel.
pub proof fn law_capture_never_returns_sentinel(
    copied: Result<String, SelectionError>,
    restored: Result<(), SelectionError>,
    sentinel: Seq<char>,
)
    ensures
        finish_spec(copied, restored, sentinel) matches Ok(t) ==> t@.len() > 0 && t@ != sentinel,
{
}

/// Once the original clipboard is back, a capture returns exactly the text
/// that was copied whenever it is not empty and not the sentinel, whatever
/// characters it holds (line breaks, spaces, any script).
pub proof fn law_capture_returns_the_copied_text(t: String, sentinel: Seq<char>)
    ensures
        t@.len() > 0 && t@ != sentinel ==> finish_spec(
            Ok::<String, SelectionError>(t),
            Ok::<(), SelectionError>(()),
            sentinel,
        ) == Ok::<String, SelectionError>(t),
        t@.len() > 0 && t@ != sentinel <==> is_selection(t@, sentinel),
{
}

/// A capture whose copy failed reports the copy's error once the original
/// clipboard is back, and one that copied an empty clipboard or the sentinel
/// reports that no text was selected.
pub proof fn law_capture_reports_what_went_wrong(
    copied: Result<String, SelectionError>,
    sentinel: Seq<char>,
)
    ensures
        copied matches Err(e) ==> finish_spec(copied, Ok::<(), SelectionError>(()), sentinel)
            == Err::<String, SelectionError>(e),
        copied matches Ok(t) && (t@.len() == 0 || t@ == sentinel) ==> finish_spec(
            copied,
            Ok::<(), SelectionError>(()),
            sentinel,
        ) matches Err(SelectionError::NoTextSelected),
{
}

/// A failed restore of the original clipboard is always reported, whatever the
/// copy gave.
pub proof fn law_restore_failure_is_reported(
    copied: Result<String, SelectionError>,
    e: SelectionError,
    sentinel: Seq<char>,
)
    ensures
        finish_spec(copied, Err(e), sentinel) == Err::<String, SelectionError>(e),
{
}

/// The outcome of replacing the selection: the paste's error first, then the
/// restore's, else success.
pub fn paste_restore_outcome(paste: Result<(), SelectionError>, restore: Result<(), SelectionError>) -> (r: Result<
    (),
    SelectionError,
>)
    ensures
        match paste {
            Err(e) => r == Err::<(), SelectionError>(e),
            Ok(_) => r == restore,
        },
{
    match paste {
        Err(e) => Err(e),
        Ok(_) => restore,
    }
}

/// What the original clipboard held, as far as restoring it goes.
#[derive(Clone, Copy, Debug, PartialEq, Eq, Structural)]
pub enum BackupKind {
    Text,
    Html,
    Image,
    FileList,
    EmptyOrUnsupported,
}

/// The error of a failed restore of a backup of kind `kind`.
pub fn restore_failure(kind: BackupKind, error: &str) -> (r: SelectionError)
    ensures
        r matches SelectionError::Clipboard(m) && m@ == (match kind {
            BackupKind::Text => "failed to restore text clipboard"@,
            BackupKind::Html => "failed to restore HTML clipboard"@,
            BackupKind::Image => "failed to restore image clipboard"@,
            BackupKind::FileList => "failed to restore file list clipboard"@,
            BackupKind::EmptyOrUnsupported => "failed to clear clipboard after unsupported backup"@,
        }) + ": "@ + error@,
{
    let context = match kind {
        BackupKind::Text => "failed to restore text clipboard",
        BackupKind::Html => "failed to restore HTML clipboard",
        BackupKind::Image => "failed to restore image clipboard",
        BackupKind::FileList => "failed to restore file list clipboard",
        BackupKind::EmptyOrUnsupported => "failed to clear clipboard after unsupported backup",
    };
    clipboard_failure(context, error)
}

} // verus!
