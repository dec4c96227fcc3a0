//! Centralized error collection and the visibility state machine of
//! the error overlay.
//!
//! Any component may record an [`AppError`]; transient outcomes (an
//! expected non-failure such as a cancelled dialog) are filtered out
//! before they reach the visible queue.  The overlay auto-opens once
//! per batch of new errors and, when the user dismisses it, the whole
//! queue is cleared.

use vstd::prelude::*;
use vstd::string::StringExecFns;

verus! {

/// A recoverable failure reported to the shell.
///
/// `is_transient` marks outcomes that represent expected non-failures
/// (for example, the user cancelling a file dialog); such records never
/// enter the visible queue.
#[derive(Debug, Clone)]
pub struct AppError {
    /// Human-readable description of the failure.
    pub message: String,
    /// Rendered text of the underlying error, when one was chained.
    pub source: Option<String>,
    /// Whether this record is an expected non-failure.
    pub is_transient: bool,
}

impl AppError {
    /// A plain error with no chained source.
    pub fn new(message: String) -> (r: Self)
        ensures
            r == (AppError { message, source: None::<String>, is_transient: false }),
    {
        AppError { message, source: None, is_transient: false }
    }

    /// An error chaining the rendered text of an underlying failure.
    pub fn new_with_source(message: String, source: String) -> (r: Self)
        ensures
            r == (AppError { message, source: Some(source), is_transient: false }),
    {
        AppError { message, source: Some(source), is_transient: false }
    }

    /// An expected non-failure; it is filtered before the visible queue.
    pub fn new_transient(message: String) -> (r: Self)
        ensures
            r == (AppError { message, source: None::<String>, is_transient: true }),
    {
        AppError { message, source: None, is_transient: true }
    }

    /// The record's display text: the message, with the chained source
    /// in parentheses when one is present.
    pub fn to_text(&self) -> (r: String)
        ensures
            self.source matches Some(c) ==> r@ == self.message@ + " (caused by: "@ + c@ + ")"@,
            self.source is None ==> r@ == self.message@,
    {
        match &self.source {
            Some(c) => {
                let mut out = self.message.clone();
                out.append(" (caused by: ");
                out.append(c.as_str());
                out.append(")");
                out
            },
            None => self.message.clone(),
        }
    }
}

impl From<String> for AppError {
    /// A plain error from its message.
    fn from(message: String) -> (r: Self) {
        AppError::new(message)
    }
}

impl vstd::std_specs::convert::FromSpecImpl<String> for AppError {
    open spec fn obeys_from_spec() -> bool {
        true
    }

    open spec fn from_spec(message: String) -> Self {
        AppError { message, source: None, is_transient: false }
    }
}

/// Mathematical state of the error queue and its overlay flags.
pub struct ErrorQueueView {
    /// The visible queue, in insertion order.
    pub errors: Seq<AppError>,
    /// Whether the overlay is open this frame.
    pub is_open: bool,
    /// Whether the overlay was open at the end of the previous frame.
    pub was_open: bool,
}

/// Process-wide queue of recoverable failures with open/auto-show
/// semantics, owned by the shell and mutated only on the UI thread.
#[derive(Debug)]
pub struct ErrorManager {
    /// Queued errors, in insertion order.
    pub errors: Vec<AppError>,
    /// Whether the overlay is open this frame.
    pub is_open: bool,
    /// Whether the overlay was open at the end of the previous frame.
    pub was_open: bool,
}

impl View for ErrorManager {
    type V = ErrorQueueView;

    open spec fn view(&self) -> ErrorQueueView {
        ErrorQueueView { errors: self.errors@, is_open: self.is_open, was_open: self.was_open }
    }
}

/// One recording: the error is appended unless it is transient; the
/// overlay flags are untouched.
pub open spec fn record_step(s: ErrorQueueView, e: AppError) -> ErrorQueueView {
    if e.is_transient {
        s
    } else {
        ErrorQueueView { errors: s.errors.push(e), ..s }
    }
}

/// Start of a frame: if the overlay was closed at the end of the last
/// frame and the queue is non-empty, it is forced open (auto-surface
/// new errors exactly once per batch).
pub open spec fn begin_step(s: ErrorQueueView) -> ErrorQueueView {
    ErrorQueueView {
        is_open: s.is_open || (!s.was_open && s.errors.len() > 0),
        ..s
    }
}

/// End of a frame, after rendering left the overlay flag at
/// `open_after`: a closed overlay flushes the entire queue, and the
/// flag is remembered for the next frame.
pub open spec fn finish_step(s: ErrorQueueView, open_after: bool) -> ErrorQueueView {
    ErrorQueueView {
        errors: if open_after { s.errors } else { Seq::empty() },
        is_open: open_after,
        was_open: open_after,
    }
}

impl ErrorManager {
    /// An empty queue with the overlay closed.
    pub fn new() -> (r: Self)
        ensures
            r@ == (ErrorQueueView { errors: Seq::<AppError>::empty(), is_open: false, was_open: false }),
    {
        ErrorManager { errors: Vec::new(), is_open: false, was_open: false }
    }

    /// Appends `error` to the queue unless it is transient.  Recording
    /// never touches the overlay flags.
    pub fn add_error(&mut self, error: AppError)
        ensures
            final(self)@ == record_step(old(self)@, error),
    {
        if !error.is_transient {
            self.errors.push(error);
        }
    }

    /// Whether any error is waiting to be shown.
    pub fn has_pending(&self) -> (r: bool)
        ensures
            r == (self@.errors.len() > 0),
    {
        self.errors.len() > 0
    }

    /// The queued errors in insertion order; the queue is not cleared
    /// by reading it.
    pub fn drain_for_display(&self) -> (r: &Vec<AppError>)
        ensures
            r@ == self@.errors,
    {
        &self.errors
    }

    /// Title of the error overlay window.
    pub fn title(&self) -> (r: &'static str)
        ensures
            r@ == "Error window"@,
    {
        "Error window"
    }

    /// Runs the auto-open rule at the start of a frame; see
    /// [`begin_step`].
    pub fn begin_frame(&mut self)
        ensures
            final(self)@ == begin_step(old(self)@),
    {
        if !self.was_open && self.errors.len() > 0 {
            self.is_open = true;
        }
    }

    /// Records the overlay flag as rendering left it and, if the
    /// overlay is now closed, flushes the entire queue; see
    /// [`finish_step`].  Dismissal is destructive and total: after any
    /// transition to closed, no error remains.
    pub fn finish_frame(&mut self, open_after: bool)
        ensures
            final(self)@ == finish_step(old(self)@, open_after),
            !open_after ==> final(self)@.errors.len() == 0,
    {
        self.is_open = open_after;
        if !self.is_open {
            self.errors.clear();
        }
        self.was_open = self.is_open;
    }
}

/// A sequence of recordings, applied in order.
pub open spec fn records_step(s: ErrorQueueView, es: Seq<AppError>) -> ErrorQueueView
    decreases es.len(),
{
    if es.len() == 0 {
        s
    } else {
        records_step(record_step(s, es[0]), es.drop_first())
    }
}

/// One frame in which the user does not close the overlay: the
/// auto-open rule runs and rendering leaves the flag exactly as the
/// rule set it.
pub open spec fn frame_kept_open(s: ErrorQueueView) -> ErrorQueueView {
    finish_step(begin_step(s), begin_step(s).is_open)
}

/// A run of frames without a user close, each frame preceded by
/// arbitrary further recordings.
pub open spec fn batch_frames(s: ErrorQueueView, recorded: Seq<Seq<AppError>>) -> ErrorQueueView
    decreases recorded.len(),
{
    if recorded.len() == 0 {
        s
    } else {
        batch_frames(frame_kept_open(records_step(s, recorded[0])), recorded.drop_first())
    }
}

/// Recording, however often, never touches the overlay flags and never
/// shrinks the queue.
proof fn lemma_records_keep_flags(s: ErrorQueueView, es: Seq<AppError>)
    ensures
        records_step(s, es).is_open == s.is_open,
        records_step(s, es).was_open == s.was_open,
        records_step(s, es).errors.len() >= s.errors.len(),
    decreases es.len(),
{
    if es.len() > 0 {
        lemma_records_keep_flags(record_step(s, es[0]), es.drop_first());
    }
}

/// Recording a batch with at least one non-transient error leaves the
/// queue non-empty.
proof fn lemma_records_nonempty(s: ErrorQueueView, es: Seq<AppError>)
    requires
        exists|i: int| 0 <= i < es.len() && !(#[trigger] es[i]).is_transient,
    ensures
        records_step(s, es).errors.len() > 0,
    decreases es.len(),
{
    let i = choose|i: int| 0 <= i < es.len() && !(#[trigger] es[i]).is_transient;
    if i == 0 {
        lemma_records_keep_flags(record_step(s, es[0]), es.drop_first());
    } else {
        assert(es.drop_first()[i - 1] == es[i]);
        lemma_records_nonempty(record_step(s, es[0]), es.drop_first());
    }
}

/// While the overlay is open and the user keeps it open, any run of
/// frames and recordings leaves it open at every frame boundary.
proof fn lemma_batch_stays_open(s: ErrorQueueView, recorded: Seq<Seq<AppError>>)
    requires
        s.is_open,
    ensures
        forall|k: int|
            0 <= k <= recorded.len() ==> (#[trigger] batch_frames(s, recorded.take(k))).is_open,
    decreases recorded.len(),
{
    if recorded.len() > 0 {
        let s0 = records_step(s, recorded[0]);
        lemma_records_keep_flags(s, recorded[0]);
        let s1 = frame_kept_open(s0);
        lemma_batch_stays_open(s1, recorded.drop_first());
        assert forall|k: int|
            0 <= k <= recorded.len() implies (#[trigger] batch_frames(s, recorded.take(k))).is_open by {
            if k == 0 {
                assert(recorded.take(0) =~= Seq::<Seq<AppError>>::empty());
            } else {
                assert(recorded.take(k)[0] == recorded[0]);
                assert(recorded.take(k).drop_first() =~= recorded.drop_first().take(k - 1));
                assert(batch_frames(s1, recorded.drop_first().take(k - 1)).is_open);
                assert(batch_frames(s, recorded.take(k)) == batch_frames(
                    s1,
                    recorded.take(k).drop_first(),
                ));
            }
        }
    } else {
        assert(recorded.take(0) =~= Seq::<Seq<AppError>>::empty());
    }
}

/// The overlay auto-opens exactly once per batch.  Recording any
/// sequence of errors with at least one non-transient one, while the
/// overlay is closed and was closed at the end of the last frame,
/// leaves it closed; the next frame's auto-open rule transitions it
/// from closed to open; and as long as the user does not close it, in
/// every later frame — whatever else is recorded in between — the
/// overlay is already open when the rule runs, so the rule never again
/// moves it from closed to open within the batch.
pub proof fn lemma_auto_open_once_per_batch(
    s: ErrorQueueView,
    es: Seq<AppError>,
    recorded: Seq<Seq<AppError>>,
)
    requires
        !s.is_open,
        !s.was_open,
        exists|i: int| 0 <= i < es.len() && !(#[trigger] es[i]).is_transient,
    ensures
        // recording alone does not open the overlay
        !records_step(s, es).is_open,
        // the next frame's auto-open rule fires: closed to open, once
        begin_step(records_step(s, es)).is_open,
        // at every later frame boundary of the batch the overlay is open
        forall|k: int|
            0 <= k <= recorded.len() ==> (#[trigger] batch_frames(
                frame_kept_open(records_step(s, es)),
                recorded.take(k),
            )).is_open,
        // and within each later frame, the rule finds the overlay open
        // and changes nothing: no second closed-to-open transition
        forall|k: int|
            0 <= k < recorded.len() ==> ({
                let before = records_step(
                    batch_frames(frame_kept_open(records_step(s, es)), #[trigger] recorded.take(k)),
                    recorded[k],
                );
                before.is_open && begin_step(before).is_open == before.is_open
            }),
{
    lemma_records_keep_flags(s, es);
    lemma_records_nonempty(s, es);
    let s1 = frame_kept_open(records_step(s, es));
    lemma_batch_stays_open(s1, recorded);
    assert forall|k: int|
        0 <= k < recorded.len() implies ({
        let before = records_step(batch_frames(s1, #[trigger] recorded.take(k)), recorded[k]);
        before.is_open && begin_step(before).is_open == before.is_open
    }) by {
        lemma_records_keep_flags(batch_frames(s1, recorded.take(k)), recorded[k]);
    }
}

impl Default for ErrorManager {
    /// Same as [`ErrorManager::new`].
    fn default() -> (r: Self)
        ensures
            r@ == (ErrorQueueView { errors: Seq::<AppError>::empty(), is_open: false, was_open: false }),
    {
        ErrorManager::new()
    }
}

} // verus!
