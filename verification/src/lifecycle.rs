//! A mathematical model of one whole lifecycle run.
//!
//! The behaviour of the collaborators that the manager only observes — which
//! entries arrive and in what order, whether a handler requests a stop,
//! what the actor's stop policy answers — is captured as a script.  The
//! functions here say, by recursion over that script, which entries a run
//! dispatches, how many it consumes, and whether it terminates.  The laws in
//! `laws` are proved about this model, and `run_scripted` in `manager` is the
//! executable lifecycle proved to realise it.

use vstd::prelude::*;

verus! {

/// One scripted mailbox entry: its kind, and what the collaborator consulted
/// for it answers.  For an envelope-carrying entry, `requests_stop` says
/// whether its handler requests a stop while it is dispatched; for a
/// `LastHandle` entry, it is the actor's stop-policy answer.
#[derive(Clone, Copy, PartialEq, Eq, Structural, Debug)]
pub struct ScriptedEntry {
    pub kind: crate::entry::EntryKind,
    pub requests_stop: bool,
}

/// Whether this entry carries an envelope, i.e. is dispatched when processed.
pub open spec fn is_envelope(e: ScriptedEntry) -> bool {
    !(e.kind is LastHandle)
}

/// Whether this entry, processed during the drain phase, cuts the drain
/// short: only a stop requested from inside a dispatched envelope does.
pub open spec fn stops_drain(e: ScriptedEntry) -> bool {
    is_envelope(e) && e.requests_stop
}

/// What one lifecycle run does, at the model level.
#[verifier::ext_equal]
pub struct SpecReport {
    /// The indices of the entries whose envelope was dispatched, in order.
    pub dispatched: Seq<int>,
    /// How many entries were consumed from the mailbox.
    pub processed: int,
    /// Whether the run terminated, as opposed to parking in the main loop.
    pub finished: bool,
}

/// The drain phase, standing before entry `i`: poll and process what is
/// already enqueued, without suspending.  A `LastHandle` entry is a no-op
/// here, since a stop is already decided.  An envelope entry is dispatched
/// even now; if its handler requests a stop, the drain is cut short and the
/// rest of the queue is discarded.  An empty mailbox means no more work will
/// ever arrive: the run terminates.
pub open spec fn drain_from(entries: Seq<ScriptedEntry>, i: int) -> SpecReport
    decreases entries.len() - i,
{
    if i < 0 || i >= entries.len() {
        SpecReport { dispatched: Seq::empty(), processed: i, finished: true }
    } else {
        let e = entries[i];
        if !is_envelope(e) {
            drain_from(entries, i + 1)
        } else if e.requests_stop {
            SpecReport { dispatched: seq![i], processed: i + 1, finished: true }
        } else {
            let rest = drain_from(entries, i + 1);
            SpecReport { dispatched: seq![i] + rest.dispatched, ..rest }
        }
    }
}

/// The main loop, standing before entry `i`: await and process one entry at
/// a time.  An envelope entry is dispatched; a handler-requested stop opens
/// the drain phase behind it.  A `LastHandle` entry consults the stop policy
/// and opens the drain phase if it says to stop.  A run that exhausts the
/// script either learns that the mailbox is disconnected (`closes`), which is
/// an implicit stop with nothing left to drain, or parks awaiting more input.
pub open spec fn receive_from(entries: Seq<ScriptedEntry>, i: int, closes: bool) -> SpecReport
    decreases entries.len() - i,
{
    if i < 0 || i >= entries.len() {
        SpecReport { dispatched: Seq::empty(), processed: i, finished: closes }
    } else {
        let e = entries[i];
        if !is_envelope(e) {
            if e.requests_stop {
                drain_from(entries, i + 1)
            } else {
                receive_from(entries, i + 1, closes)
            }
        } else {
            let rest = if e.requests_stop {
                drain_from(entries, i + 1)
            } else {
                receive_from(entries, i + 1, closes)
            };
            SpecReport { dispatched: seq![i] + rest.dispatched, ..rest }
        }
    }
}

/// One whole run: if the start hook requests a stop, the lifecycle is over
/// before any entry — however early it was enqueued — is processed; otherwise
/// the main loop runs from the head of the script.
pub open spec fn lifecycle(stop_in_on_start: bool, entries: Seq<ScriptedEntry>, closes: bool) -> SpecReport {
    if stop_in_on_start {
        SpecReport { dispatched: Seq::empty(), processed: 0, finished: true }
    } else {
        receive_from(entries, 0, closes)
    }
}

/// What one executable scripted run did; see `run_scripted` in `manager`.
pub struct RunReport {
    /// The indices of the entries whose envelope was dispatched, in order.
    pub dispatched: Vec<usize>,
    /// How many entries were consumed from the mailbox.
    pub processed: usize,
    /// Whether the run terminated, as opposed to parking in the main loop.
    pub finished: bool,
    /// Whether this run fired the stop hook (it does exactly when it
    /// terminates; a parked manager fires it when it is later discarded).
    pub hook_fired: bool,
}

/// The sequence of indices, as mathematical integers.
pub open spec fn as_ints(s: Seq<usize>) -> Seq<int> {
    s.map_values(|u: usize| u as int)
}

/// A run standing at an intermediate point realises `model` if the entries in
/// `done` were dispatched so far and `rest` is what the model says of the
/// remainder of the script.
pub open spec fn extends(model: SpecReport, done: Seq<usize>, rest: SpecReport) -> bool {
    &&& model.dispatched == as_ints(done) + rest.dispatched
    &&& model.processed == rest.processed
    &&& model.finished == rest.finished
}

pub proof fn lemma_as_ints_push(s: Seq<usize>, x: usize)
    ensures
        as_ints(s.push(x)) == as_ints(s) + seq![x as int],
{
    assert(as_ints(s.push(x)) =~= as_ints(s) + seq![x as int]);
}

/// Dispatching the entry at `i` moves it from the model's remainder into the
/// run's accumulated prefix.
pub proof fn lemma_extends_step(
    model: SpecReport,
    done: Seq<usize>,
    i: usize,
    rest: SpecReport,
    next: SpecReport,
)
    requires
        extends(model, done, rest),
        rest.dispatched == seq![i as int] + next.dispatched,
        rest.processed == next.processed,
        rest.finished == next.finished,
    ensures
        extends(model, done.push(i), next),
{
    lemma_as_ints_push(done, i);
    assert(model.dispatched =~= as_ints(done.push(i)) + next.dispatched);
}

} // verus!
