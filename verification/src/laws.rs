//! The lifecycle laws: what holds of every run of the model in `lifecycle`,
//! and hence — through the contract of `run_scripted` — of the executable
//! lifecycle itself.

use vstd::prelude::*;

use crate::lifecycle::{
    drain_from, is_envelope, lifecycle, receive_from, stops_drain, ScriptedEntry,
};

verus! {

/// The indices in `[i, end)` of the script entries that carry an envelope,
/// in arrival order.
pub open spec fn envelope_indices(entries: Seq<ScriptedEntry>, i: int, end: int) -> Seq<int>
    decreases end - i,
{
    if i < 0 || i >= end || end > entries.len() {
        Seq::empty()
    } else if is_envelope(entries[i]) {
        seq![i] + envelope_indices(entries, i + 1, end)
    } else {
        envelope_indices(entries, i + 1, end)
    }
}

/// The envelope indices of a range are strictly increasing, lie in the
/// range, name only envelope entries, and miss no envelope entry of it.
pub proof fn lemma_envelope_indices_props(entries: Seq<ScriptedEntry>, i: int, end: int)
    requires
        0 <= i,
        end <= entries.len(),
    ensures
        ({
            let s = envelope_indices(entries, i, end);
            &&& forall|a: int, b: int|
                0 <= a < b < s.len() ==> #[trigger] s[a] < #[trigger] s[b]
            &&& forall|a: int|
                0 <= a < s.len() ==> i <= #[trigger] s[a] < end && is_envelope(entries[s[a]])
            &&& forall|j: int|
                i <= j < end && is_envelope(#[trigger] entries[j]) ==> s.contains(j)
        }),
    decreases end - i,
{
    let s = envelope_indices(entries, i, end);
    if i < end {
        lemma_envelope_indices_props(entries, i + 1, end);
        let s1 = envelope_indices(entries, i + 1, end);
        if is_envelope(entries[i]) {
            assert(s == seq![i] + s1);
            assert(s[0] == i);
            assert forall|a: int| 0 <= a < s.len() implies i <= #[trigger] s[a] < end
                && is_envelope(entries[s[a]]) by {
                if a > 0 {
                    assert(s[a] == s1[a - 1]);
                }
            }
            assert forall|a: int, b: int| 0 <= a < b < s.len() implies #[trigger] s[a]
                < #[trigger] s[b] by {
                assert(s[b] == s1[b - 1]);
                if a > 0 {
                    assert(s[a] == s1[a - 1]);
                }
            }
            assert forall|j: int|
                i <= j < end && is_envelope(#[trigger] entries[j]) implies s.contains(j) by {
                if j == i {
                    assert(s[0] == i);
                } else {
                    assert(s1.contains(j));
                    let k = choose|k: int| 0 <= k < s1.len() && s1[k] == j;
                    assert(s[k + 1] == j);
                }
            }
        } else {
            assert(s == s1);
            assert forall|j: int|
                i <= j < end && is_envelope(#[trigger] entries[j]) implies s.contains(j) by {
                assert(j != i);
                assert(s1.contains(j));
            }
        }
    }
}

/// The drain phase always terminates, consumes a further prefix of the
/// script, and dispatches exactly the envelope entries of what it consumes.
pub proof fn lemma_drain_report(entries: Seq<ScriptedEntry>, i: int)
    requires
        0 <= i <= entries.len(),
    ensures
        ({
            let r = drain_from(entries, i);
            &&& i <= r.processed <= entries.len()
            &&& r.finished
            &&& r.dispatched == envelope_indices(entries, i, r.processed)
        }),
    decreases entries.len() - i,
{
    let r = drain_from(entries, i);
    if i >= entries.len() {
        assert(r.dispatched =~= envelope_indices(entries, i, r.processed));
    } else {
        let e = entries[i];
        if !is_envelope(e) {
            lemma_drain_report(entries, i + 1);
        } else if e.requests_stop {
            assert(envelope_indices(entries, i + 1, i + 1) =~= Seq::<int>::empty());
            assert(r.dispatched =~= envelope_indices(entries, i, i + 1));
        } else {
            lemma_drain_report(entries, i + 1);
            assert(r.dispatched =~= envelope_indices(entries, i, r.processed));
        }
    }
}

/// The main loop consumes a prefix of the script and dispatches exactly the
/// envelope entries of that prefix.
pub proof fn lemma_receive_report(entries: Seq<ScriptedEntry>, i: int, closes: bool)
    requires
        0 <= i <= entries.len(),
    ensures
        ({
            let r = receive_from(entries, i, closes);
            &&& i <= r.processed <= entries.len()
            &&& r.dispatched == envelope_indices(entries, i, r.processed)
        }),
    decreases entries.len() - i,
{
    let r = receive_from(entries, i, closes);
    if i >= entries.len() {
        assert(r.dispatched =~= envelope_indices(entries, i, r.processed));
    } else {
        let e = entries[i];
        if !is_envelope(e) {
            if e.requests_stop {
                lemma_drain_report(entries, i + 1);
            } else {
                lemma_receive_report(entries, i + 1, closes);
            }
        } else {
            if e.requests_stop {
                lemma_drain_report(entries, i + 1);
            } else {
                lemma_receive_report(entries, i + 1, closes);
            }
            assert(r.dispatched =~= envelope_indices(entries, i, r.processed));
        }
    }
}

/// Law: a run consumes a prefix of the arrival order and dispatches within
/// it in that single global order — the dispatched indices are strictly
/// increasing (so no entry is processed twice), they name only consumed
/// envelope entries, and no envelope entry that was consumed is dropped.
pub proof fn lemma_arrival_order(stop_in_on_start: bool, entries: Seq<ScriptedEntry>, closes: bool)
    ensures
        ({
            let r = lifecycle(stop_in_on_start, entries, closes);
            &&& 0 <= r.processed <= entries.len()
            &&& forall|a: int, b: int|
                0 <= a < b < r.dispatched.len() ==> #[trigger] r.dispatched[a]
                    < #[trigger] r.dispatched[b]
            &&& forall|a: int|
                0 <= a < r.dispatched.len() ==> 0 <= #[trigger] r.dispatched[a] < r.processed
                    && is_envelope(entries[r.dispatched[a]])
            &&& forall|j: int|
                0 <= j < r.processed && is_envelope(#[trigger] entries[j])
                    ==> r.dispatched.contains(j)
        }),
{
    if !stop_in_on_start {
        lemma_receive_report(entries, 0, closes);
        lemma_envelope_indices_props(entries, 0, receive_from(entries, 0, closes).processed);
    }
}

/// Law: if the start hook requests a stop, the run terminates with no entry
/// ever dispatched and none even consumed, however early they were enqueued.
pub proof fn lemma_stop_in_start_dispatches_nothing(entries: Seq<ScriptedEntry>, closes: bool)
    ensures
        lifecycle(true, entries, closes).dispatched == Seq::<int>::empty(),
        lifecycle(true, entries, closes).processed == 0,
        lifecycle(true, entries, closes).finished,
{
}

/// A drain over a remainder in which no dispatched handler requests a stop
/// consumes the whole script and terminates.
pub proof fn lemma_drain_flushes_all(entries: Seq<ScriptedEntry>, i: int)
    requires
        0 <= i <= entries.len(),
        forall|j: int| i <= j < entries.len() ==> !stops_drain(#[trigger] entries[j]),
    ensures
        drain_from(entries, i).processed == entries.len(),
        drain_from(entries, i).finished,
    decreases entries.len() - i,
{
    if i < entries.len() {
        lemma_drain_flushes_all(entries, i + 1);
    }
}

proof fn lemma_receive_stop_flushes(entries: Seq<ScriptedEntry>, closes: bool, i: int, k: int)
    requires
        0 <= i <= k < entries.len(),
        entries[k].requests_stop,
        forall|j: int|
            i <= j < entries.len() && j != k ==> !(#[trigger] entries[j]).requests_stop,
    ensures
        receive_from(entries, i, closes).processed == entries.len(),
        receive_from(entries, i, closes).finished,
    decreases k - i,
{
    if i == k {
        assert forall|j: int|
            k + 1 <= j < entries.len() implies !stops_drain(#[trigger] entries[j]) by {
            assert(!entries[j].requests_stop);
        }
        lemma_drain_flushes_all(entries, k + 1);
    } else {
        lemma_receive_stop_flushes(entries, closes, i + 1, k);
    }
}

/// Law: once a stop is decided, every deferred entry already enqueued is
/// still delivered before termination — if entry `k` is the only one whose
/// handler or policy requests a stop, the run consumes the whole script,
/// terminates, and dispatches every envelope entry of it, those behind `k`
/// included.
pub proof fn lemma_late_notifications_flushed(entries: Seq<ScriptedEntry>, closes: bool, k: int)
    requires
        0 <= k < entries.len(),
        entries[k].requests_stop,
        forall|j: int|
            0 <= j < entries.len() && j != k ==> !(#[trigger] entries[j]).requests_stop,
    ensures
        ({
            let r = lifecycle(false, entries, closes);
            &&& r.processed == entries.len()
            &&& r.finished
            &&& forall|j: int|
                0 <= j < entries.len() && is_envelope(#[trigger] entries[j])
                    ==> r.dispatched.contains(j)
        }),
{
    lemma_receive_stop_flushes(entries, closes, 0, k);
    lemma_arrival_order(false, entries, closes);
}

proof fn lemma_drain_stops_at(entries: Seq<ScriptedEntry>, i: int, j: int)
    requires
        0 <= i <= j < entries.len(),
        stops_drain(entries[j]),
        forall|m: int| i <= m < j ==> !stops_drain(#[trigger] entries[m]),
    ensures
        drain_from(entries, i).processed == j + 1,
        drain_from(entries, i).finished,
    decreases j - i,
{
    if i < j {
        lemma_drain_stops_at(entries, i + 1, j);
    }
}

proof fn lemma_receive_reaches_drain_stop(
    entries: Seq<ScriptedEntry>,
    closes: bool,
    i: int,
    k: int,
    j: int,
)
    requires
        0 <= i <= k < j < entries.len(),
        forall|m: int| i <= m < k ==> !(#[trigger] entries[m]).requests_stop,
        entries[k].requests_stop,
        forall|m: int| k < m < j ==> !stops_drain(#[trigger] entries[m]),
        stops_drain(entries[j]),
    ensures
        receive_from(entries, i, closes).processed == j + 1,
        receive_from(entries, i, closes).finished,
    decreases k - i,
{
    if i == k {
        lemma_drain_stops_at(entries, k + 1, j);
    } else {
        lemma_receive_reaches_drain_stop(entries, closes, i + 1, k, j);
    }
}

/// Law: a handler that requests a stop during the drain phase terminates the
/// run at once, and the remaining queued entries are discarded, not
/// delivered — with the drain opened by entry `k` and entry `j` the first
/// drained envelope whose handler requests a stop, the run consumes exactly
/// the entries up to `j` and dispatches none behind it.
pub proof fn lemma_exit_in_drain_discards_rest(
    entries: Seq<ScriptedEntry>,
    closes: bool,
    k: int,
    j: int,
)
    requires
        0 <= k < j < entries.len(),
        forall|m: int| 0 <= m < k ==> !(#[trigger] entries[m]).requests_stop,
        entries[k].requests_stop,
        forall|m: int| k < m < j ==> !stops_drain(#[trigger] entries[m]),
        stops_drain(entries[j]),
    ensures
        ({
            let r = lifecycle(false, entries, closes);
            &&& r.processed == j + 1
            &&& r.finished
            &&& r.dispatched.contains(j)
            &&& forall|m: int| j < m < entries.len() ==> !r.dispatched.contains(m)
        }),
{
    lemma_receive_reaches_drain_stop(entries, closes, 0, k, j);
    lemma_arrival_order(false, entries, closes);
    let r = lifecycle(false, entries, closes);
    assert(r.dispatched.contains(j));
    assert forall|m: int| j < m < entries.len() implies !r.dispatched.contains(m) by {
        if r.dispatched.contains(m) {
            let a = choose|a: int| 0 <= a < r.dispatched.len() && r.dispatched[a] == m;
            assert(r.dispatched[a] < r.processed);
        }
    }
}

} // verus!
