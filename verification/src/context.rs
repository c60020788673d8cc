//! The dispatch context: the running flag of one actor, together with the
//! bookkeeping that turns what happened while one entry was dispatched into a
//! continuation verdict.
//!
//! The running flag is one-way: every method here either preserves it or
//! clears it, so once an actor has decided to stop, nothing can restart it.

use vstd::prelude::*;

use crate::entry::Verdict;

verus! {

/// The per-actor state that entry processing consults and mutates.  Exactly
/// one dispatch context exists per actor, owned by its manager and handed by
/// reference into the actor's hooks and envelopes, which may request a stop
/// through it.
pub struct DispatchContext {
    /// True until a stop is decided; never raised again afterwards.
    running: bool,
    /// Snapshot of `running` taken when the dispatch of the current envelope
    /// began; tells a stop request apart from one made during the drain phase.
    began_running: bool,
    /// Whether a stop was requested since the current dispatch began.
    stop_flag: bool,
}

impl DispatchContext {
    /// Whether the actor still counts as running (no stop decided yet).
    pub closed spec fn is_running(self) -> bool {
        self.running
    }

    /// Whether the dispatch currently in flight began while the actor was
    /// still running.
    pub closed spec fn began_running(self) -> bool {
        self.began_running
    }

    /// Whether a stop was requested since the current dispatch began.
    pub closed spec fn stop_requested(self) -> bool {
        self.stop_flag
    }

    /// A fresh context for a newly created actor: running, nothing requested.
    pub fn new() -> (c: DispatchContext)
        ensures
            c.is_running(),
            !c.stop_requested(),
    {
        DispatchContext { running: true, began_running: true, stop_flag: false }
    }

    /// True if the running flag is still set.  The manager consults this right
    /// after the startup hook, since a well-behaved actor may request its own
    /// stop from inside that hook.
    pub fn check_running(&self) -> (r: bool)
        ensures
            r == self.is_running(),
    {
        self.running
    }

    /// Request a stop.  Called (through the context handed to it) by the
    /// actor's own logic, from a hook or from inside an envelope.  Clears the
    /// running flag for good and records the request for the verdict of the
    /// dispatch in flight.
    pub fn stop(&mut self)
        ensures
            !final(self).is_running(),
            final(self).stop_requested(),
            final(self).began_running() == old(self).began_running(),
    {
        self.running = false;
        self.stop_flag = true;
    }

    /// Open the dispatch of one envelope: snapshot the running flag and clear
    /// the record of stop requests, so the coming verdict reflects only what
    /// this envelope does.
    pub fn begin_dispatch(&mut self)
        ensures
            final(self).is_running() == old(self).is_running(),
            final(self).began_running() == old(self).is_running(),
            !final(self).stop_requested(),
    {
        self.began_running = self.running;
        self.stop_flag = false;
    }

    /// Close the dispatch of one envelope and classify what it did:
    /// no stop requested means keep going; a stop requested by an envelope
    /// that began while running opens the drain phase; a stop requested while
    /// already draining terminates at once, discarding what is still queued.
    pub fn end_dispatch(&self) -> (v: Verdict)
        ensures
            (v is Continue) == !self.stop_requested(),
            (v is EnterDrainPhase) == (self.stop_requested() && self.began_running()),
            (v is ExitImmediately) == (self.stop_requested() && !self.began_running()),
    {
        if !self.stop_flag {
            Verdict::Continue
        } else if self.began_running {
            Verdict::EnterDrainPhase
        } else {
            Verdict::ExitImmediately
        }
    }

    /// Process a `LastHandle` entry: the external strong-handle count reached
    /// zero.  If a stop was already decided this is a no-op; otherwise the
    /// actor's stop policy (`policy_stop`, true for the default "stop when no
    /// external handles remain") decides whether to clear the running flag and
    /// open the drain phase, or to keep running headless.
    pub fn handle_last_handle(&mut self, policy_stop: bool) -> (v: Verdict)
        ensures
            final(self).is_running() == (old(self).is_running() && !policy_stop),
            final(self).began_running() == old(self).began_running(),
            final(self).stop_requested() == old(self).stop_requested(),
            (v is EnterDrainPhase) == (old(self).is_running() && policy_stop),
            (v is Continue) == !(old(self).is_running() && policy_stop),
            !(v is ExitImmediately),
    {
        if self.running && policy_stop {
            self.running = false;
            Verdict::EnterDrainPhase
        } else {
            Verdict::Continue
        }
    }
}

} // verus!
