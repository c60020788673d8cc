//! The actor manager: owner of one actor, its dispatch context and the
//! receiving end of its mailbox, and the state machine that drives the
//! actor's lifecycle.
//!
//! The lifecycle has three phases.  Startup runs the actor's start hook and
//! re-checks the running flag, since the hook may already request a stop.
//! The main loop awaits one entry at a time and interprets the verdict of its
//! processing.  Once a stop is decided the drain phase polls, without ever
//! suspending, for the deferred entries that are already enqueued, so that
//! termination is always reached.  Whatever path ends the lifecycle, the stop
//! hook is owed exactly once; `finalize` accounts for that.
//!
//! Awaiting the mailbox and invoking an envelope suspend, which no verified
//! function does, so the loop itself is driven from outside: each transition
//! here returns the next `LoopCommand`, the caller performs that step against
//! the real mailbox and envelopes and feeds the outcome back in.

use vstd::prelude::*;

use crate::context::DispatchContext;
use crate::entry::{EntryKind, MailboxEntry, Verdict};
use crate::lifecycle::{
    as_ints, drain_from, extends, lemma_extends_step, lifecycle, receive_from, RunReport,
    ScriptedEntry,
};
use crate::mailbox::new_mailbox;

verus! {

/// Where in its lifecycle a manager stands.
#[derive(Clone, Copy, PartialEq, Eq, Structural, Debug)]
pub enum Phase {
    /// Created; the start hook has not been interpreted yet.
    Starting,
    /// The suspending receive loop: awaiting the next entry.
    MainLoop,
    /// A stop was decided; polling for already-enqueued entries only.
    Draining,
    /// The lifecycle is over; nothing is processed any more.
    Terminated,
}

/// The next step the loop driving a manager has to perform.
#[derive(Clone, Copy, PartialEq, Eq, Structural, Debug)]
pub enum LoopCommand {
    /// Suspend until the next mailbox entry arrives, then process it.
    AwaitEntry,
    /// Poll the mailbox without suspending; process an entry if one is
    /// present, else report the mailbox empty.
    PollEntry,
    /// Stop driving: discard the manager, which fires the stop hook.
    Finish,
}

/// A manager for one actor: it owns the actor, the dispatch context and the
/// receiving end of the mailbox, and tracks the lifecycle phase.  `A` is the
/// actor type and `E` the type-erased envelope type carried by the mailbox;
/// the manager looks inside neither.
#[verifier::reject_recursive_types(E)]
pub struct ActorManager<A, E> {
    /// The managed actor, exclusively owned for its whole life.
    pub actor: A,
    /// The dispatch context consulted and mutated while entries are
    /// processed.
    pub ctx: DispatchContext,
    /// The receiving end of this actor's mailbox.
    pub mailbox: futures::channel::mpsc::UnboundedReceiver<MailboxEntry<E>>,
    /// The lifecycle phase; advanced only by the methods below.
    pub state: Phase,
    /// Whether the stop hook has been accounted for; set only by `finalize`.
    pub hook_done: bool,
}

impl<A, E> ActorManager<A, E> {
    /// The lifecycle phase this manager stands in.
    pub open spec fn phase(self) -> Phase {
        self.state
    }

    /// Whether the stop hook has been fired for this actor.
    pub open spec fn hook_fired(self) -> bool {
        self.hook_done
    }

    /// Create the manager for `actor`: a fresh mailbox, a fresh dispatch
    /// context, and the manager owning the actor and the receiving end.  The
    /// sending end is returned for the caller to build handles around.  No
    /// processing happens yet; the manager must be driven explicitly.
    pub fn start(actor: A) -> (r: (
        futures::channel::mpsc::UnboundedSender<MailboxEntry<E>>,
        ActorManager<A, E>,
    ))
        ensures
            r.1.actor == actor,
            r.1.ctx.is_running(),
            !r.1.ctx.stop_requested(),
            r.1.phase() is Starting,
            !r.1.hook_fired(),
    {
        let (sender, receiver) = new_mailbox::<E>();
        let mgr = ActorManager {
            actor,
            ctx: DispatchContext::new(),
            mailbox: receiver,
            state: Phase::Starting,
            hook_done: false,
        };
        (sender, mgr)
    }

    /// The lifecycle phase, for callers outside verified code.
    pub fn current_phase(&self) -> (p: Phase)
        ensures
            p == self.phase(),
    {
        self.state
    }

    /// Interpret the state right after the actor's start hook ran: if the
    /// hook requested a stop, the lifecycle is over before any entry is
    /// processed; otherwise the main loop begins.
    pub fn after_start(&mut self) -> (cmd: LoopCommand)
        requires
            old(self).phase() is Starting,
        ensures
            final(self).actor == old(self).actor,
            final(self).ctx == old(self).ctx,
            final(self).hook_fired() == old(self).hook_fired(),
            old(self).ctx.is_running() ==> final(self).phase() is MainLoop && cmd is AwaitEntry,
            !old(self).ctx.is_running() ==> final(self).phase() is Terminated && cmd is Finish,
    {
        if self.ctx.check_running() {
            self.state = Phase::MainLoop;
            LoopCommand::AwaitEntry
        } else {
            self.state = Phase::Terminated;
            LoopCommand::Finish
        }
    }

    /// Interpret the verdict of one processed entry.  In the main loop,
    /// `Continue` keeps awaiting, `EnterDrainPhase` switches to polling and
    /// `ExitImmediately` terminates.  While draining, only `ExitImmediately`
    /// cuts the drain short; any other verdict keeps polling.
    pub fn on_verdict(&mut self, v: Verdict) -> (cmd: LoopCommand)
        requires
            old(self).phase() is MainLoop || old(self).phase() is Draining,
        ensures
            final(self).actor == old(self).actor,
            final(self).ctx == old(self).ctx,
            final(self).hook_fired() == old(self).hook_fired(),
            old(self).phase() is MainLoop ==> match v {
                Verdict::Continue => final(self).phase() is MainLoop && cmd is AwaitEntry,
                Verdict::EnterDrainPhase => final(self).phase() is Draining && cmd is PollEntry,
                Verdict::ExitImmediately => final(self).phase() is Terminated && cmd is Finish,
            },
            old(self).phase() is Draining ==> match v {
                Verdict::ExitImmediately => final(self).phase() is Terminated && cmd is Finish,
                _ => final(self).phase() is Draining && cmd is PollEntry,
            },
    {
        match v {
            Verdict::Continue => {
                if self.state == Phase::MainLoop {
                    LoopCommand::AwaitEntry
                } else {
                    LoopCommand::PollEntry
                }
            }
            Verdict::EnterDrainPhase => {
                self.state = Phase::Draining;
                LoopCommand::PollEntry
            }
            Verdict::ExitImmediately => {
                self.state = Phase::Terminated;
                LoopCommand::Finish
            }
        }
    }

    /// The suspending wait reported that the mailbox is disconnected: no
    /// sender is left, so no entry will ever arrive again.  Treated as an
    /// implicit stop request: switch to the drain phase, which will find the
    /// mailbox empty and terminate.
    pub fn on_mailbox_closed(&mut self) -> (cmd: LoopCommand)
        requires
            old(self).phase() is MainLoop,
        ensures
            final(self).actor == old(self).actor,
            final(self).ctx == old(self).ctx,
            final(self).hook_fired() == old(self).hook_fired(),
            final(self).phase() is Draining,
            cmd is PollEntry,
    {
        self.state = Phase::Draining;
        LoopCommand::PollEntry
    }

    /// The non-suspending poll found no entry.  Since a decided stop keeps
    /// strong handles from sending and every deferred notification was fully
    /// enqueued before the stop became observable, absence means no more work
    /// will ever arrive: the lifecycle is over.
    pub fn on_mailbox_empty(&mut self) -> (cmd: LoopCommand)
        requires
            old(self).phase() is Draining,
        ensures
            final(self).actor == old(self).actor,
            final(self).ctx == old(self).ctx,
            final(self).hook_fired() == old(self).hook_fired(),
            final(self).phase() is Terminated,
            cmd is Finish,
    {
        self.state = Phase::Terminated;
        LoopCommand::Finish
    }

    /// Account for the stop hook when the manager is discarded, on whatever
    /// path: the result says whether the hook must run now, and it is true
    /// exactly once over the manager's life, however often the teardown is
    /// reached.
    pub fn finalize(&mut self) -> (fire: bool)
        ensures
            final(self).actor == old(self).actor,
            final(self).ctx == old(self).ctx,
            final(self).phase() == old(self).phase(),
            final(self).hook_fired(),
            fire == !old(self).hook_fired(),
    {
        let fire = !self.hook_done;
        self.hook_done = true;
        fire
    }
}

/// Drive one freshly started manager through its whole lifecycle against a
/// scripted mailbox: the manage loop with its asynchronous collaborators
/// replaced by the script.  `stop_in_on_start` is what the start hook does;
/// each script entry stands for one arrived mailbox entry together with what
/// the handler or policy consulted for it answers; `mailbox_closes` says
/// whether, once the script is exhausted while still receiving, the mailbox
/// reports disconnection or simply stays silent (in which case the run parks
/// and the report says it did not finish).
///
/// The report is exactly what the lifecycle model predicts, and the stop
/// hook is fired if and only if the run terminates.
pub fn run_scripted<A, E>(
    mgr: &mut ActorManager<A, E>,
    stop_in_on_start: bool,
    entries: &Vec<ScriptedEntry>,
    mailbox_closes: bool,
) -> (r: RunReport)
    requires
        old(mgr).phase() is Starting,
        old(mgr).ctx.is_running(),
        !old(mgr).hook_fired(),
    ensures
        final(mgr).actor == old(mgr).actor,
        ({
            let model = lifecycle(stop_in_on_start, entries@, mailbox_closes);
            &&& as_ints(r.dispatched@) == model.dispatched
            &&& r.processed == model.processed
            &&& r.finished == model.finished
            &&& r.hook_fired == model.finished
            &&& final(mgr).hook_fired() == model.finished
        }),
{
    let ghost model = lifecycle(stop_in_on_start, entries@, mailbox_closes);
    if stop_in_on_start {
        mgr.ctx.stop();
    }
    let mut cmd = mgr.after_start();
    let mut i: usize = 0;
    let mut dispatched: Vec<usize> = Vec::new();

    if cmd == LoopCommand::Finish {
        // the start hook requested the stop: no entry, however early it was
        // enqueued, is ever processed
        let fired = mgr.finalize();
        proof {
            assert(as_ints(dispatched@) =~= Seq::<int>::empty());
        }
        return RunReport { dispatched, processed: 0, finished: true, hook_fired: fired };
    }

    proof {
        assert(as_ints(dispatched@) =~= Seq::<int>::empty());
        assert(model.dispatched =~= as_ints(dispatched@) + receive_from(
            entries@,
            0,
            mailbox_closes,
        ).dispatched);
    }

    while cmd == LoopCommand::AwaitEntry && i < entries.len()
        invariant
            i <= entries.len(),
            !mgr.hook_fired(),
            mgr.actor == old(mgr).actor,
            cmd is AwaitEntry ==> mgr.phase() is MainLoop && mgr.ctx.is_running() && extends(
                model,
                dispatched@,
                receive_from(entries@, i as int, mailbox_closes),
            ),
            cmd is PollEntry ==> mgr.phase() is Draining && !mgr.ctx.is_running() && extends(
                model,
                dispatched@,
                drain_from(entries@, i as int),
            ),
            cmd is Finish ==> model.dispatched == as_ints(dispatched@) && model.processed == i
                as int && model.finished,
        decreases entries.len() - i,
    {
        let ghost rest = receive_from(entries@, i as int, mailbox_closes);
        let e = entries[i];
        let v = if e.kind == EntryKind::LastHandle {
            mgr.ctx.handle_last_handle(e.requests_stop)
        } else {
            mgr.ctx.begin_dispatch();
            if e.requests_stop {
                mgr.ctx.stop();
            }
            let verdict = mgr.ctx.end_dispatch();
            let ghost d0 = dispatched@;
            dispatched.push(i);
            proof {
                if e.requests_stop {
                    lemma_extends_step(model, d0, i, rest, drain_from(entries@, i + 1));
                } else {
                    lemma_extends_step(
                        model,
                        d0,
                        i,
                        rest,
                        receive_from(entries@, i + 1, mailbox_closes),
                    );
                }
            }
            verdict
        };
        cmd = mgr.on_verdict(v);
        i = i + 1;
    }

    if cmd == LoopCommand::AwaitEntry {
        // the script is exhausted while the actor still runs
        if mailbox_closes {
            cmd = mgr.on_mailbox_closed();
            proof {
                // nothing is left to drain: both views of the empty remainder agree
                assert(receive_from(entries@, i as int, mailbox_closes) =~= drain_from(
                    entries@,
                    i as int,
                ));
            }
        } else {
            // parked: the manager keeps awaiting input; it is not discarded
            // here, so the stop hook does not fire yet
            proof {
                assert(model.dispatched =~= as_ints(dispatched@));
            }
            return RunReport { dispatched, processed: i, finished: false, hook_fired: false };
        }
    }

    while cmd == LoopCommand::PollEntry && i < entries.len()
        invariant
            i <= entries.len(),
            !mgr.hook_fired(),
            mgr.actor == old(mgr).actor,
            cmd is PollEntry || cmd is Finish,
            cmd is PollEntry ==> mgr.phase() is Draining && extends(
                model,
                dispatched@,
                drain_from(entries@, i as int),
            ),
            cmd is PollEntry && i < entries.len() ==> !mgr.ctx.is_running(),
            cmd is Finish ==> model.dispatched == as_ints(dispatched@) && model.processed == i
                as int && model.finished,
        decreases entries.len() - i,
    {
        let ghost rest = drain_from(entries@, i as int);
        let e = entries[i];
        let v = if e.kind == EntryKind::LastHandle {
            mgr.ctx.handle_last_handle(e.requests_stop)
        } else {
            mgr.ctx.begin_dispatch();
            if e.requests_stop {
                mgr.ctx.stop();
            }
            let verdict = mgr.ctx.end_dispatch();
            let ghost d0 = dispatched@;
            dispatched.push(i);
            proof {
                if e.requests_stop {
                    crate::lifecycle::lemma_as_ints_push(d0, i);
                } else {
                    lemma_extends_step(model, d0, i, rest, drain_from(entries@, i + 1));
                }
            }
            verdict
        };
        cmd = mgr.on_verdict(v);
        i = i + 1;
    }

    if cmd == LoopCommand::PollEntry {
        // the drain found the mailbox empty: no more work will ever arrive
        cmd = mgr.on_mailbox_empty();
        proof {
            assert(model.dispatched =~= as_ints(dispatched@));
        }
    }

    let fired = mgr.finalize();
    RunReport { dispatched, processed: i, finished: true, hook_fired: fired }
}

} // verus!
