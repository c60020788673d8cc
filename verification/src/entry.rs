//! The taxonomy of mailbox entries and of the verdicts that processing one
//! entry can produce.

use vstd::prelude::*;

verus! {

/// One unit carried by the mailbox towards the actor.  `E` is the type-erased
/// envelope that pairs a message with the logic applying it to the actor; this
/// core never looks inside an envelope.
pub enum MailboxEntry<E> {
    /// The count of external strong handles reached zero.  Carries no payload;
    /// the manager reacts by consulting the actor's stop policy.
    LastHandle,
    /// Ordinary work sent through a strong handle.
    Message(E),
    /// A deferred notification scheduled earlier through a weak handle.  It
    /// must still be honoured even after the actor has begun stopping.
    LateNotification(E),
}

/// The payload-free kind of a mailbox entry, used where the lifecycle logic
/// only cares how an entry is classified, not what it carries.
#[derive(Clone, Copy, PartialEq, Eq, Structural, Debug)]
pub enum EntryKind {
    LastHandle,
    Message,
    LateNotification,
}

/// How to continue the manage loop after one entry has been processed.
#[derive(Clone, Copy, PartialEq, Eq, Structural, Debug)]
pub enum Verdict {
    /// Keep looping: await (or, while draining, poll for) the next entry.
    Continue,
    /// A stop was decided while the actor was still running: switch to the
    /// non-suspending drain of the entries already enqueued.
    EnterDrainPhase,
    /// Terminate at once, discarding whatever is still queued.
    ExitImmediately,
}

} // verus!
