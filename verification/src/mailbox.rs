//! The mailbox: an unbounded multi-producer/single-consumer channel from the
//! `futures` crate, carrying mailbox entries towards one actor.  The channel
//! itself is an outside primitive; this module declares its two ends and the
//! call that creates them, so that the manager can own the receiving end and
//! hand the sending end out to the handle types.

use vstd::prelude::*;

use crate::entry::MailboxEntry;

verus! {

#[verifier::external_type_specification]
#[verifier::external_body]
#[verifier::reject_recursive_types(T)]
pub struct ExUnboundedSender<T>(futures::channel::mpsc::UnboundedSender<T>);

#[verifier::external_type_specification]
#[verifier::external_body]
#[verifier::reject_recursive_types(T)]
pub struct ExUnboundedReceiver<T>(futures::channel::mpsc::UnboundedReceiver<T>);

/// Relies on futures::channel::mpsc::unbounded: creates the sending and the
/// receiving end of a fresh unbounded channel.
#[verifier::external_body]
pub(crate) fn new_mailbox<E>() -> (
    futures::channel::mpsc::UnboundedSender<MailboxEntry<E>>,
    futures::channel::mpsc::UnboundedReceiver<MailboxEntry<E>>,
)
{
    futures::channel::mpsc::unbounded()
}

} // verus!
