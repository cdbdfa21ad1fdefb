//! The one-shot signal of `futures` by which the end of a drain is announced.

use futures::unsync::oneshot::{Receiver, Sender};
use vstd::prelude::*;

verus! {

/// The completing half of a one-shot channel, opaque here.
#[verifier::external_type_specification]
#[verifier::external_body]
#[verifier::reject_recursive_types(T)]
pub struct ExSender<T>(futures::unsync::oneshot::Sender<T>);

/// The future half of a one-shot channel, opaque here.
#[verifier::external_type_specification]
#[verifier::external_body]
#[verifier::reject_recursive_types(T)]
pub struct ExReceiver<T>(futures::unsync::oneshot::Receiver<T>);

/// `tx` and `rx` are the two halves of one channel.
pub uninterp spec fn paired(tx: Sender<()>, rx: Receiver<()>) -> bool;

/// Completing `tx` with `()` gave `outcome`.
pub uninterp spec fn completed(tx: Sender<()>, outcome: Result<(), ()>) -> bool;

/// Dropping `tx` unused left `gone`, which is nothing.
pub uninterp spec fn canceled(tx: Sender<()>, gone: ()) -> bool;

/// `tx` was completed, whether or not its future was still there to see it.
pub open spec fn resolved(tx: Sender<()>) -> bool {
    exists|outcome: Result<(), ()>| completed(tx, outcome)
}

/// Calls `futures::unsync::oneshot::channel`, which makes a channel and returns its
/// two halves: what is sent on the one resolves the other.
#[verifier::external_body]
pub(crate) fn channel() -> (halves: (Sender<()>, Receiver<()>))
    ensures
        paired(halves.0, halves.1),
{
    futures::unsync::oneshot::channel()
}

/// Calls `futures::unsync::oneshot::Sender::send` with `()`, which resolves the future
/// of the channel. The outcome is an error if that future has been dropped or closed
/// by then; which of the two comes depends on its holder, and no clause says it.
#[verifier::external_body]
pub(crate) fn complete(tx: Sender<()>) -> (outcome: Result<(), ()>)
    ensures
        completed(tx, outcome),
{
    tx.send(())
}

/// Drops a `futures::unsync::oneshot::Sender` that nothing was sent on: its `Drop` wakes
/// the holder of the future, which then finds it canceled, and never resolved.
#[verifier::external_body]
pub(crate) fn cancel(tx: Sender<()>) -> (gone: ())
    ensures
        canceled(tx, gone),
{
    drop(tx)
}

} // verus!
