//! A cell in use: the operations on it, one after the other.

use crate::model::{
    CellAction, CellView, ContextCellResult, FlushEvent, SinkEvent, StreamEvent,
};
use futures::unsync::oneshot::Sender;
use vstd::multiset::Multiset;
use vstd::prelude::*;

verus! {

/// One operation on a cell, or one answer that it is waiting for.
pub enum Op<F, I, E, M, D> {
    Send(I),
    /// The transport answers to an item that was sent directly.
    Sent(SinkEvent<I, E>),
    Close,
    /// A drain is asked for, with this signal to end it.
    Drain(Sender<()>),
    Replace(F),
    /// The transport changes while it does what it was asked for.
    Work(F),
    Poll(bool),
    /// The call on the actor returns.
    Resume,
    Stream(StreamEvent<M, D>),
    Item(SinkEvent<I, E>),
    Flush(FlushEvent<E>),
    Shutdown(bool),
}

/// A cell, what it is waiting for, and what has passed through it since its transport
/// was put in place.
#[verifier::ext_equal]
pub struct Session<F, I, E, M, D> {
    pub cell: CellView<F, I, E>,
    /// What polling asked for last.
    pub action: CellAction<I, E, M, D>,
    /// An item that was sent directly and that the transport has not answered to.
    pub direct: Option<I>,
    /// The items that were sent, in order.
    pub sent: Seq<I>,
    /// The items that the transport has taken or failed on, in order.
    pub handed: Seq<I>,
    /// What was read from the transport, frames and failures, in order. Another transport
    /// adds to it.
    pub read: Seq<Result<M, D>>,
    /// What the actor has been called with and is through with, in order.
    pub handled: Seq<Result<M, D>>,
    /// The ends of the stream, as `None`, and the failures to send, as `Some`.
    pub troubles: Multiset<Option<E>>,
    /// What the actor has been told of and is through with.
    pub told: Multiset<Option<E>>,
}

/// The end of the stream or the failure to send that an operation brings.
pub open spec fn trouble_from<F, I, E, M, D>(op: Op<F, I, E, M, D>) -> Multiset<Option<E>> {
    match op {
        Op::Sent(SinkEvent::Failed(err)) => Multiset::singleton(Some(err)),
        Op::Stream(StreamEvent::End) => Multiset::singleton(None),
        Op::Item(SinkEvent::Failed(err)) => Multiset::singleton(Some(err)),
        Op::Flush(FlushEvent::Failed(err)) => Multiset::singleton(Some(err)),
        _ => Multiset::empty(),
    }
}

/// What an answer to reading adds to what was read.
pub open spec fn read_from<M, D>(event: StreamEvent<M, D>) -> Seq<Result<M, D>> {
    match event {
        StreamEvent::Item(msg) => seq![Ok(msg)],
        StreamEvent::Failed(err) => seq![Err(err)],
        _ => Seq::empty(),
    }
}

impl<F, I, E, M, D> Session<F, I, E, M, D> {
    /// A new cell that has not been polled.
    pub open spec fn start(framed: F) -> Self {
        Session {
            cell: CellView::fresh(framed),
            action: CellAction::Done(ContextCellResult::Ready),
            direct: None,
            sent: Seq::empty(),
            handed: Seq::empty(),
            read: Seq::empty(),
            handled: Seq::empty(),
            troubles: Multiset::empty(),
            told: Multiset::empty(),
        }
    }

    /// The actor, or whoever else holds the context, is at work.
    pub open spec fn resting(self) -> bool {
        &&& self.direct is None
        &&& self.action is Done || self.action is Handle || self.action is Closed
    }

    /// The item that the transport has been offered and has not answered to.
    pub open spec fn on_offer(self) -> Seq<I> {
        match (self.direct, self.action) {
            (Some(msg), _) => seq![msg],
            (None, CellAction::StartSend(msg, _)) => seq![msg],
            _ => Seq::empty(),
        }
    }

    /// What the actor is being called with.
    pub open spec fn in_hand(self) -> Seq<Result<M, D>> {
        match self.action {
            CellAction::Handle(res, _, _) => seq![res],
            _ => Seq::empty(),
        }
    }

    /// The end or the failure that the actor is being told of.
    pub open spec fn being_told(self) -> Multiset<Option<E>> {
        match self.action {
            CellAction::Closed(err, _, _) => Multiset::singleton(err),
            _ => Multiset::empty(),
        }
    }

    /// The failure that the actor is still to be told of.
    pub open spec fn untold(self) -> Multiset<Option<E>> {
        match self.cell.error {
            Some(err) => Multiset::singleton(Some(err)),
            None => Multiset::empty(),
        }
    }

    /// Whether an operation can come now. Items that are given back are those that were
    /// offered.
    pub open spec fn allows(self, op: Op<F, I, E, M, D>) -> bool {
        match op {
            Op::Send(_) => self.resting(),
            Op::Sent(event) => {
                &&& self.direct matches Some(offered)
                &&& event matches SinkEvent::NotReady(msg) ==> msg == offered
            },
            Op::Close => self.resting(),
            Op::Drain(_) => self.resting(),
            Op::Replace(_) => self.resting(),
            Op::Work(_) => true,
            Op::Poll(_) => self.resting() && self.action is Done,
            Op::Resume => self.resting() && !(self.action is Done),
            Op::Stream(_) => self.action is PollStream,
            Op::Item(event) => {
                &&& self.action matches CellAction::StartSend(offered, _)
                &&& event matches SinkEvent::NotReady(msg) ==> msg == offered
            },
            Op::Flush(_) => self.action is PollComplete,
            Op::Shutdown(_) => self.action is Shutdown,
        }
    }

    /// The session with what a step of polling came to.
    pub open spec fn stepped(self, step: (CellView<F, I, E>, CellAction<I, E, M, D>)) -> Self {
        Session { cell: step.0, action: step.1, ..self }
    }

    /// The session after an operation.
    pub open spec fn next(self, op: Op<F, I, E, M, D>) -> Self {
        Session {
            troubles: self.troubles.add(trouble_from(op)),
            told: if op is Resume {
                self.told.add(self.being_told())
            } else {
                self.told
            },
            ..self.moved(op)
        }
    }

    /// The session after an operation, but for what the actor is told.
    pub open spec fn moved(self, op: Op<F, I, E, M, D>) -> Self {
        match op {
            Op::Send(msg) => if self.cell.flags.sink_closed {
                self
            } else {
                Session {
                    cell: self.cell.send_begun(msg),
                    direct: if self.cell.sends_directly() {
                        Some(msg)
                    } else {
                        None
                    },
                    sent: self.sent.push(msg),
                    ..self
                }
            },
            Op::Sent(event) => Session {
                cell: self.cell.send_answered(event),
                direct: None,
                handed: if event is NotReady {
                    self.handed
                } else {
                    self.handed + self.on_offer()
                },
                ..self
            },
            Op::Close => Session { cell: self.cell.close_begun(), ..self },
            Op::Drain(tx) => Session { cell: CellView { drain: Some(tx), ..self.cell }, ..self },
            Op::Replace(framed) => Session {
                cell: self.cell.replaced(framed),
                sent: Seq::empty(),
                handed: Seq::empty(),
                ..self
            },
            Op::Work(framed) => Session { cell: CellView { framed, ..self.cell }, ..self },
            Op::Poll(stop) => self.stepped(self.cell.poll_step(stop)),
            Op::Resume => match self.action {
                CellAction::Handle(_, point, round) => Session {
                    handled: self.handled + self.in_hand(),
                    ..self.stepped(self.cell.resume_step(point, round))
                },
                CellAction::Closed(_, point, round) => self.stepped(
                    self.cell.resume_step(point, round),
                ),
                _ => self,
            },
            Op::Stream(event) => match self.action {
                CellAction::PollStream(round) => Session {
                    read: self.read + read_from(event),
                    ..self.stepped(self.cell.stream_step(round, event))
                },
                _ => self,
            },
            Op::Item(event) => match self.action {
                CellAction::StartSend(_, round) => Session {
                    handed: if event is NotReady {
                        self.handed
                    } else {
                        self.handed + self.on_offer()
                    },
                    ..self.stepped(self.cell.item_step(round, event))
                },
                _ => self,
            },
            Op::Flush(event) => match self.action {
                CellAction::PollComplete(round) => self.stepped(
                    self.cell.flushed_step(round, event),
                ),
                _ => self,
            },
            Op::Shutdown(pending) => Session {
                action: CellAction::Done(crate::model::shutdown_result(pending)),
                ..self
            },
        }
    }

    /// The answer of a transport that is not ready for what it was asked to do.
    pub open spec fn refusal(self) -> Option<Op<F, I, E, M, D>> {
        match self.action {
            CellAction::PollStream(_) => Some(Op::Stream(StreamEvent::NotReady)),
            CellAction::StartSend(msg, _) => Some(Op::Item(SinkEvent::NotReady(msg))),
            CellAction::PollComplete(_) => Some(Op::Flush(FlushEvent::NotReady)),
            _ => None,
        }
    }

    /// The session after such an answer, where one is waited for and can come.
    pub open spec fn refused(self) -> Self {
        match self.refusal() {
            Some(op) if self.allows(op) => self.next(op),
            _ => self,
        }
    }

    /// Whether the operations can come in this order.
    pub open spec fn allows_all(self, ops: Seq<Op<F, I, E, M, D>>) -> bool
        decreases ops.len(),
    {
        ops.len() > 0 ==> {
            &&& self.allows_all(ops.drop_last())
            &&& self.after(ops.drop_last()).allows(ops.last())
        }
    }

    /// The session after all the operations.
    pub open spec fn after(self, ops: Seq<Op<F, I, E, M, D>>) -> Self
        decreases ops.len(),
    {
        if ops.len() == 0 {
            self
        } else {
            self.after(ops.drop_last()).next(ops.last())
        }
    }
}

} // verus!
