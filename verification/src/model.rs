//! What a cell asks for, what it is told, and how it gets from one state to the next.

use crate::flags::FlagSet;
use futures::unsync::oneshot::Sender;
use vstd::prelude::*;

verus! {

/// What polling a cell came to.
#[derive(Clone, Copy, Debug, PartialEq, Eq, Structural)]
pub enum ContextCellResult {
    /// The cell has nothing more to do for now; the rest of the context goes on.
    Ready,
    /// The cell is waiting, and the rest of the context waits with it.
    NotReady,
    /// The cell has come to its end.
    Stop,
}

/// What polling the transport for an item came to.
#[derive(Debug)]
pub enum StreamEvent<M, D> {
    Item(M),
    End,
    NotReady,
    Failed(D),
}

/// What offering an item to the transport came to.
#[derive(Debug)]
pub enum SinkEvent<I, E> {
    /// The transport has taken the item.
    Accepted,
    /// The transport cannot take the item now and gives it back.
    NotReady(I),
    /// The transport has failed; the item is gone.
    Failed(E),
}

/// What flushing the transport came to.
#[derive(Debug)]
pub enum FlushEvent<E> {
    Flushed,
    NotReady,
    Failed(E),
}

/// One turn of polling: whether the context is stopping, and whether nothing has moved
/// in this turn so far.
#[derive(Clone, Copy, Debug, PartialEq, Eq, Structural)]
pub struct Round {
    pub stop: bool,
    pub not_ready: bool,
}

/// Where polling goes on after a call on the actor.
#[derive(Clone, Copy, Debug, PartialEq, Eq, Structural)]
pub enum Point {
    /// At the start of a turn.
    Turn,
    /// At the buffered items.
    Sink,
    /// At flushing.
    Flush,
    /// At the end of the turn.
    Settle,
}

/// What has to happen next: an operation on the transport, a call on the actor, or
/// nothing more.
#[derive(Debug)]
pub enum CellAction<I, E, M, D> {
    /// Poll the transport for an item and report it with `after_stream`.
    PollStream(Round),
    /// Offer the item to the transport and report it with `after_item`.
    StartSend(I, Round),
    /// Flush the transport and report it with `after_flush`.
    PollComplete(Round),
    /// Shut the transport down and report it with `after_shutdown`.
    Shutdown,
    /// Hand what was received to the actor, then go on with `resume`.
    Handle(Result<M, D>, Point, Round),
    /// Tell the actor that the transport is closed, then go on with `resume`.
    Closed(Option<E>, Point, Round),
    /// Polling is over.
    Done(ContextCellResult),
}

/// The state of a cell.
#[verifier::ext_equal]
pub struct CellView<F, I, E> {
    pub flags: FlagSet,
    pub framed: F,
    /// The items that the transport has not taken yet, the oldest first.
    pub sink_items: Seq<I>,
    /// The signal to give once the buffered items are out.
    pub drain: Option<Sender<()>>,
    /// A failure that the actor has not been told of yet.
    pub error: Option<E>,
}

impl<F, I, E> CellView<F, I, E> {
    /// A cell that has just been given its transport.
    pub open spec fn fresh(framed: F) -> Self {
        CellView {
            flags: FlagSet { sink_flushed: true, ..FlagSet::none() },
            framed,
            sink_items: Seq::empty(),
            drain: None,
            error: None,
        }
    }

    /// The cell with another transport: everything is as in a new cell, but a failure
    /// that the actor has not been told of is kept.
    pub open spec fn replaced(self, framed: F) -> Self {
        CellView { error: self.error, ..Self::fresh(framed) }
    }

    /// The cell once it has been asked to close.
    pub open spec fn close_begun(self) -> Self {
        CellView { flags: FlagSet { closing: true, ..self.flags }, ..self }
    }

    /// Both halves are open.
    pub open spec fn alive(self) -> bool {
        !self.flags.sink_closed && !self.flags.stream_closed
    }

    /// Both halves are closed.
    pub open spec fn closed(self) -> bool {
        self.flags.sink_closed && self.flags.stream_closed
    }

    /// The cell with both halves closed.
    pub open spec fn shut(self) -> Self {
        CellView {
            flags: FlagSet { sink_closed: true, stream_closed: true, ..self.flags },
            ..self
        }
    }

    /// The cell with the flushed mark as given.
    pub open spec fn with_flushed(self, flushed: bool) -> Self {
        CellView { flags: FlagSet { sink_flushed: flushed, ..self.flags }, ..self }
    }

    /// An item sent now may overtake nothing, and goes to the transport at once.
    pub open spec fn sends_directly(self) -> bool {
        self.sink_items.len() == 0 && self.error is None
    }

    /// The cell once an item is to be sent, before the transport has answered.
    pub open spec fn send_begun(self, msg: I) -> Self {
        if self.sends_directly() {
            self.with_flushed(false)
        } else {
            CellView { sink_items: self.sink_items.push(msg), ..self }
        }
    }

    /// The cell once the transport has answered to an item that was sent directly.
    pub open spec fn send_answered(self, event: SinkEvent<I, E>) -> Self {
        match event {
            SinkEvent::Accepted => self,
            SinkEvent::NotReady(msg) => self.given_back(msg),
            SinkEvent::Failed(err) => CellView { error: Some(err), ..self },
        }
    }

    /// The cell with an item put back in front of all others.
    pub open spec fn given_back(self, msg: I) -> Self {
        CellView { sink_items: seq![msg] + self.sink_items, ..self }
    }

    /// The transport is read from: nobody waits for a drain, and reading has not ended.
    pub open spec fn reads(self) -> bool {
        self.drain is None && !self.flags.closing && !self.flags.stream_closed
    }

    /// Everything that was sent has left the cell and the transport's buffer.
    pub open spec fn drained(self) -> bool {
        self.sink_items.len() == 0 && self.flags.sink_flushed
    }

    /// The cell at the end of a turn: a closing sink with nothing left is closed, and
    /// whoever waits for a drain has been told.
    pub open spec fn settled(self) -> Self {
        CellView {
            flags: FlagSet {
                sink_closed: self.flags.sink_closed || (self.flags.closing && self.drained()),
                ..self.flags
            },
            drain: None,
            ..self
        }
    }

    /// The cell starts to be polled.
    pub open spec fn poll_step<M, D>(self, stop: bool) -> (Self, CellAction<I, E, M, D>) {
        match self.error {
            Some(err) => (
                CellView { error: None, ..self.shut() },
                CellAction::Closed(Some(err), Point::Turn, Round { stop, not_ready: true }),
            ),
            None => self.turn_step(stop),
        }
    }

    /// What the transport is left to do with what was sent: to take the oldest item or,
    /// where none is buffered, to flush.
    pub open spec fn sink_work<M, D>(self, round: Round) -> Option<
        (Self, CellAction<I, E, M, D>),
    > {
        if self.sink_items.len() > 0 {
            Some(
                (
                    CellView {
                        sink_items: self.sink_items.subrange(1, self.sink_items.len() as int),
                        ..self.with_flushed(false)
                    },
                    CellAction::StartSend(self.sink_items[0], round),
                ),
            )
        } else if !self.flags.sink_flushed {
            Some((self, CellAction::PollComplete(round)))
        } else {
            None
        }
    }

    /// A turn ends in which nothing has moved, and polling with it.
    pub open spec fn end_step<M, D>(self, stop: bool) -> (Self, CellAction<I, E, M, D>) {
        let next = self.settled();
        if !next.alive() {
            (next, CellAction::Done(ContextCellResult::Stop))
        } else if stop {
            (next, CellAction::Shutdown)
        } else {
            (next, CellAction::Done(ContextCellResult::Ready))
        }
    }

    /// A turn starts: the transport is read from first, and written to unless the sink
    /// is closed.
    pub open spec fn turn_step<M, D>(self, stop: bool) -> (Self, CellAction<I, E, M, D>) {
        let round = Round { stop, not_ready: true };
        if self.reads() {
            (self, CellAction::PollStream(round))
        } else {
            match self.sink_work::<M, D>(round) {
                Some(work) if !self.flags.sink_closed => work,
                _ => self.end_step(stop),
            }
        }
    }

    /// A turn ends: another one follows if something has moved in it.
    pub open spec fn settle_step<M, D>(self, round: Round) -> (Self, CellAction<I, E, M, D>) {
        if round.not_ready {
            self.end_step(round.stop)
        } else {
            self.settled().turn_step(round.stop)
        }
    }

    /// The sink's part of a turn, left out once the sink is closed.
    pub open spec fn sink_step<M, D>(self, round: Round) -> (Self, CellAction<I, E, M, D>) {
        if self.flags.sink_closed {
            self.settle_step(round)
        } else {
            self.offer_step(round)
        }
    }

    /// The oldest item is offered; where there is none, flushing is next.
    pub open spec fn offer_step<M, D>(self, round: Round) -> (Self, CellAction<I, E, M, D>) {
        match self.sink_work::<M, D>(round) {
            Some(work) => work,
            None => self.settle_step(round),
        }
    }

    /// What has not been flushed is flushed.
    pub open spec fn flush_step<M, D>(self, round: Round) -> (Self, CellAction<I, E, M, D>) {
        if self.flags.sink_flushed {
            self.settle_step(round)
        } else {
            (self, CellAction::PollComplete(round))
        }
    }

    /// The transport has been polled for an item.
    pub open spec fn stream_step<M, D>(self, round: Round, event: StreamEvent<M, D>) -> (
        Self,
        CellAction<I, E, M, D>,
    ) {
        match event {
            StreamEvent::Item(msg) => (
                self,
                CellAction::Handle(Ok(msg), Point::Sink, Round { not_ready: false, ..round }),
            ),
            StreamEvent::End => (self.shut(), CellAction::Closed(None, Point::Sink, round)),
            StreamEvent::NotReady => self.sink_step(round),
            StreamEvent::Failed(err) => (
                self.shut(),
                CellAction::Handle(Err(err), Point::Sink, round),
            ),
        }
    }

    /// A buffered item has been offered to the transport.
    pub open spec fn item_step<M, D>(self, round: Round, event: SinkEvent<I, E>) -> (
        Self,
        CellAction<I, E, M, D>,
    ) {
        match event {
            SinkEvent::Accepted => self.offer_step(round),
            SinkEvent::NotReady(msg) => if self.drain is Some {
                (self.given_back(msg), CellAction::Done(ContextCellResult::NotReady))
            } else {
                self.given_back(msg).flush_step(round)
            },
            SinkEvent::Failed(err) => (
                self.shut(),
                CellAction::Closed(Some(err), Point::Flush, round),
            ),
        }
    }

    /// The transport has been flushed.
    pub open spec fn flushed_step<M, D>(self, round: Round, event: FlushEvent<E>) -> (
        Self,
        CellAction<I, E, M, D>,
    ) {
        match event {
            FlushEvent::Flushed => self.with_flushed(true).settle_step(
                Round { not_ready: false, ..round },
            ),
            FlushEvent::NotReady => if self.drain is Some {
                (self, CellAction::Done(ContextCellResult::NotReady))
            } else {
                self.settle_step(round)
            },
            FlushEvent::Failed(err) => (
                CellView {
                    flags: FlagSet { sink_closed: true, sink_flushed: true, ..self.flags },
                    ..self
                },
                CellAction::Closed(Some(err), Point::Settle, round),
            ),
        }
    }

    /// Somebody waits for a drain of a sink that is open.
    pub open spec fn has_to_drain(self) -> bool {
        self.drain is Some && !self.flags.sink_closed
    }

    /// A call on the actor has returned. An actor that was told of a failed sink may have
    /// put another transport in place and asked for a drain of it: what it sent there is
    /// offered first.
    pub open spec fn resume_step<M, D>(self, point: Point, round: Round) -> (
        Self,
        CellAction<I, E, M, D>,
    ) {
        match point {
            Point::Turn => self.turn_step(round.stop),
            Point::Sink => self.sink_step(round),
            Point::Flush => if self.has_to_drain() {
                self.offer_step(round)
            } else {
                self.flush_step(round)
            },
            Point::Settle => if self.has_to_drain() {
                self.offer_step(round)
            } else {
                self.settle_step(round)
            },
        }
    }
}

impl Round {
    /// How many more turns can follow without anything from outside.
    pub open spec fn turns_left(self) -> nat {
        if self.not_ready {
            0
        } else {
            1
        }
    }
}

/// What polling comes to once the transport has been asked to shut down.
pub open spec fn shutdown_result(pending: bool) -> ContextCellResult {
    if pending {
        ContextCellResult::NotReady
    } else {
        ContextCellResult::Ready
    }
}

} // verus!
