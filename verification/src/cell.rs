//! The cell that stands between an actor and its framed transport.

use crate::flags::FramedFlags;
use crate::model::{
    CellAction, CellView, ContextCellResult, FlushEvent, Point, Round, SinkEvent, StreamEvent,
};
use crate::signal;
use futures::unsync::oneshot::{Receiver, Sender};
use std::collections::VecDeque;
use vstd::prelude::*;

verus! {

/// Framed object wrapper: the transport `framed`, the items that wait for it and what
/// is known of its two halves.
pub struct ActorFramedCell<F, I, E> {
    pub flags: FramedFlags,
    pub framed: F,
    pub sink_items: VecDeque<I>,
    pub drain: Option<Sender<()>>,
    pub error: Option<E>,
}

impl<F, I, E> View for ActorFramedCell<F, I, E> {
    type V = CellView<F, I, E>;

    open spec fn view(&self) -> CellView<F, I, E> {
        CellView {
            flags: self.flags@,
            framed: self.framed,
            sink_items: self.sink_items@,
            drain: self.drain,
            error: self.error,
        }
    }
}

/// If the signal that `before` held is no longer in `after`, it has been given.
pub open spec fn drain_kept_or_resolved<F, I, E>(
    before: CellView<F, I, E>,
    after: CellView<F, I, E>,
) -> bool {
    before.drain matches Some(tx) ==> after.drain == before.drain || signal::resolved(tx)
}

/// If the cell held a signal, it has been dropped without being given.
pub open spec fn drain_canceled<F, I, E>(before: CellView<F, I, E>) -> bool {
    before.drain matches Some(tx) ==> signal::canceled(tx, ())
}

impl<F, I, E> ActorFramedCell<F, I, E> {
    /// A cell for a transport: nothing buffered, nothing to flush, both halves open.
    pub fn new(framed: F) -> (cell: ActorFramedCell<F, I, E>)
        ensures
            cell@ == CellView::<F, I, E>::fresh(framed),
    {
        ActorFramedCell {
            flags: FramedFlags::sink_flushed(),
            framed,
            sink_items: VecDeque::new(),
            drain: None,
            error: None,
        }
    }

    /// Puts another transport in place. The buffered items are dropped, and so is the
    /// signal of a drain that was asked for, without being given.
    pub fn replace(&mut self, framed: F)
        ensures
            final(self)@ == old(self)@.replaced(framed),
            drain_canceled(old(self)@),
    {
        self.framed = framed;
        self.flags = FramedFlags::sink_flushed();
        self.sink_items.clear();
        if let Some(tx) = self.drain.take() {
            signal::cancel(tx);
        }
    }

    /// Starts closing: the cell ends once everything buffered has been sent.
    pub fn close(&mut self)
        ensures
            final(self)@ == old(self)@.close_begun(),
    {
        self.flags.insert(FramedFlags::closing());
    }

    /// Whether both halves of the transport are closed.
    pub fn closed(&mut self) -> (r: bool)
        ensures
            r == old(self)@.closed(),
            *final(self) == *old(self),
    {
        self.flags.contains(FramedFlags::stream_closed().union(FramedFlags::sink_closed()))
    }

    /// Whether both halves of the transport are open.
    pub fn alive(&self) -> (r: bool)
        ensures
            r == self@.alive(),
    {
        !self.flags.contains(FramedFlags::sink_closed()) && !self.flags.contains(
            FramedFlags::stream_closed(),
        )
    }

    /// Sends an item. Where nothing is waiting, the item comes back: it is to be offered
    /// to the transport at once, and the answer given to `after_send`. Otherwise it is
    /// buffered behind the others.
    pub fn send(&mut self, msg: I) -> (direct: Option<I>)
        ensures
            final(self)@ == old(self)@.send_begun(msg),
            direct == (if old(self)@.sends_directly() {
                Some(msg)
            } else {
                None
            }),
    {
        if self.sink_items.len() == 0 && self.error.is_none() {
            self.flags.remove(FramedFlags::sink_flushed());
            Some(msg)
        } else {
            self.sink_items.push_back(msg);
            None
        }
    }

    /// Takes the transport's answer to an item that `send` handed back.
    pub fn after_send(&mut self, event: SinkEvent<I, E>)
        ensures
            final(self)@ == old(self)@.send_answered(event),
    {
        match event {
            SinkEvent::NotReady(msg) => self.sink_items.push_front(msg),
            SinkEvent::Accepted => (),
            SinkEvent::Failed(err) => self.error = Some(err),
        }
    }

    /// Asks for a drain, and returns the future that resolves once the sink is drained.
    /// A drain is to be asked for once: an earlier one is resolved here.
    pub fn drain(&mut self) -> (rx: Receiver<()>)
        ensures
            final(self)@ == (CellView { drain: final(self)@.drain, ..old(self)@ }),
            final(self)@.drain matches Some(tx) && signal::paired(tx, rx),
            old(self)@.drain matches Some(earlier) ==> signal::resolved(earlier),
    {
        if let Some(tx) = self.drain.take() {
            let _ = signal::complete(tx);
        }
        let (tx, rx) = signal::channel();
        self.drain = Some(tx);
        rx
    }

    /// Gives the transport back. The signal of a drain that was asked for is dropped
    /// without being given.
    pub fn into_framed(self) -> (framed: F)
        ensures
            framed == self@.framed,
            drain_canceled(self@),
    {
        if let Some(tx) = self.drain {
            signal::cancel(tx);
        }
        self.framed
    }
}

impl<F, I, E> ActorFramedCell<F, I, E> {
    /// Starts polling the cell. A failure that the actor has not been told of comes
    /// first; `stop` says that the context is stopping.
    pub fn poll<M, D>(&mut self, stop: bool) -> (action: CellAction<I, E, M, D>)
        ensures
            (final(self)@, action) == old(self)@.poll_step::<M, D>(stop),
            drain_kept_or_resolved(old(self)@, final(self)@),
    {
        if let Some(err) = self.error.take() {
            self.shut();
            return CellAction::Closed(Some(err), Point::Turn, Round { stop, not_ready: true });
        }
        self.turn(stop)
    }

    /// Goes on after a call on the actor. Where the actor, told of a failed sink, has asked
    /// for a drain of another transport, what is buffered for it comes first.
    pub fn resume<M, D>(&mut self, point: Point, round: Round) -> (action: CellAction<I, E, M, D>)
        ensures
            (final(self)@, action) == old(self)@.resume_step::<M, D>(point, round),
            drain_kept_or_resolved(old(self)@, final(self)@),
    {
        match point {
            Point::Turn => self.turn(round.stop),
            Point::Sink => self.sink(round),
            Point::Flush => {
                if self.has_to_drain() {
                    return self.offer(round);
                }
                self.flush(round)
            },
            Point::Settle => {
                if self.has_to_drain() {
                    return self.offer(round);
                }
                self.settle(round)
            },
        }
    }

    /// Goes on after the transport has been polled for an item.
    pub fn after_stream<M, D>(&mut self, round: Round, event: StreamEvent<M, D>) -> (action:
        CellAction<I, E, M, D>)
        ensures
            (final(self)@, action) == old(self)@.stream_step::<M, D>(round, event),
            drain_kept_or_resolved(old(self)@, final(self)@),
    {
        match event {
            StreamEvent::Item(msg) => CellAction::Handle(
                Ok(msg),
                Point::Sink,
                Round { stop: round.stop, not_ready: false },
            ),
            StreamEvent::End => {
                self.shut();
                CellAction::Closed(None, Point::Sink, round)
            },
            StreamEvent::NotReady => self.sink(round),
            StreamEvent::Failed(err) => {
                self.shut();
                CellAction::Handle(Err(err), Point::Sink, round)
            },
        }
    }

    /// Goes on after a buffered item has been offered to the transport.
    pub fn after_item<M, D>(&mut self, round: Round, event: SinkEvent<I, E>) -> (action: CellAction<
        I,
        E,
        M,
        D,
    >)
        ensures
            (final(self)@, action) == old(self)@.item_step::<M, D>(round, event),
            drain_kept_or_resolved(old(self)@, final(self)@),
    {
        match event {
            SinkEvent::NotReady(msg) => {
                self.sink_items.push_front(msg);
                if self.drain.is_some() {
                    return CellAction::Done(ContextCellResult::NotReady);
                }
                self.flush(round)
            },
            SinkEvent::Accepted => self.offer(round),
            SinkEvent::Failed(err) => {
                self.shut();
                CellAction::Closed(Some(err), Point::Flush, round)
            },
        }
    }

    /// Goes on after the transport has been flushed.
    pub fn after_flush<M, D>(&mut self, round: Round, event: FlushEvent<E>) -> (action: CellAction<
        I,
        E,
        M,
        D,
    >)
        ensures
            (final(self)@, action) == old(self)@.flushed_step::<M, D>(round, event),
            drain_kept_or_resolved(old(self)@, final(self)@),
    {
        match event {
            FlushEvent::Flushed => {
                self.flags.insert(FramedFlags::sink_flushed());
                self.settle(Round { stop: round.stop, not_ready: false })
            },
            FlushEvent::NotReady => {
                if self.drain.is_some() {
                    return CellAction::Done(ContextCellResult::NotReady);
                }
                self.settle(round)
            },
            FlushEvent::Failed(err) => {
                self.flags.insert(FramedFlags::sink_closed().union(FramedFlags::sink_flushed()));
                CellAction::Closed(Some(err), Point::Settle, round)
            },
        }
    }

    /// What polling comes to once the transport has been asked to shut down; `pending`
    /// says that it is not through with it yet.
    pub fn after_shutdown(&self, pending: bool) -> (r: ContextCellResult)
        ensures
            r == crate::model::shutdown_result(pending),
    {
        if pending {
            ContextCellResult::NotReady
        } else {
            ContextCellResult::Ready
        }
    }

    fn has_to_drain(&self) -> (r: bool)
        ensures
            r == self@.has_to_drain(),
    {
        self.drain.is_some() && !self.flags.contains(FramedFlags::sink_closed())
    }

    fn shut(&mut self)
        ensures
            final(self)@ == old(self)@.shut(),
    {
        self.flags.insert(FramedFlags::sink_closed().union(FramedFlags::stream_closed()));
    }

    fn turn<M, D>(&mut self, stop: bool) -> (action: CellAction<I, E, M, D>)
        ensures
            (final(self)@, action) == old(self)@.turn_step::<M, D>(stop),
            drain_kept_or_resolved(old(self)@, final(self)@),
        decreases 0nat, 5nat,
    {
        let round = Round { stop, not_ready: true };
        if self.drain.is_none() && !self.flags.contains(FramedFlags::closing())
            && !self.flags.contains(FramedFlags::stream_closed()) {
            return CellAction::PollStream(round);
        }
        self.sink(round)
    }

    fn sink<M, D>(&mut self, round: Round) -> (action: CellAction<I, E, M, D>)
        ensures
            (final(self)@, action) == old(self)@.sink_step::<M, D>(round),
            drain_kept_or_resolved(old(self)@, final(self)@),
        decreases round.turns_left(), 4nat,
    {
        if self.flags.contains(FramedFlags::sink_closed()) {
            self.settle(round)
        } else {
            self.offer(round)
        }
    }

    fn offer<M, D>(&mut self, round: Round) -> (action: CellAction<I, E, M, D>)
        ensures
            (final(self)@, action) == old(self)@.offer_step::<M, D>(round),
            drain_kept_or_resolved(old(self)@, final(self)@),
        decreases round.turns_left(), 3nat,
    {
        if let Some(msg) = self.sink_items.pop_front() {
            self.flags.remove(FramedFlags::sink_flushed());
            return CellAction::StartSend(msg, round);
        }
        self.flush(round)
    }

    fn flush<M, D>(&mut self, round: Round) -> (action: CellAction<I, E, M, D>)
        ensures
            (final(self)@, action) == old(self)@.flush_step::<M, D>(round),
            drain_kept_or_resolved(old(self)@, final(self)@),
        decreases round.turns_left(), 2nat,
    {
        if !self.flags.contains(FramedFlags::sink_flushed()) {
            return CellAction::PollComplete(round);
        }
        self.settle(round)
    }

    fn settle<M, D>(&mut self, round: Round) -> (action: CellAction<I, E, M, D>)
        ensures
            (final(self)@, action) == old(self)@.settle_step::<M, D>(round),
            drain_kept_or_resolved(old(self)@, final(self)@),
        decreases round.turns_left(), 1nat,
    {
        if self.flags.contains(FramedFlags::closing()) && self.flags.contains(
            FramedFlags::sink_flushed(),
        ) && self.sink_items.len() == 0 {
            self.flags.insert(FramedFlags::sink_closed());
        }
        if let Some(tx) = self.drain.take() {
            let _ = signal::complete(tx);
        }
        assert(self@ == old(self)@.settled());
        if !round.not_ready {
            return self.turn(round.stop);
        }
        if !self.alive() {
            CellAction::Done(ContextCellResult::Stop)
        } else if round.stop {
            CellAction::Shutdown
        } else {
            CellAction::Done(ContextCellResult::Ready)
        }
    }
}

} // verus!
