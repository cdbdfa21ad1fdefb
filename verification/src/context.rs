//! The context of an actor that works over a framed transport.

use crate::cell::ActorFramedCell;
use crate::flags::FramedFlags;
use crate::model::{CellAction, CellView, ContextCellResult, Point, Round, SinkEvent};
use crate::signal;
use futures::unsync::oneshot::Receiver;
use vstd::prelude::*;

verus! {

/// Actor execution context for a framed transport: the actor, its cell as long as the
/// transport has not been taken away, and whether the transport was exchanged.
pub struct FramedContext<A, F, I, E> {
    pub act: Option<A>,
    /// Set when another transport is put in place, so that the runtime polls again.
    pub modified: bool,
    pub cell: Option<ActorFramedCell<F, I, E>>,
}

/// The state of a context.
#[verifier::ext_equal]
pub struct ContextView<A, F, I, E> {
    pub act: Option<A>,
    pub modified: bool,
    pub cell: Option<CellView<F, I, E>>,
}

impl<A, F, I, E> View for FramedContext<A, F, I, E> {
    type V = ContextView<A, F, I, E>;

    open spec fn view(&self) -> ContextView<A, F, I, E> {
        ContextView {
            act: self.act,
            modified: self.modified,
            cell: match self.cell {
                Some(cell) => Some(cell@),
                None => None,
            },
        }
    }
}

impl<A, F, I, E> ContextView<A, F, I, E> {
    /// A context for an actor and its transport.
    pub open spec fn fresh(act: Option<A>, framed: F) -> Self {
        ContextView { act, modified: false, cell: Some(CellView::fresh(framed)) }
    }

    /// The sink is there and has not been closed.
    pub open spec fn accepts(self) -> bool {
        self.cell matches Some(cell) && !cell.flags.sink_closed
    }

    /// The context once an item is to be sent, before the transport has answered.
    pub open spec fn send_begun(self, msg: I) -> Self {
        match self.cell {
            Some(cell) if self.accepts() => ContextView {
                cell: Some(cell.send_begun(msg)),
                ..self
            },
            _ => self,
        }
    }

    /// What `send` returns: the item itself where the sink is closed, and otherwise
    /// whether it has to be offered to the transport at once.
    pub open spec fn send_result(self, msg: I) -> Result<Option<I>, I> {
        match self.cell {
            Some(cell) if self.accepts() => if cell.sends_directly() {
                Ok(Some(msg))
            } else {
                Ok(None)
            },
            _ => Err(msg),
        }
    }

    /// The context once the transport has answered to an item that was sent directly.
    pub open spec fn send_answered(self, event: SinkEvent<I, E>) -> Self {
        match self.cell {
            Some(cell) => ContextView { cell: Some(cell.send_answered(event)), ..self },
            None => self,
        }
    }

    /// The context once it has been asked to close.
    pub open spec fn close_begun(self) -> Self {
        match self.cell {
            Some(cell) => ContextView { cell: Some(cell.close_begun()), ..self },
            None => self,
        }
    }

    /// The context without its transport.
    pub open spec fn taken(self) -> Self {
        ContextView { cell: None, ..self }
    }

    /// The transport that `take` gives back.
    pub open spec fn transport(self) -> Option<F> {
        match self.cell {
            Some(cell) => Some(cell.framed),
            None => None,
        }
    }

    /// The context with another transport in place.
    pub open spec fn replaced(self, framed: F) -> Self {
        ContextView {
            modified: true,
            cell: Some(
                match self.cell {
                    Some(cell) => cell.replaced(framed),
                    None => CellView::fresh(framed),
                },
            ),
            ..self
        }
    }
}

/// What an actor does when its supervisor restarts it.
pub trait Supervised<C>: Sized {
    /// Whether `restarting` may turn the actor and its context, as they were, into what
    /// they are afterwards. An actor that does not say it may do anything.
    open spec fn restarts(self, ctx: C, after: Self, ctx_after: C) -> bool {
        true
    }

    /// Called on the actor before it is run again.
    fn restarting(&mut self, ctx: &mut C)
        ensures
            old(self).restarts(*old(ctx), *final(self), *final(ctx)),
    ;
}

impl<A, F, I, E> FramedContext<A, F, I, E> {
    /// The context as its actor finds it while it works on it.
    pub open spec fn without_actor(self) -> Self {
        FramedContext { act: None, ..self }
    }

    /// A context for an actor and a transport.
    pub fn framed(act: Option<A>, framed: F) -> (ctx: FramedContext<A, F, I, E>)
        ensures
            ctx@ == ContextView::<A, F, I, E>::fresh(act, framed),
    {
        FramedContext { act, modified: false, cell: Some(ActorFramedCell::new(framed)) }
    }

    /// Send item to sink. If sink is closed item returned as an error.
    ///
    /// `Ok(Some(item))` is an item that nothing has to wait for: it is to be offered to
    /// the transport at once, and the answer given to `after_send`. `Ok(None)` says that
    /// the item has been buffered.
    pub fn send(&mut self, msg: I) -> (r: Result<Option<I>, I>)
        ensures
            r == old(self)@.send_result(msg),
            final(self)@ == old(self)@.send_begun(msg),
    {
        if let Some(framed) = self.cell.as_mut() {
            if framed.flags.contains(FramedFlags::sink_closed()) {
                return Err(msg);
            }
            Ok(framed.send(msg))
        } else {
            Err(msg)
        }
    }

    /// Takes the transport's answer to an item that `send` handed back.
    pub fn after_send(&mut self, event: SinkEvent<I, E>)
        ensures
            final(self)@ == old(self)@.send_answered(event),
    {
        if let Some(framed) = self.cell.as_mut() {
            framed.after_send(event);
        }
    }

    /// Gracefully close the transport. The context will try to send all buffered items
    /// and then close.
    pub fn close(&mut self)
        ensures
            final(self)@ == old(self)@.close_begun(),
    {
        if let Some(framed) = self.cell.as_mut() {
            framed.close();
        }
    }

    /// Initiate sink drain.
    ///
    /// Returns a one-shot future that resolves when the sink is drained; where there is
    /// no transport it has been resolved already. All other actor activities are paused.
    pub fn drain(&mut self) -> (rx: Receiver<()>)
        ensures
            match old(self)@.cell {
                Some(cell) => {
                    &&& final(self)@ == (ContextView { cell: final(self)@.cell, ..old(self)@ })
                    &&& final(self)@.cell matches Some(after)
                    &&& after == (CellView { drain: after.drain, ..cell })
                    &&& after.drain matches Some(tx)
                    &&& signal::paired(tx, rx)
                    &&& cell.drain matches Some(earlier) ==> signal::resolved(earlier)
                },
                None => {
                    &&& final(self)@ == old(self)@
                    &&& exists|tx| #[trigger] signal::paired(tx, rx) && signal::resolved(tx)
                },
            },
    {
        if let Some(framed) = self.cell.as_mut() {
            framed.drain()
        } else {
            let (tx, rx) = signal::channel();
            let _ = signal::complete(tx);
            rx
        }
    }

    /// Get inner framed object. What was buffered for it is dropped, and so is the signal
    /// of a drain that was asked for, without being given.
    pub fn take(&mut self) -> (framed: Option<F>)
        ensures
            old(self)@.cell matches Some(cell) ==> crate::cell::drain_canceled(cell),
            framed == old(self)@.transport(),
            final(self)@ == old(self)@.taken(),
    {
        if let Some(cell) = self.cell.take() {
            Some(cell.into_framed())
        } else {
            None
        }
    }

    /// Replace existing framed object with new object.
    ///
    /// Consider to use `drain()` before replace framed object, because the sink buffer
    /// gets dropped as well, and the signal of a drain that is pending is never given.
    pub fn replace(&mut self, framed: F)
        ensures
            old(self)@.cell matches Some(cell) ==> crate::cell::drain_canceled(cell),
            final(self)@ == old(self)@.replaced(framed),
    {
        self.modified = true;
        if let Some(cell) = self.cell.as_mut() {
            cell.replace(framed);
            return;
        }
        self.cell = Some(ActorFramedCell::new(framed));
    }

    /// Starts polling the cell; see `ActorFramedCell::poll`. Without a transport there is
    /// nothing to do, and nothing to wait for.
    pub fn poll<M, D>(&mut self, stop: bool) -> (action: CellAction<I, E, M, D>)
        ensures
            final(self)@ == (ContextView { cell: final(self)@.cell, ..old(self)@ }),
            match (old(self)@.cell, final(self)@.cell) {
                (Some(before), Some(after)) => {
                    &&& (after, action) == before.poll_step::<M, D>(stop)
                    &&& crate::cell::drain_kept_or_resolved(before, after)
                },
                (None, None) => action == CellAction::<I, E, M, D>::Done(ContextCellResult::Ready),
                _ => false,
            },
    {
        if let Some(cell) = self.cell.as_mut() {
            cell.poll(stop)
        } else {
            CellAction::Done(ContextCellResult::Ready)
        }
    }

    /// Goes on after a call on the actor; see `ActorFramedCell::resume`. Where the actor
    /// has taken the transport away, polling is over.
    pub fn resume<M, D>(&mut self, point: Point, round: Round) -> (action: CellAction<I, E, M, D>)
        ensures
            final(self)@ == (ContextView { cell: final(self)@.cell, ..old(self)@ }),
            match (old(self)@.cell, final(self)@.cell) {
                (Some(before), Some(after)) => {
                    &&& (after, action) == before.resume_step::<M, D>(point, round)
                    &&& crate::cell::drain_kept_or_resolved(before, after)
                },
                (None, None) => action == CellAction::<I, E, M, D>::Done(ContextCellResult::Ready),
                _ => false,
            },
    {
        if let Some(cell) = self.cell.as_mut() {
            cell.resume(point, round)
        } else {
            CellAction::Done(ContextCellResult::Ready)
        }
    }

    /// Lets the actor prepare for being run again. It works on the context while it is
    /// not in it, and is put back afterwards.
    pub fn restarting(&mut self)
        where A: Supervised<FramedContext<A, F, I, E>>
        requires
            old(self)@.act is Some,
        ensures
            exists|act: A, ctx: FramedContext<A, F, I, E>|
                {
                    &&& #[trigger] old(self).act->0.restarts(
                        old(self).without_actor(),
                        act,
                        ctx,
                    )
                    &&& *final(self) == (FramedContext { act: Some(act), ..ctx })
                },
    {
        if let Some(mut act) = self.act.take() {
            act.restarting(self);
            self.act = Some(act);
        }
    }

    /// Puts an actor in place.
    pub fn set_actor(&mut self, act: A)
        ensures
            final(self)@ == (ContextView { act: Some(act), ..old(self)@ }),
    {
        self.act = Some(act);
    }

    /// Gives the actor back.
    pub fn into_inner(self) -> (act: A)
        requires
            self@.act is Some,
        ensures
            Some(act) == self@.act,
    {
        self.act.unwrap()
    }
}

} // verus!
