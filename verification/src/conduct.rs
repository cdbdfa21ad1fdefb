//! What a single call on a cell or a context does, whatever state it is made in.
//!
//! These laws speak of nothing but the parts of a state: its marks, its buffer, its
//! transport, its signal and its failure.

use crate::context::{ContextView, FramedContext};
use crate::flags::FlagSet;
use crate::model::{
    CellAction, CellView, ContextCellResult, FlushEvent, Point, Round, SinkEvent, StreamEvent,
};
use crate::session::{Op, Session};
use vstd::prelude::*;

verus! {

/// A cell that is ready to receive asks for a frame before anything else, whatever is
/// buffered or waits to be flushed: only a drain, closing or the end of the stream keeps
/// it from reading. Asking changes nothing.
pub proof fn law_reading_comes_first<F, I, E, M, D>(cell: CellView<F, I, E>, stop: bool)
    requires
        cell.drain is None,
        !cell.flags.closing,
        !cell.flags.stream_closed,
    ensures
        cell.error is None ==> cell.poll_step::<M, D>(stop) == (
            cell,
            CellAction::<I, E, M, D>::PollStream(Round { stop, not_ready: true }),
        ),
        forall|round: Round|
            round.stop == stop ==> #[trigger] cell.resume_step::<M, D>(Point::Turn, round) == (
                cell,
                CellAction::<I, E, M, D>::PollStream(Round { stop, not_ready: true }),
            ),
{
}

/// Once something has moved in a turn, another turn follows in the same poll, and it
/// begins with reading: after a flush, and after a frame where the sink has nothing to do.
pub proof fn law_progress_reads_again<F, I, E, M, D>(
    cell: CellView<F, I, E>,
    round: Round,
    msg: M,
)
    requires
        !cell.flags.closing,
        !cell.flags.stream_closed,
    ensures
        ({
            let (after, action) = cell.flushed_step::<M, D>(round, FlushEvent::Flushed);
            &&& action == CellAction::<I, E, M, D>::PollStream(
                Round { stop: round.stop, not_ready: true },
            )
            &&& after.sink_items == cell.sink_items
            &&& after.flags == (FlagSet { sink_flushed: true, ..cell.flags })
            &&& after.drain is None
        }),
        cell.flags.sink_closed || (cell.sink_items.len() == 0 && cell.flags.sink_flushed) ==> ({
            let (called, call) = cell.stream_step::<M, D>(round, StreamEvent::Item(msg));
            &&& call matches CellAction::Handle(_, point, next)
            &&& called.resume_step::<M, D>(point, next) == (
                CellView { drain: None, ..cell },
                CellAction::<I, E, M, D>::PollStream(
                    Round { stop: round.stop, not_ready: true },
                ),
            )
        }),
{
}

/// A frame goes to the actor at once, and changes nothing in the cell.
pub proof fn law_frame_goes_to_the_actor<F, I, E, M, D>(
    cell: CellView<F, I, E>,
    round: Round,
    msg: M,
)
    ensures
        ({
            let (after, action) = cell.stream_step::<M, D>(round, StreamEvent::Item(msg));
            &&& after == cell
            &&& action matches CellAction::Handle(res, point, next)
            &&& res == Ok::<M, D>(msg)
            &&& point == Point::Sink
            &&& next.stop == round.stop
            &&& !next.not_ready
        }),
{
}

/// The end of the stream closes both halves and is told to the actor as such, and nothing
/// else in the cell changes, whatever it holds.
pub proof fn law_end_of_stream_is_told<F, I, E, M, D>(cell: CellView<F, I, E>, round: Round)
    ensures
        ({
            let (after, action) = cell.stream_step::<M, D>(round, StreamEvent::End);
            &&& action == CellAction::<I, E, M, D>::Closed(None, Point::Sink, round)
            &&& after.flags.sink_closed
            &&& after.flags.stream_closed
            &&& after == (CellView {
                flags: FlagSet { sink_closed: true, stream_closed: true, ..cell.flags },
                ..cell
            })
        }),
{
}

/// A failure to read closes both halves and is handed to the actor.
pub proof fn law_read_failure_is_handled<F, I, E, M, D>(
    cell: CellView<F, I, E>,
    round: Round,
    err: D,
)
    ensures
        ({
            let (after, action) = cell.stream_step::<M, D>(round, StreamEvent::Failed(err));
            &&& action == CellAction::<I, E, M, D>::Handle(Err(err), Point::Sink, round)
            &&& after == (CellView {
                flags: FlagSet { sink_closed: true, stream_closed: true, ..cell.flags },
                ..cell
            })
        }),
{
}

/// A failure to send is told to the actor, whatever is left in the buffer: that of an item
/// closes both halves, that of a flush closes the sink.
pub proof fn law_sink_failure_is_told<F, I, E, M, D>(
    cell: CellView<F, I, E>,
    round: Round,
    err: E,
)
    ensures
        ({
            let (after, action) = cell.item_step::<M, D>(round, SinkEvent::Failed(err));
            &&& action == CellAction::<I, E, M, D>::Closed(Some(err), Point::Flush, round)
            &&& after == (CellView {
                flags: FlagSet { sink_closed: true, stream_closed: true, ..cell.flags },
                ..cell
            })
        }),
        ({
            let (after, action) = cell.flushed_step::<M, D>(round, FlushEvent::Failed(err));
            &&& action == CellAction::<I, E, M, D>::Closed(Some(err), Point::Settle, round)
            &&& after == (CellView {
                flags: FlagSet { sink_closed: true, sink_flushed: true, ..cell.flags },
                ..cell
            })
        }),
{
}

/// A failure that the actor has not been told of comes before everything else when the
/// cell is polled. It is told once, and both halves are closed by then.
pub proof fn law_untold_failure_comes_first<F, I, E, M, D>(
    cell: CellView<F, I, E>,
    err: E,
    stop: bool,
)
    requires
        cell.error == Some(err),
    ensures
        cell.poll_step::<M, D>(stop) == (
            CellView {
                flags: FlagSet { sink_closed: true, stream_closed: true, ..cell.flags },
                error: None,
                ..cell
            },
            CellAction::<I, E, M, D>::Closed(
                Some(err),
                Point::Turn,
                Round { stop, not_ready: true },
            ),
        ),
{
}

/// The oldest item is what the transport is offered, taken off the buffer, and from then
/// on there is something to flush.
pub open spec fn oldest_is_offered<F, I, E, M, D>(
    cell: CellView<F, I, E>,
    round: Round,
    step: (CellView<F, I, E>, CellAction<I, E, M, D>),
) -> bool {
    let (after, action) = step;
    &&& action == CellAction::<I, E, M, D>::StartSend(cell.sink_items[0], round)
    &&& seq![cell.sink_items[0]] + after.sink_items == cell.sink_items
    &&& after == (CellView {
        flags: FlagSet { sink_flushed: false, ..cell.flags },
        sink_items: after.sink_items,
        ..cell
    })
}

/// The transport is asked to flush, and nothing changes.
pub open spec fn flush_is_asked_for<F, I, E, M, D>(
    cell: CellView<F, I, E>,
    round: Round,
    step: (CellView<F, I, E>, CellAction<I, E, M, D>),
) -> bool {
    step == (cell, CellAction::<I, E, M, D>::PollComplete(round))
}

/// What becomes of the marks at the end of a turn: a sink that is closing is closed once
/// the buffer is empty and flushed.
pub open spec fn marks_at_the_end<F, I, E>(cell: CellView<F, I, E>) -> FlagSet {
    let finished = cell.flags.closing && cell.flags.sink_flushed && cell.sink_items.len() == 0;
    FlagSet { sink_closed: cell.flags.sink_closed || finished, ..cell.flags }
}

/// A turn in which nothing has moved ends polling: whoever waits for a drain is told, and
/// the cell stops if one of its halves is closed. Otherwise the transport is shut down if
/// the context is stopping, and the context goes on if it is not.
pub open spec fn polling_ends<F, I, E, M, D>(
    cell: CellView<F, I, E>,
    stop: bool,
    step: (CellView<F, I, E>, CellAction<I, E, M, D>),
) -> bool {
    let (after, action) = step;
    let over = after.flags.sink_closed || after.flags.stream_closed;
    &&& after == (CellView { flags: marks_at_the_end(cell), drain: None, ..cell })
    &&& over ==> action == CellAction::<I, E, M, D>::Done(ContextCellResult::Stop)
    &&& !over && stop ==> action == CellAction::<I, E, M, D>::Shutdown
    &&& !over && !stop ==> action == CellAction::<I, E, M, D>::Done(ContextCellResult::Ready)
}

/// A turn begins: reading comes first if it can, then what is buffered, then flushing; a
/// closed sink is left alone, and where there is nothing to do polling ends.
pub open spec fn turn_begins<F, I, E, M, D>(
    cell: CellView<F, I, E>,
    stop: bool,
    step: (CellView<F, I, E>, CellAction<I, E, M, D>),
) -> bool {
    let round = Round { stop, not_ready: true };
    let can_read = cell.drain is None && !cell.flags.closing && !cell.flags.stream_closed;
    &&& can_read ==> step == (cell, CellAction::<I, E, M, D>::PollStream(round))
    &&& !can_read && !cell.flags.sink_closed && cell.sink_items.len() > 0 ==> oldest_is_offered(
        cell,
        round,
        step,
    )
    &&& !can_read && !cell.flags.sink_closed && cell.sink_items.len() == 0
        && !cell.flags.sink_flushed ==> flush_is_asked_for(cell, round, step)
    &&& !can_read && (cell.flags.sink_closed || (cell.sink_items.len() == 0
        && cell.flags.sink_flushed)) ==> polling_ends(cell, stop, step)
}

/// A turn ends: polling ends with it if nothing has moved, and otherwise whoever waits for
/// a drain is told and another turn begins.
pub open spec fn turn_ends<F, I, E, M, D>(
    cell: CellView<F, I, E>,
    round: Round,
    step: (CellView<F, I, E>, CellAction<I, E, M, D>),
) -> bool {
    &&& round.not_ready ==> polling_ends(cell, round.stop, step)
    &&& !round.not_ready ==> turn_begins(
        CellView { flags: marks_at_the_end(cell), drain: None, ..cell },
        round.stop,
        step,
    )
}

/// The sink's part of a turn: the oldest item is offered; with none left, what has not been
/// flushed is flushed; with nothing to do at all, the turn ends.
pub open spec fn sink_is_served<F, I, E, M, D>(
    cell: CellView<F, I, E>,
    round: Round,
    step: (CellView<F, I, E>, CellAction<I, E, M, D>),
) -> bool {
    &&& cell.sink_items.len() > 0 ==> oldest_is_offered(cell, round, step)
    &&& cell.sink_items.len() == 0 && !cell.flags.sink_flushed ==> flush_is_asked_for(
        cell,
        round,
        step,
    )
    &&& cell.sink_items.len() == 0 && cell.flags.sink_flushed ==> turn_ends(cell, round, step)
}

proof fn lemma_turn_conduct<F, I, E, M, D>(cell: CellView<F, I, E>, stop: bool)
    ensures
        turn_begins(cell, stop, cell.turn_step::<M, D>(stop)),
{
    let items = cell.sink_items;
    if items.len() > 0 {
        assert(seq![items[0]] + items.subrange(1, items.len() as int) =~= items);
    }
}

proof fn lemma_settle_conduct<F, I, E, M, D>(cell: CellView<F, I, E>, round: Round)
    ensures
        turn_ends(cell, round, cell.settle_step::<M, D>(round)),
{
    lemma_turn_conduct::<F, I, E, M, D>(cell.settled(), round.stop);
}

proof fn lemma_offer_conduct<F, I, E, M, D>(cell: CellView<F, I, E>, round: Round)
    ensures
        sink_is_served(cell, round, cell.offer_step::<M, D>(round)),
{
    let items = cell.sink_items;
    if items.len() > 0 {
        assert(seq![items[0]] + items.subrange(1, items.len() as int) =~= items);
    }
    lemma_settle_conduct::<F, I, E, M, D>(cell, round);
}

/// Polling a cell without an untold failure begins a turn, in which something has yet to
/// move.
pub proof fn law_poll_begins_a_turn<F, I, E, M, D>(cell: CellView<F, I, E>, stop: bool)
    requires
        cell.error is None,
    ensures
        turn_begins(cell, stop, cell.poll_step::<M, D>(stop)),
{
    lemma_turn_conduct::<F, I, E, M, D>(cell, stop);
}

/// With nothing to read, the sink has its part of the turn; a closed sink has none.
pub proof fn law_sink_follows_reading<F, I, E, M, D>(cell: CellView<F, I, E>, round: Round)
    ensures
        ({
            let step = cell.stream_step::<M, D>(round, StreamEvent::NotReady);
            &&& !cell.flags.sink_closed ==> sink_is_served(cell, round, step)
            &&& cell.flags.sink_closed ==> turn_ends(cell, round, step)
        }),
{
    lemma_offer_conduct::<F, I, E, M, D>(cell, round);
    lemma_settle_conduct::<F, I, E, M, D>(cell, round);
}

/// When the transport takes an item, the next one follows.
pub proof fn law_taken_item_is_followed_by_the_next<F, I, E, M, D>(
    cell: CellView<F, I, E>,
    round: Round,
)
    ensures
        sink_is_served(cell, round, cell.item_step::<M, D>(round, SinkEvent::Accepted)),
{
    lemma_offer_conduct::<F, I, E, M, D>(cell, round);
}

/// An item that the transport gives back is the oldest one again, and no other is offered
/// in this turn: what the transport has taken before is flushed. Where somebody waits for
/// a drain, polling ends and the rest of the context waits.
pub proof fn law_refused_item_stays_the_oldest<F, I, E, M, D>(
    cell: CellView<F, I, E>,
    round: Round,
    msg: I,
)
    ensures
        ({
            let step = cell.item_step::<M, D>(round, SinkEvent::NotReady(msg));
            let back = CellView { sink_items: seq![msg] + cell.sink_items, ..cell };
            &&& cell.drain is Some ==> step == (
                back,
                CellAction::<I, E, M, D>::Done(ContextCellResult::NotReady),
            )
            &&& cell.drain is None && !cell.flags.sink_flushed ==> flush_is_asked_for(
                back,
                round,
                step,
            )
            &&& cell.drain is None && cell.flags.sink_flushed ==> turn_ends(back, round, step)
        }),
{
    let back = CellView { sink_items: seq![msg] + cell.sink_items, ..cell };
    lemma_settle_conduct::<F, I, E, M, D>(back, round);
}

/// A flush that is through counts as something that has moved: the turn ends with the sink
/// flushed. One that is not leaves the cell as it is; whoever waits for a drain goes on
/// waiting, and the context with them.
pub proof fn law_flush_ends_the_turn<F, I, E, M, D>(cell: CellView<F, I, E>, round: Round)
    ensures
        turn_ends(
            CellView { flags: FlagSet { sink_flushed: true, ..cell.flags }, ..cell },
            Round { stop: round.stop, not_ready: false },
            cell.flushed_step::<M, D>(round, FlushEvent::Flushed),
        ),
        cell.drain is Some ==> cell.flushed_step::<M, D>(round, FlushEvent::NotReady) == (
            cell,
            CellAction::<I, E, M, D>::Done(ContextCellResult::NotReady),
        ),
        cell.drain is None ==> turn_ends(
            cell,
            round,
            cell.flushed_step::<M, D>(round, FlushEvent::NotReady),
        ),
{
    lemma_settle_conduct::<F, I, E, M, D>(
        CellView { flags: FlagSet { sink_flushed: true, ..cell.flags }, ..cell },
        Round { stop: round.stop, not_ready: false },
    );
    lemma_settle_conduct::<F, I, E, M, D>(cell, round);
}

/// After a call on the actor polling goes on where it was: with a new turn, with the sink,
/// with flushing or with the end of the turn. If the call has left an open sink with a
/// drain to wait for, what is buffered is served before the turn can end.
pub proof fn law_polling_goes_on_where_it_was<F, I, E, M, D>(
    cell: CellView<F, I, E>,
    round: Round,
)
    ensures
        turn_begins(cell, round.stop, cell.resume_step::<M, D>(Point::Turn, round)),
        !cell.flags.sink_closed ==> sink_is_served(
            cell,
            round,
            cell.resume_step::<M, D>(Point::Sink, round),
        ),
        cell.flags.sink_closed ==> turn_ends(
            cell,
            round,
            cell.resume_step::<M, D>(Point::Sink, round),
        ),
        !cell.flags.sink_closed && cell.drain is Some ==> {
            &&& sink_is_served(cell, round, cell.resume_step::<M, D>(Point::Flush, round))
            &&& sink_is_served(cell, round, cell.resume_step::<M, D>(Point::Settle, round))
        },
        cell.flags.sink_closed || cell.drain is None ==> {
            &&& !cell.flags.sink_flushed ==> flush_is_asked_for(
                cell,
                round,
                cell.resume_step::<M, D>(Point::Flush, round),
            )
            &&& cell.flags.sink_flushed ==> turn_ends(
                cell,
                round,
                cell.resume_step::<M, D>(Point::Flush, round),
            )
            &&& turn_ends(cell, round, cell.resume_step::<M, D>(Point::Settle, round))
        },
{
    lemma_turn_conduct::<F, I, E, M, D>(cell, round.stop);
    lemma_offer_conduct::<F, I, E, M, D>(cell, round);
    lemma_settle_conduct::<F, I, E, M, D>(cell, round);
}

/// A shutdown that is pending keeps the context waiting, and one that is through or has
/// failed does not.
pub proof fn law_shutdown_is_waited_for()
    ensures
        crate::model::shutdown_result(true) == ContextCellResult::NotReady,
        crate::model::shutdown_result(false) == ContextCellResult::Ready,
{
}

/// A new cell has the transport it was given, nothing buffered, nothing to flush, nobody
/// to tell and no half closed.
pub proof fn law_new_cell_is_clean<F, I, E>(framed: F)
    ensures
        ({
            let cell = CellView::<F, I, E>::fresh(framed);
            &&& cell.framed == framed
            &&& cell.sink_items == Seq::<I>::empty()
            &&& cell.drain is None
            &&& cell.error is None
            &&& cell.flags.sink_flushed
            &&& !cell.flags.started
            &&& !cell.flags.closing
            &&& !cell.flags.stream_closed
            &&& !cell.flags.sink_closed
        }),
{
}

/// Replacing the transport of a cell leaves what a new cell for it would have, and the
/// failure that the actor has not been told of.
pub proof fn law_replaced_cell_is_clean<F, I, E>(cell: CellView<F, I, E>, framed: F)
    ensures
        ({
            let after = cell.replaced(framed);
            &&& after.framed == framed
            &&& after.sink_items == Seq::<I>::empty()
            &&& after.drain is None
            &&& after.error == cell.error
            &&& after.flags.sink_flushed
            &&& !after.flags.started
            &&& !after.flags.closing
            &&& !after.flags.stream_closed
            &&& !after.flags.sink_closed
        }),
{
}

/// Closing sets a mark and touches nothing else: what is buffered is still to be sent.
pub proof fn law_close_keeps_what_is_buffered<A, F, I, E>(
    cell: CellView<F, I, E>,
    ctx: ContextView<A, F, I, E>,
)
    ensures
        cell.close_begun() == (CellView {
            flags: FlagSet { closing: true, ..cell.flags },
            ..cell
        }),
        ctx.cell == Some(cell) ==> ctx.close_begun() == (ContextView {
            cell: Some(
                CellView { flags: FlagSet { closing: true, ..cell.flags }, ..cell },
            ),
            ..ctx
        }),
        ctx.cell is None ==> ctx.close_begun() == ctx,
{
}

/// An item that is sent goes straight to the transport exactly if nothing is buffered and
/// no failure is pending; it then changes nothing but that there will be something to
/// flush. Otherwise it becomes the last one of the buffer, and nothing else changes.
pub proof fn law_sent_item_is_direct_or_last<F, I, E>(cell: CellView<F, I, E>, msg: I)
    ensures
        cell.sends_directly() <==> cell.sink_items.len() == 0 && cell.error is None,
        cell.sink_items.len() == 0 && cell.error is None ==> cell.send_begun(msg) == (CellView {
            flags: FlagSet { sink_flushed: false, ..cell.flags },
            ..cell
        }),
        cell.sink_items.len() > 0 || cell.error is Some ==> cell.send_begun(msg) == (CellView {
            sink_items: cell.sink_items.push(msg),
            ..cell
        }),
{
}

/// The transport's answer to a direct item: taken, it leaves no trace; given back, it comes
/// before everything buffered; failed, it leaves the failure to tell.
pub proof fn law_direct_answer<F, I, E>(cell: CellView<F, I, E>, msg: I, err: E)
    ensures
        cell.send_answered(SinkEvent::Accepted) == cell,
        cell.send_answered(SinkEvent::NotReady(msg)) == (CellView {
            sink_items: seq![msg] + cell.sink_items,
            ..cell
        }),
        cell.send_answered(SinkEvent::Failed(err)) == (CellView { error: Some(err), ..cell }),
{
}

/// An item that the transport does not take at once waits behind all that were sent
/// before it.
pub proof fn law_refused_send_is_buffered_last<F, I, E>(cell: CellView<F, I, E>, msg: I)
    ensures
        ({
            let begun = cell.send_begun(msg);
            let after = if cell.sends_directly() {
                begun.send_answered(SinkEvent::NotReady(msg))
            } else {
                begun
            };
            after.sink_items == cell.sink_items.push(msg)
        }),
{
    if cell.sink_items.len() == 0 {
        assert(seq![msg] + cell.sink_items =~= cell.sink_items.push(msg));
    }
}

/// What is meant by an open, a closed, a readable and a drained cell.
pub proof fn law_what_the_marks_mean<F, I, E>(cell: CellView<F, I, E>)
    ensures
        cell.alive() <==> !cell.flags.sink_closed && !cell.flags.stream_closed,
        cell.closed() <==> cell.flags.sink_closed && cell.flags.stream_closed,
        cell.reads() <==> cell.drain is None && !cell.flags.closing && !cell.flags.stream_closed,
        cell.drained() <==> cell.sink_items.len() == 0 && cell.flags.sink_flushed,
        cell.has_to_drain() <==> cell.drain is Some && !cell.flags.sink_closed,
{
}

/// A new context has the actor and the transport it was given.
pub proof fn law_new_context_is_clean<A, F, I, E>(act: Option<A>, framed: F)
    ensures
        ({
            let ctx = ContextView::<A, F, I, E>::fresh(act, framed);
            &&& ctx.act == act
            &&& !ctx.modified
            &&& ctx.cell == Some(CellView::<F, I, E>::fresh(framed))
        }),
{
}

/// Sending through a context: the item comes back exactly if there is no transport or its
/// sink is closed, and then nothing has changed. It is handed back to be offered exactly if
/// it has nothing to wait for, and the buffer is then empty, before and after. In all other
/// cases it is the last one of the buffer.
pub proof fn law_context_sends_or_gives_back<A, F, I, E>(ctx: ContextView<A, F, I, E>, msg: I)
    ensures
        ctx.send_begun(msg).act == ctx.act,
        ctx.send_begun(msg).modified == ctx.modified,
        match ctx.cell {
            None => ctx.send_result(msg) == Err::<Option<I>, I>(msg) && ctx.send_begun(msg) == ctx,
            Some(cell) => {
                &&& cell.flags.sink_closed ==> ctx.send_result(msg) == Err::<Option<I>, I>(msg)
                    && ctx.send_begun(msg) == ctx
                &&& !cell.flags.sink_closed && cell.sink_items.len() == 0 && cell.error is None
                    ==> {
                    &&& ctx.send_result(msg) == Ok::<Option<I>, I>(Some(msg))
                    &&& ctx.send_begun(msg).cell == Some(
                        CellView {
                            flags: FlagSet { sink_flushed: false, ..cell.flags },
                            ..cell
                        },
                    )
                }
                &&& !cell.flags.sink_closed && (cell.sink_items.len() > 0 || cell.error is Some)
                    ==> {
                    &&& ctx.send_result(msg) == Ok::<Option<I>, I>(None)
                    &&& ctx.send_begun(msg).cell == Some(
                        CellView { sink_items: cell.sink_items.push(msg), ..cell },
                    )
                }
            },
        },
{
}

/// What a context is asked for is what its cell is asked for: sending, the answer to it,
/// closing and replacing do to the cell in a context what they do to a cell in a session,
/// so that all that holds over sessions holds of contexts. What `send` returns tells
/// whether the item counts as sent and whether it is on offer.
pub proof fn law_context_follows_its_cell<A, F, I, E, M, D>(
    ctx: ContextView<A, F, I, E>,
    s: Session<F, I, E, M, D>,
    msg: I,
    event: SinkEvent<I, E>,
    framed: F,
)
    requires
        ctx.cell == Some(s.cell),
        s.direct is None,
    ensures
        ctx.send_begun(msg).cell == Some(s.next(Op::Send(msg)).cell),
        match ctx.send_result(msg) {
            Ok(direct) => {
                &&& s.next(Op::Send(msg)).direct == direct
                &&& s.next(Op::Send(msg)).sent == s.sent.push(msg)
            },
            Err(back) => {
                &&& back == msg
                &&& s.next(Op::Send(msg)).direct is None
                &&& s.next(Op::Send(msg)).sent == s.sent
            },
        },
        ctx.send_answered(event).cell == Some(s.next(Op::Sent(event)).cell),
        ctx.close_begun().cell == Some(s.next(Op::Close).cell),
        ctx.replaced(framed).cell == Some(s.next(Op::Replace(framed)).cell),
{
}

/// The answer to a direct item changes the cell and nothing else of a context.
pub proof fn law_context_passes_answers_on<A, F, I, E>(
    ctx: ContextView<A, F, I, E>,
    event: SinkEvent<I, E>,
)
    ensures
        ctx.cell is None ==> ctx.send_answered(event) == ctx,
        ctx.cell matches Some(cell) ==> ctx.send_answered(event) == (ContextView {
            cell: Some(cell.send_answered(event)),
            ..ctx
        }),
{
}

/// Taking gives exactly the transport that is there, and leaves the rest of the context.
pub proof fn law_take_gives_the_transport<A, F, I, E>(ctx: ContextView<A, F, I, E>)
    ensures
        ctx.cell is None ==> ctx.transport() is None,
        ctx.cell matches Some(cell) ==> ctx.transport() == Some(cell.framed),
        ctx.taken().cell is None,
        ctx.taken().act == ctx.act,
        ctx.taken().modified == ctx.modified,
        ctx.accepts() <==> (ctx.cell matches Some(cell) && !cell.flags.sink_closed),
{
}

/// While an actor works on its context, the context is as it was, but for the actor.
pub proof fn law_actor_finds_its_context<A, F, I, E>(ctx: FramedContext<A, F, I, E>)
    ensures
        ctx.without_actor().act is None,
        ctx.without_actor().modified == ctx.modified,
        ctx.without_actor().cell == ctx.cell,
{
}

/// The state of a context is all that is in it.
pub proof fn law_context_view_is_complete<A, F, I, E>(ctx: FramedContext<A, F, I, E>)
    ensures
        ctx@.act == ctx.act,
        ctx@.modified == ctx.modified,
        ctx.cell is None <==> ctx@.cell is None,
        ctx.cell matches Some(cell) ==> {
            &&& ctx@.cell matches Some(state)
            &&& state.flags == cell.flags@
            &&& state.framed == cell.framed
            &&& state.sink_items == cell.sink_items@
            &&& state.drain == cell.drain
            &&& state.error == cell.error
        },
{
}

/// A signal is given by completing it and in no other way, and dropped by dropping it.
pub proof fn law_signals_mean_what_they_say<F, I, E>(
    before: CellView<F, I, E>,
    after: CellView<F, I, E>,
)
    ensures
        before.drain matches Some(tx) ==> {
            &&& crate::signal::resolved(tx) ==> exists|outcome: Result<(), ()>|
                #[trigger] crate::signal::completed(tx, outcome)
            &&& crate::cell::drain_kept_or_resolved(before, after) && after.drain != Some(tx)
                ==> exists|outcome: Result<(), ()>|
                #[trigger] crate::signal::completed(tx, outcome)
            &&& crate::cell::drain_canceled(before) ==> crate::signal::canceled(tx, ())
        },
{
}

/// Sets of marks are taken together, taken apart and compared mark by mark.
pub proof fn law_marks_are_independent(a: FlagSet, b: FlagSet)
    ensures
        a.union(b) == (FlagSet {
            started: a.started || b.started,
            closing: a.closing || b.closing,
            stream_closed: a.stream_closed || b.stream_closed,
            sink_closed: a.sink_closed || b.sink_closed,
            sink_flushed: a.sink_flushed || b.sink_flushed,
        }),
        a.difference(b) == (FlagSet {
            started: a.started && !b.started,
            closing: a.closing && !b.closing,
            stream_closed: a.stream_closed && !b.stream_closed,
            sink_closed: a.sink_closed && !b.sink_closed,
            sink_flushed: a.sink_flushed && !b.sink_flushed,
        }),
        a.includes(b) <==> {
            &&& b.started ==> a.started
            &&& b.closing ==> a.closing
            &&& b.stream_closed ==> a.stream_closed
            &&& b.sink_closed ==> a.sink_closed
            &&& b.sink_flushed ==> a.sink_flushed
        },
        !FlagSet::none().started,
        !FlagSet::none().closing,
        !FlagSet::none().stream_closed,
        !FlagSet::none().sink_closed,
        !FlagSet::none().sink_flushed,
{
}

} // verus!
