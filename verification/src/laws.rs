//! What holds of a cell and of a context over any number of operations.

use crate::context::ContextView;
use crate::model::{
    CellAction, CellView, ContextCellResult, FlushEvent, Point, Round, SinkEvent, StreamEvent,
};
use crate::session::{Op, Session};
use vstd::prelude::*;

verus! {

/// The item that an action offers to the transport.
spec fn offered<I, E, M, D>(action: CellAction<I, E, M, D>) -> Seq<I> {
    match action {
        CellAction::StartSend(msg, _) => seq![msg],
        _ => Seq::empty(),
    }
}

/// What every way through a turn has in common.
spec fn turn_facts<F, I, E, M, D>(
    before: CellView<F, I, E>,
    step: (CellView<F, I, E>, CellAction<I, E, M, D>),
) -> bool {
    let (after, action) = step;
    &&& offered(action) + after.sink_items == before.sink_items
    &&& after.framed == before.framed
    &&& after.error == before.error
    &&& after.flags.closing == before.flags.closing
    &&& after.flags.stream_closed == before.flags.stream_closed
    &&& before.flags.sink_closed ==> after.flags.sink_closed
    &&& !before.flags.sink_closed && after.flags.sink_closed ==> after.flags.closing
        && after.drained()
    &&& before.drained() ==> after.drained()
    &&& after.drain == before.drain || after.drain is None
    &&& !(action is Handle) && !(action is Closed)
    &&& action is StartSend ==> !after.flags.sink_flushed
    &&& action is PollComplete ==> !after.flags.sink_flushed
    &&& action is PollStream ==> after.reads()
    &&& action is Shutdown ==> after.alive() && after.drain is None
    &&& action matches CellAction::Done(result) ==> {
        &&& after.drain is None
        &&& result == if after.alive() {
            ContextCellResult::Ready
        } else {
            ContextCellResult::Stop
        }
    }
}

/// Nobody is told too early that the sink is drained: where it is open and items are
/// left, no signal has been given.
spec fn no_early_signal<F, I, E, M, D>(
    before: CellView<F, I, E>,
    step: (CellView<F, I, E>, CellAction<I, E, M, D>),
) -> bool {
    let (after, action) = step;
    &&& before.drain is Some && after.drain is None ==> after.flags.sink_closed || after.drained()
    &&& action is PollComplete ==> after.flags.sink_closed || after.sink_items.len() == 0
        || after.drain is None
}

/// Taking the oldest item off the buffer and putting it in front of what is left gives
/// the buffer back.
proof fn lemma_oldest<I>(items: Seq<I>)
    ensures
        items.len() > 0 ==> seq![items[0]] + items.subrange(1, items.len() as int) == items,
        Seq::<I>::empty() + items == items,
{
    assert(items.len() > 0 ==> seq![items[0]] + items.subrange(1, items.len() as int) =~= items);
    assert(Seq::<I>::empty() + items =~= items);
}

proof fn lemma_turn<F, I, E, M, D>(cell: CellView<F, I, E>, stop: bool)
    ensures
        turn_facts(cell, cell.turn_step::<M, D>(stop)),
        no_early_signal(cell, cell.turn_step::<M, D>(stop)),
        (cell.turn_step::<M, D>(stop)).1 is StartSend ==> !cell.flags.sink_closed,
{
    lemma_oldest(cell.sink_items);
}

proof fn lemma_settle<F, I, E, M, D>(cell: CellView<F, I, E>, round: Round)
    ensures
        turn_facts(cell, cell.settle_step::<M, D>(round)),
        cell.flags.sink_closed || cell.drained() || cell.drain is None ==> no_early_signal(
            cell,
            cell.settle_step::<M, D>(round),
        ),
        (cell.settle_step::<M, D>(round)).1 is StartSend ==> !cell.flags.sink_closed,
{
    lemma_oldest(cell.sink_items);
    lemma_turn::<F, I, E, M, D>(cell.settled(), round.stop);
}

proof fn lemma_flush<F, I, E, M, D>(cell: CellView<F, I, E>, round: Round)
    ensures
        turn_facts(cell, cell.flush_step::<M, D>(round)),
        cell.flags.sink_closed || cell.sink_items.len() == 0 || cell.drain is None
            ==> no_early_signal(cell, cell.flush_step::<M, D>(round)),
        (cell.flush_step::<M, D>(round)).1 is StartSend ==> !cell.flags.sink_closed,
{
    lemma_oldest(cell.sink_items);
    lemma_settle::<F, I, E, M, D>(cell, round);
}

proof fn lemma_offer<F, I, E, M, D>(cell: CellView<F, I, E>, round: Round)
    ensures
        turn_facts(cell, cell.offer_step::<M, D>(round)),
        no_early_signal(cell, cell.offer_step::<M, D>(round)),
{
    lemma_oldest(cell.sink_items);
    lemma_settle::<F, I, E, M, D>(cell, round);
}

proof fn lemma_sink<F, I, E, M, D>(cell: CellView<F, I, E>, round: Round)
    ensures
        turn_facts(cell, cell.sink_step::<M, D>(round)),
        no_early_signal(cell, cell.sink_step::<M, D>(round)),
        (cell.sink_step::<M, D>(round)).1 is StartSend ==> !cell.flags.sink_closed,
{
    lemma_settle::<F, I, E, M, D>(cell, round);
    lemma_offer::<F, I, E, M, D>(cell, round);
}

/// Everything sent is with the transport, on its way there, or still buffered.
spec fn in_order<F, I, E, M, D>(s: Session<F, I, E, M, D>) -> bool {
    &&& s.sent == s.handed + s.on_offer() + s.cell.sink_items
    &&& s.direct is Some ==> s.cell.sink_items.len() == 0 && (s.action is Done || s.action is Handle
        || s.action is Closed)
}

proof fn lemma_in_order_next<F, I, E, M, D>(s: Session<F, I, E, M, D>, op: Op<F, I, E, M, D>)
    requires
        s.allows(op),
        in_order(s),
    ensures
        in_order(s.next(op)),
{
    if polling(op) {
        lemma_items_moved_on(s, op);
        lemma_order_kept(s, s.next(op));
    } else {
        lemma_in_order_called(s, op);
    }
}

proof fn lemma_items_moved_on<F, I, E, M, D>(s: Session<F, I, E, M, D>, op: Op<F, I, E, M, D>)
    requires
        s.allows(op),
        s.direct is None,
        polling(op),
    ensures
        items_moved_on(s, s.next(op)),
{
    lemma_step_facts(s, op);
    lemma_oldest(s.cell.sink_items);
}

/// Operations outside polling keep the order.
proof fn lemma_in_order_called<F, I, E, M, D>(s: Session<F, I, E, M, D>, op: Op<F, I, E, M, D>)
    requires
        s.allows(op),
        in_order(s),
        !polling(op),
    ensures
        in_order(s.next(op)),
{
    let n = s.next(op);
    assert(n.sent =~= n.handed + n.on_offer() + n.cell.sink_items);
}

/// What was sent stays in order from `s` to `n` where the items that are not with the
/// transport yet are the same, but for one that it took.
proof fn lemma_order_kept<F, I, E, M, D>(s: Session<F, I, E, M, D>, n: Session<F, I, E, M, D>)
    requires
        in_order(s),
        items_moved_on(s, n),
    ensures
        in_order(n),
{
    let left = offered(n.action) + n.cell.sink_items;
    assert(n.sent =~= n.handed + left);
    assert(n.handed + left =~= n.handed + n.on_offer() + n.cell.sink_items);
}

/// The items that are not with the transport yet are those that were not before, but for
/// one that it took.
spec fn items_moved_on<F, I, E, M, D>(
    s: Session<F, I, E, M, D>,
    n: Session<F, I, E, M, D>,
) -> bool {
    let left = offered(n.action) + n.cell.sink_items;
    &&& s.direct is None
    &&& n.direct is None
    &&& n.sent == s.sent
    &&& {
        ||| n.handed == s.handed && left == s.on_offer() + s.cell.sink_items
        ||| n.handed == s.handed + s.on_offer() && left == s.cell.sink_items
    }
}

/// Whether an operation is part of polling.
pub open spec fn polling<F, I, E, M, D>(op: Op<F, I, E, M, D>) -> bool {
    op is Poll || op is Resume || op is Stream || op is Item || op is Flush || op is Shutdown
}

/// Whether an operation tells that the transport has ended or failed.
pub open spec fn transport_over<F, I, E, M, D>(
    s: Session<F, I, E, M, D>,
    op: Op<F, I, E, M, D>,
) -> bool {
    match op {
        Op::Poll(_) => s.cell.error is Some,
        Op::Stream(event) => event is End || event is Failed,
        Op::Item(event) => event is Failed,
        Op::Flush(event) => event is Failed,
        _ => false,
    }
}

/// What a step of polling does to the items, the marks and the signal.
spec fn step_facts<F, I, E, M, D>(s: Session<F, I, E, M, D>, op: Op<F, I, E, M, D>) -> bool {
    let n = s.next(op);
    let kept = match op {
        Op::Item(SinkEvent::NotReady(msg)) => seq![msg] + s.cell.sink_items,
        _ => s.cell.sink_items,
    };
    &&& offered(n.action) + n.cell.sink_items == kept
    &&& n.cell.framed == s.cell.framed
    &&& s.cell.flags.closing == n.cell.flags.closing
    &&& s.cell.flags.stream_closed ==> n.cell.flags.stream_closed
    &&& s.cell.flags.sink_closed ==> n.cell.flags.sink_closed
    &&& n.action is StartSend && !(op is Item) ==> !n.cell.flags.sink_closed
    &&& n.action is StartSend && !s.cell.flags.sink_closed ==> !n.cell.flags.sink_closed
    &&& n.action is PollStream ==> n.cell.reads()
    &&& n.action is PollComplete ==> !n.cell.flags.sink_flushed
    &&& n.action is Shutdown ==> n.cell.alive() && n.cell.drain is None
    &&& !(op is Shutdown) ==> (n.action matches CellAction::Done(result) ==> {
        ||| n.cell.drain is Some && result is NotReady && (n.cell.sink_items.len() > 0
            || n.cell.flags.sink_flushed == s.cell.flags.sink_flushed)
        ||| n.cell.drain is None && n.cell.alive() && result is Ready
        ||| n.cell.drain is None && !n.cell.alive() && result is Stop
    })
    &&& !s.cell.flags.sink_closed && n.cell.flags.sink_closed && !transport_over(s, op)
        ==> n.cell.flags.closing && n.cell.drained()
}

proof fn lemma_step_facts<F, I, E, M, D>(s: Session<F, I, E, M, D>, op: Op<F, I, E, M, D>)
    requires
        s.allows(op),
        polling(op),
    ensures
        step_facts(s, op),
{
    match op {
        Op::Poll(stop) => lemma_poll_facts(s, stop),
        Op::Resume => lemma_resume_facts(s),
        Op::Stream(event) => lemma_stream_facts(s, event),
        Op::Item(event) => lemma_item_facts(s, event),
        Op::Flush(event) => lemma_flush_facts(s, event),
        _ => {
            lemma_oldest(s.cell.sink_items);
        },
    }
}

proof fn lemma_poll_facts<F, I, E, M, D>(s: Session<F, I, E, M, D>, stop: bool)
    ensures
        step_facts(s, Op::Poll(stop)),
{
    lemma_turn::<F, I, E, M, D>(s.cell, stop);
    lemma_oldest(s.cell.sink_items);
}

proof fn lemma_resume_facts<F, I, E, M, D>(s: Session<F, I, E, M, D>)
    requires
        s.action is Handle || s.action is Closed,
    ensures
        step_facts(s, Op::Resume),
{
    match s.action {
        CellAction::Handle(_, point, round) => lemma_resume::<F, I, E, M, D>(s.cell, point, round),
        CellAction::Closed(_, point, round) => lemma_resume::<F, I, E, M, D>(s.cell, point, round),
        _ => {},
    }
}

proof fn lemma_stream_facts<F, I, E, M, D>(s: Session<F, I, E, M, D>, event: StreamEvent<M, D>)
    requires
        s.action is PollStream,
    ensures
        step_facts(s, Op::Stream(event)),
{
    lemma_sink::<F, I, E, M, D>(s.cell, s.action->PollStream_0);
    lemma_oldest(s.cell.sink_items);
}

proof fn lemma_item_facts<F, I, E, M, D>(s: Session<F, I, E, M, D>, event: SinkEvent<I, E>)
    requires
        s.action is StartSend,
    ensures
        step_facts(s, Op::Item(event)),
{
    let round = s.action->StartSend_1;
    match event {
        SinkEvent::NotReady(msg) => {
            let cell = s.cell.given_back(msg);
            lemma_flush::<F, I, E, M, D>(cell, round);
            lemma_oldest(cell.sink_items);
        },
        SinkEvent::Accepted => {
            lemma_offer::<F, I, E, M, D>(s.cell, round);
        },
        SinkEvent::Failed(_) => {
            lemma_oldest(s.cell.sink_items);
        },
    }
}

proof fn lemma_flush_facts<F, I, E, M, D>(s: Session<F, I, E, M, D>, event: FlushEvent<E>)
    requires
        s.action is PollComplete,
    ensures
        step_facts(s, Op::Flush(event)),
{
    let round = s.action->PollComplete_0;
    lemma_oldest(s.cell.sink_items);
    match event {
        FlushEvent::Flushed => {
            lemma_settle::<F, I, E, M, D>(
                s.cell.with_flushed(true),
                Round { not_ready: false, ..round },
            );
        },
        _ => {
            lemma_settle::<F, I, E, M, D>(s.cell, round);
        },
    }
}

proof fn lemma_resume<F, I, E, M, D>(cell: CellView<F, I, E>, point: Point, round: Round)
    ensures
        turn_facts(cell, cell.resume_step::<M, D>(point, round)),
        (cell.resume_step::<M, D>(point, round)).1 is StartSend ==> !cell.flags.sink_closed,
        no_early_signal(cell, cell.resume_step::<M, D>(point, round)),
{
    match point {
        Point::Turn => lemma_turn::<F, I, E, M, D>(cell, round.stop),
        Point::Sink => lemma_sink::<F, I, E, M, D>(cell, round),
        Point::Flush => {
            lemma_offer::<F, I, E, M, D>(cell, round);
            lemma_flush::<F, I, E, M, D>(cell, round);
        },
        Point::Settle => {
            lemma_offer::<F, I, E, M, D>(cell, round);
            lemma_settle::<F, I, E, M, D>(cell, round);
        },
    }
}

/// Items reach the transport in the order in which they were sent: since a transport
/// was put in place, what was sent is what the transport took or failed on, then what it
/// is being offered, then what is buffered, with nothing lost, doubled or overtaken.
pub proof fn law_items_in_order<F, I, E, M, D>(framed: F, ops: Seq<Op<F, I, E, M, D>>)
    requires
        Session::<F, I, E, M, D>::start(framed).allows_all(ops),
    ensures
        ({
            let s = Session::<F, I, E, M, D>::start(framed).after(ops);
            s.sent == s.handed + s.on_offer() + s.cell.sink_items
        }),
{
    lemma_in_order(framed, ops);
}

proof fn lemma_in_order<F, I, E, M, D>(framed: F, ops: Seq<Op<F, I, E, M, D>>)
    requires
        Session::<F, I, E, M, D>::start(framed).allows_all(ops),
    ensures
        in_order(Session::<F, I, E, M, D>::start(framed).after(ops)),
    decreases ops.len(),
{
    let start = Session::<F, I, E, M, D>::start(framed);
    if ops.len() == 0 {
        assert(start.sent =~= start.handed + start.on_offer() + start.cell.sink_items);
    } else {
        lemma_in_order(framed, ops.drop_last());
        lemma_in_order_next(start.after(ops.drop_last()), ops.last());
    }
}

/// What holds in every state of a session, whatever the actor does in its calls.
spec fn waiting_facts<F, I, E, M, D>(s: Session<F, I, E, M, D>) -> bool {
    &&& s.action is PollStream ==> s.cell.reads() && s.direct is None
    &&& s.action is Shutdown ==> s.cell.alive() && s.cell.drain is None
    &&& s.action is StartSend ==> !s.cell.flags.sink_closed
    &&& s.action is PollComplete ==> !s.cell.flags.sink_flushed
    &&& s.direct is Some ==> {
        &&& !s.cell.flags.sink_closed
        &&& s.action is Done || s.action is Handle || s.action is Closed
    }
}

proof fn lemma_waiting<F, I, E, M, D>(framed: F, ops: Seq<Op<F, I, E, M, D>>)
    requires
        Session::<F, I, E, M, D>::start(framed).allows_all(ops),
    ensures
        waiting_facts(Session::<F, I, E, M, D>::start(framed).after(ops)),
    decreases ops.len(),
{
    let start = Session::<F, I, E, M, D>::start(framed);
    if ops.len() > 0 {
        lemma_waiting(framed, ops.drop_last());
        let s = start.after(ops.drop_last());
        if polling(ops.last()) {
            lemma_step_facts(s, ops.last());
        }
    }
}

/// While a drain is pending, the actor is paused: nothing is read from the transport,
/// and polling that ends leaves the rest of the context waiting. It ends so only with
/// something left to send or to flush: a drained sink is told of in the same poll.
pub proof fn law_paused_while_draining<F, I, E, M, D>(
    framed: F,
    ops: Seq<Op<F, I, E, M, D>>,
    op: Op<F, I, E, M, D>,
)
    requires
        Session::<F, I, E, M, D>::start(framed).allows_all(ops.push(op)),
        Session::<F, I, E, M, D>::start(framed).after(ops.push(op)).cell.drain is Some,
    ensures
        ({
            let s = Session::<F, I, E, M, D>::start(framed).after(ops.push(op));
            &&& !(s.action is PollStream)
            &&& polling(op) ==> (s.action matches CellAction::Done(result) ==> {
                &&& result == ContextCellResult::NotReady
                &&& !s.cell.drained()
            })
        }),
{
    lemma_waiting(framed, ops.push(op));
    assert(ops.push(op).drop_last() =~= ops);
    let before = Session::<F, I, E, M, D>::start(framed).after(ops);
    lemma_waiting(framed, ops);
    if polling(op) {
        lemma_step_facts(before, op);
    }
}

/// The transport is read from only while nobody waits for a drain, the context is not
/// closing and the stream has not ended.
pub proof fn law_reads_only_while_open<F, I, E, M, D>(framed: F, ops: Seq<Op<F, I, E, M, D>>)
    requires
        Session::<F, I, E, M, D>::start(framed).allows_all(ops),
        Session::<F, I, E, M, D>::start(framed).after(ops).action is PollStream,
    ensures
        ({
            let cell = Session::<F, I, E, M, D>::start(framed).after(ops).cell;
            cell.drain is None && !cell.flags.closing && !cell.flags.stream_closed
        }),
{
    lemma_waiting(framed, ops);
}

/// What polling comes to: it stops when one half of the transport is closed, lets the
/// rest of the context go on when both are open, and makes it wait for a drain or for
/// the transport to shut down.
pub proof fn law_poll_result<F, I, E, M, D>(
    framed: F,
    ops: Seq<Op<F, I, E, M, D>>,
    op: Op<F, I, E, M, D>,
)
    requires
        Session::<F, I, E, M, D>::start(framed).allows_all(ops.push(op)),
        polling(op),
    ensures
        ({
            let s = Session::<F, I, E, M, D>::start(framed).after(ops.push(op));
            s.action matches CellAction::Done(result) ==> match result {
                ContextCellResult::Stop => !s.cell.alive(),
                ContextCellResult::Ready => s.cell.alive(),
                ContextCellResult::NotReady => s.cell.drain is Some || op == Op::<
                    F,
                    I,
                    E,
                    M,
                    D,
                >::Shutdown(true),
            }
        }),
{
    assert(ops.push(op).drop_last() =~= ops);
    lemma_waiting(framed, ops);
    lemma_step_facts(Session::<F, I, E, M, D>::start(framed).after(ops), op);
}

/// What a pending drain rests on.
spec fn drain_facts<F, I, E, M, D>(s: Session<F, I, E, M, D>) -> bool {
    s.action is PollComplete ==> s.cell.flags.sink_closed || s.cell.sink_items.len() == 0
        || s.cell.drain is None
}

proof fn lemma_drain_next<F, I, E, M, D>(s: Session<F, I, E, M, D>, op: Op<F, I, E, M, D>)
    requires
        s.allows(op),
        drain_facts(s),
        waiting_facts(s),
    ensures
        drain_facts(s.next(op)),
        s.cell.drain is Some && s.next(op).cell.drain is None && !(op is Replace) ==> s.next(
            op,
        ).cell.flags.sink_closed || s.next(op).cell.drained(),
{
    match op {
        Op::Poll(stop) => {
            lemma_turn::<F, I, E, M, D>(s.cell, stop);
        },
        Op::Resume => {
            match s.action {
                CellAction::Handle(_, point, round) => {
                    lemma_resume::<F, I, E, M, D>(s.cell, point, round);
                },
                CellAction::Closed(_, point, round) => {
                    lemma_resume::<F, I, E, M, D>(s.cell, point, round);
                },
                _ => {},
            }
        },
        Op::Stream(_) => {
            lemma_sink::<F, I, E, M, D>(s.cell, s.action->PollStream_0);
        },
        Op::Item(event) => {
            let round = s.action->StartSend_1;
            match event {
                SinkEvent::NotReady(msg) => {
                    lemma_flush::<F, I, E, M, D>(s.cell.given_back(msg), round);
                },
                SinkEvent::Accepted => {
                    lemma_offer::<F, I, E, M, D>(s.cell, round);
                },
                _ => {},
            }
        },
        Op::Flush(event) => {
            let round = s.action->PollComplete_0;
            match event {
                FlushEvent::Flushed => {
                    lemma_settle::<F, I, E, M, D>(
                        s.cell.with_flushed(true),
                        Round { not_ready: false, ..round },
                    );
                },
                _ => {
                    lemma_settle::<F, I, E, M, D>(s.cell, round);
                },
            }
        },
        _ => {},
    }
}

proof fn lemma_drain<F, I, E, M, D>(framed: F, ops: Seq<Op<F, I, E, M, D>>)
    requires
        Session::<F, I, E, M, D>::start(framed).allows_all(ops),
    ensures
        drain_facts(Session::<F, I, E, M, D>::start(framed).after(ops)),
    decreases ops.len(),
{
    if ops.len() > 0 {
        lemma_drain(framed, ops.drop_last());
        lemma_waiting(framed, ops.drop_last());
        lemma_drain_next(
            Session::<F, I, E, M, D>::start(framed).after(ops.drop_last()),
            ops.last(),
        );
    }
}

/// A drain resolves when the sink is drained: where its signal is given, everything
/// sent has been taken and flushed, or the sink is closed and will take nothing more.
pub proof fn law_drain_resolves_when_drained<F, I, E, M, D>(
    framed: F,
    ops: Seq<Op<F, I, E, M, D>>,
    op: Op<F, I, E, M, D>,
)
    requires
        Session::<F, I, E, M, D>::start(framed).allows_all(ops.push(op)),
        Session::<F, I, E, M, D>::start(framed).after(ops).cell.drain is Some,
        Session::<F, I, E, M, D>::start(framed).after(ops.push(op)).cell.drain is None,
        !(op is Replace),
    ensures
        ({
            let cell = Session::<F, I, E, M, D>::start(framed).after(ops.push(op)).cell;
            cell.drained() || cell.flags.sink_closed
        }),
{
    assert(ops.push(op).drop_last() =~= ops);
    lemma_drain(framed, ops);
    lemma_waiting(framed, ops);
    lemma_drain_next(Session::<F, I, E, M, D>::start(framed).after(ops), op);
}

/// Only another transport undoes what is closed or closing. The cell itself leaves the
/// transport it has as it is.
pub proof fn law_closed_stays_closed<F, I, E, M, D>(
    s: Session<F, I, E, M, D>,
    op: Op<F, I, E, M, D>,
)
    requires
        s.allows(op),
        !(op is Replace),
    ensures
        s.cell.flags.closing ==> s.next(op).cell.flags.closing,
        s.cell.flags.stream_closed ==> s.next(op).cell.flags.stream_closed,
        s.cell.flags.sink_closed ==> s.next(op).cell.flags.sink_closed,
        !(op is Work) ==> s.next(op).cell.framed == s.cell.framed,
{
    if polling(op) {
        lemma_step_facts(s, op);
    }
}

/// Closing is graceful: unless the transport ends or fails, the sink is closed only when
/// it was asked to and everything sent has been taken and flushed.
pub proof fn law_closes_gracefully<F, I, E, M, D>(
    s: Session<F, I, E, M, D>,
    op: Op<F, I, E, M, D>,
)
    requires
        s.allows(op),
        !transport_over(s, op),
        !s.cell.flags.sink_closed,
        s.next(op).cell.flags.sink_closed,
    ensures
        s.cell.flags.closing,
        s.next(op).cell.drained(),
{
    if polling(op) {
        lemma_step_facts(s, op);
    }
}

/// A closed sink is offered nothing, neither what is buffered nor what is sent then.
pub proof fn law_closed_sink_is_offered_nothing<F, I, E, M, D>(
    framed: F,
    ops: Seq<Op<F, I, E, M, D>>,
)
    requires
        Session::<F, I, E, M, D>::start(framed).allows_all(ops),
        Session::<F, I, E, M, D>::start(framed).after(ops).cell.flags.sink_closed,
    ensures
        Session::<F, I, E, M, D>::start(framed).after(ops).on_offer() == Seq::<I>::empty(),
{
    lemma_waiting(framed, ops);
}

/// A failure of an item that was sent directly is told to the actor as soon as the cell
/// is polled, and once: both halves are closed by then.
pub proof fn law_failed_send_is_told<F, I, E, M, D>(cell: CellView<F, I, E>, err: E, stop: bool)
    ensures
        ({
            let (after, action) = cell.send_answered(SinkEvent::Failed(err)).poll_step::<M, D>(stop);
            &&& action matches CellAction::Closed(told, _, _)
            &&& told == Some(err)
            &&& after.closed()
            &&& after.error is None
        }),
{
}

/// The transport takes `n` items, one after the other.
pub open spec fn accepting<F, I, E, M, D>(n: nat) -> Seq<Op<F, I, E, M, D>> {
    Seq::new(n, |i: int| Op::Item(SinkEvent::Accepted))
}

/// What is left after the transport has taken the first `n` of the items `pending`.
proof fn lemma_accepting<F, I, E, M, D>(
    s: Session<F, I, E, M, D>,
    pending: Seq<I>,
    round: Round,
    n: nat,
)
    requires
        s.direct is None,
        pending.len() > 0,
        n <= pending.len(),
        s.action == CellAction::<I, E, M, D>::StartSend(pending[0], round),
        s.cell.sink_items == pending.subrange(1, pending.len() as int),
        !s.cell.flags.sink_flushed,
    ensures
        s.allows_all(accepting(n)),
        ({
            let after = s.after(accepting(n));
            let left = pending.subrange(n as int, pending.len() as int);
            &&& after.direct is None
            &&& after.handed == s.handed + pending.subrange(0, n as int)
            &&& after.sent == s.sent
            &&& left.len() > 0 ==> {
                &&& after.action == CellAction::<I, E, M, D>::StartSend(left[0], round)
                &&& after.cell == (CellView {
                    sink_items: left.subrange(1, left.len() as int),
                    ..s.cell
                })
            }
            &&& left.len() == 0 ==> {
                &&& after.action == CellAction::<I, E, M, D>::PollComplete(round)
                &&& after.cell == (CellView { sink_items: Seq::empty(), ..s.cell })
            }
        }),
    decreases n,
{
    let ops = accepting::<F, I, E, M, D>(n);
    if n == 0 {
        assert(pending.subrange(0, pending.len() as int) =~= pending);
        assert(s.handed + pending.subrange(0, 0) =~= s.handed);
    } else {
        let m = (n - 1) as nat;
        assert(ops.drop_last() =~= accepting::<F, I, E, M, D>(m));
        lemma_accepting(s, pending, round, m);
        let before = s.after(accepting(m));
        let left = pending.subrange(m as int, pending.len() as int);
        assert(left[0] == pending[m as int]);
        assert(left.subrange(1, left.len() as int) =~= pending.subrange(
            n as int,
            pending.len() as int,
        ));
        assert(s.handed + pending.subrange(0, m as int) + seq![pending[m as int]] =~= s.handed
            + pending.subrange(0, n as int));
        assert(before.cell.sink_items =~= pending.subrange(n as int, pending.len() as int));
        assert(before.cell.with_flushed(false) == before.cell);
        assert(before.allows(ops.last()));
    }
}

/// A transport that takes everything gets everything: where the context waits for a
/// drain or is closing, polling hands over all that is buffered, in order, and flushes
/// it. Whoever waits for a drain is told then; a closing cell has closed its sink and
/// stops, and another one goes on reading if the stream is still open.
pub proof fn law_poll_sends_everything<F, I, E, M, D>(s: Session<F, I, E, M, D>, stop: bool)
    requires
        s.resting(),
        s.action is Done,
        s.cell.error is None,
        s.cell.drain is Some || s.cell.flags.closing,
        !s.cell.flags.sink_closed,
        !s.cell.drained(),
    ensures
        ({
            let polled = s.next(Op::Poll(stop));
            let taken = polled.after(accepting(s.cell.sink_items.len()));
            let flushed = taken.next(Op::Flush(FlushEvent::Flushed));
            &&& s.allows(Op::Poll(stop))
            &&& polled.allows_all(accepting(s.cell.sink_items.len()))
            &&& taken.allows(Op::Flush(FlushEvent::Flushed))
            &&& flushed.handed == s.handed + s.cell.sink_items
            &&& flushed.cell.drained()
            &&& flushed.cell.drain is None
            &&& s.cell.flags.closing ==> {
                &&& flushed.cell.flags.sink_closed
                &&& flushed.action == CellAction::<I, E, M, D>::Done(ContextCellResult::Stop)
            }
            &&& !s.cell.flags.closing && !s.cell.flags.stream_closed
                ==> flushed.action is PollStream
        }),
{
    let round = Round { stop, not_ready: true };
    let polled = s.next(Op::Poll(stop));
    let items = s.cell.sink_items;
    let ops = accepting::<F, I, E, M, D>(items.len());
    let taken = polled.after(ops);
    if items.len() > 0 {
        lemma_accepting(polled, items, round, items.len());
        assert(items.subrange(0, items.len() as int) =~= items);
    } else {
        assert(s.handed + items =~= s.handed);
    }
}

/// With nothing left to send there is nothing to wait for: as soon as such a cell is
/// polled, whoever waits for a drain is told, and a closing cell closes its sink and stops.
pub proof fn law_nothing_left_to_send<F, I, E, M, D>(s: Session<F, I, E, M, D>, stop: bool)
    requires
        s.resting(),
        s.action is Done,
        s.cell.error is None,
        s.cell.drain is Some || s.cell.flags.closing,
        s.cell.drained(),
    ensures
        ({
            let polled = s.next(Op::Poll(stop));
            &&& s.allows(Op::Poll(stop))
            &&& polled.cell.drain is None
            &&& polled.cell.drained()
            &&& s.cell.flags.closing ==> {
                &&& polled.cell.flags.sink_closed
                &&& polled.action == CellAction::<I, E, M, D>::Done(ContextCellResult::Stop)
            }
            &&& !s.cell.flags.closing && s.cell.alive() && !stop ==> polled.action
                == CellAction::<I, E, M, D>::Done(ContextCellResult::Ready)
        }),
{
}

/// What was read is what the actor has handled, then what it is being called with.
proof fn lemma_frames_next<F, I, E, M, D>(s: Session<F, I, E, M, D>, op: Op<F, I, E, M, D>)
    requires
        s.allows(op),
        s.read == s.handled + s.in_hand(),
    ensures
        s.next(op).read == s.next(op).handled + s.next(op).in_hand(),
{
    let n = s.next(op);
    lemma_calls_only_with_frames(s, op);
    assert(n.read =~= n.handled + n.in_hand());
}

/// A call on the actor with a frame comes from reading that frame, and lasts until it
/// returns.
proof fn lemma_calls_only_with_frames<F, I, E, M, D>(
    s: Session<F, I, E, M, D>,
    op: Op<F, I, E, M, D>,
)
    requires
        s.allows(op),
    ensures
        polling(op) ==> s.next(op).in_hand() == match op {
            Op::Stream(event) => crate::session::read_from(event),
            _ => Seq::empty(),
        },
        !polling(op) ==> s.next(op).in_hand() == s.in_hand(),
{
    match op {
        Op::Poll(stop) => lemma_turn::<F, I, E, M, D>(s.cell, stop),
        Op::Resume => {
            match s.action {
                CellAction::Handle(_, point, round) => {
                    lemma_resume::<F, I, E, M, D>(s.cell, point, round);
                },
                CellAction::Closed(_, point, round) => {
                    lemma_resume::<F, I, E, M, D>(s.cell, point, round);
                },
                _ => {},
            }
        },
        Op::Stream(_) => lemma_sink::<F, I, E, M, D>(s.cell, s.action->PollStream_0),
        Op::Item(event) => {
            let round = s.action->StartSend_1;
            match event {
                SinkEvent::NotReady(msg) => {
                    lemma_flush::<F, I, E, M, D>(s.cell.given_back(msg), round);
                },
                SinkEvent::Accepted => lemma_offer::<F, I, E, M, D>(s.cell, round),
                SinkEvent::Failed(_) => {},
            }
        },
        Op::Flush(event) => {
            let round = s.action->PollComplete_0;
            match event {
                FlushEvent::Flushed => {
                    lemma_settle::<F, I, E, M, D>(
                        s.cell.with_flushed(true),
                        Round { not_ready: false, ..round },
                    );
                },
                _ => lemma_settle::<F, I, E, M, D>(s.cell, round),
            }
        },
        _ => {},
    }
}

/// What is read reaches the actor in order: everything read, frames and failures alike,
/// is what the actor has been called with, and the two are equal whenever no such call is
/// under way.
pub proof fn law_frames_in_order<F, I, E, M, D>(framed: F, ops: Seq<Op<F, I, E, M, D>>)
    requires
        Session::<F, I, E, M, D>::start(framed).allows_all(ops),
    ensures
        ({
            let s = Session::<F, I, E, M, D>::start(framed).after(ops);
            &&& s.read == s.handled + s.in_hand()
            &&& !(s.action is Handle) ==> s.read == s.handled
        }),
    decreases ops.len(),
{
    let start = Session::<F, I, E, M, D>::start(framed);
    if ops.len() == 0 {
        assert(start.read =~= start.handled + start.in_hand());
    } else {
        law_frames_in_order(framed, ops.drop_last());
        lemma_frames_next(start.after(ops.drop_last()), ops.last());
    }
    let s = start.after(ops);
    assert(s.handled + Seq::<Result<M, D>>::empty() =~= s.handled);
}

/// The transport gives the frames, one after the other, and each call on the actor
/// returns before the next one is read.
pub open spec fn receiving<F, I, E, M, D>(frames: Seq<M>) -> Seq<Op<F, I, E, M, D>>
    decreases frames.len(),
{
    if frames.len() == 0 {
        Seq::empty()
    } else {
        receiving(frames.drop_last()).push(Op::Stream(StreamEvent::Item(frames.last()))).push(
            Op::Resume,
        )
    }
}

/// The frames as the actor is called with them.
pub open spec fn as_handled<M, D>(frames: Seq<M>) -> Seq<Result<M, D>> {
    frames.map_values(|msg: M| Ok(msg))
}

proof fn lemma_receiving<F, I, E, M, D>(s: Session<F, I, E, M, D>, frames: Seq<M>, stop: bool)
    requires
        s.direct is None,
        s.action == CellAction::<I, E, M, D>::PollStream(Round { stop, not_ready: true }),
        s.cell.reads(),
        s.cell.alive(),
        s.cell.drained(),
    ensures
        s.allows_all(receiving(frames)),
        s.after(receiving(frames)) == (Session {
            read: s.read + as_handled(frames),
            handled: s.handled + as_handled(frames),
            ..s
        }),
    decreases frames.len(),
{
    let ops = receiving::<F, I, E, M, D>(frames);
    if frames.len() == 0 {
        assert(s.read + as_handled(frames) =~= s.read);
        assert(s.handled + as_handled(frames) =~= s.handled);
    } else {
        let fewer = frames.drop_last();
        let earlier = receiving::<F, I, E, M, D>(fewer);
        let item = Op::<F, I, E, M, D>::Stream(StreamEvent::Item(frames.last()));
        lemma_receiving(s, fewer, stop);
        assert(ops.drop_last() =~= earlier.push(item));
        assert(earlier.push(item).drop_last() =~= earlier);
        let before = s.after(earlier);
        let called = before.next(item);
        assert(s.allows_all(earlier.push(item)));
        assert(s.after(earlier.push(item)) == called);
        assert(s.after(ops) == called.next(Op::Resume));
        assert(called.cell.settled() == called.cell);
        let last: Result<M, D> = Ok(frames.last());
        assert(as_handled::<M, D>(frames) =~= as_handled::<M, D>(fewer).push(last));
        assert(before.read + seq![last] =~= s.read + as_handled(frames));
        assert(before.handled + seq![last] =~= s.handled + as_handled(frames));
    }
}

/// One poll reads all there is: with nothing to send and both halves open, every frame
/// that the transport gives is handed to the actor, in order, and leads back to reading
/// with the cell as it was, until the transport has no more.
pub proof fn law_poll_receives_everything<F, I, E, M, D>(
    s: Session<F, I, E, M, D>,
    frames: Seq<M>,
    stop: bool,
)
    requires
        s.resting(),
        s.action is Done,
        s.cell.error is None,
        s.cell.reads(),
        s.cell.alive(),
        s.cell.drained(),
    ensures
        ({
            let polled = s.next(Op::Poll(stop));
            let received = polled.after(receiving(frames));
            let idle = received.next(Op::Stream(StreamEvent::NotReady));
            &&& s.allows(Op::Poll(stop))
            &&& polled.allows_all(receiving(frames))
            &&& received.action is PollStream
            &&& received.cell == s.cell
            &&& received.read == s.read + as_handled(frames)
            &&& received.handled == s.handled + as_handled(frames)
            &&& received.allows(Op::Stream(StreamEvent::NotReady))
            &&& idle.cell == s.cell
            &&& idle.action == if stop {
                CellAction::<I, E, M, D>::Shutdown
            } else {
                CellAction::<I, E, M, D>::Done(ContextCellResult::Ready)
            }
        }),
{
    lemma_receiving(s.next(Op::Poll(stop)), frames, stop);
    assert(s.cell.settled() == s.cell);
}

/// Stopping ends sending by force: where the context is stopping, a transport that is not
/// ready for anything is shut down in that very poll, with what is buffered left unsent.
/// Only a closing cell with nothing left to send has come to its end instead.
pub proof fn law_stop_forces_shutdown<F, I, E, M, D>(s: Session<F, I, E, M, D>)
    requires
        s.resting(),
        s.action is Done,
        s.cell.error is None,
        s.cell.drain is None,
        s.cell.alive(),
    ensures
        ({
            let end = s.next(Op::Poll(true)).refused().refused().refused();
            &&& s.allows(Op::Poll(true))
            &&& end.cell.sink_items == s.cell.sink_items
            &&& end.handed == s.handed
            &&& end.action == if s.cell.flags.closing && s.cell.drained() {
                CellAction::<I, E, M, D>::Done(ContextCellResult::Stop)
            } else {
                CellAction::<I, E, M, D>::Shutdown
            }
        }),
{
    lemma_oldest(s.cell.sink_items);
}

/// Without its transport a context sends nothing: items come back, closing and taking
/// change nothing, and there is nothing to take a second time.
pub proof fn law_nothing_after_take<A, F, I, E>(ctx: ContextView<A, F, I, E>, msg: I)
    ensures
        ctx.taken().send_result(msg) == Err::<Option<I>, I>(msg),
        ctx.taken().send_begun(msg) == ctx.taken(),
        ctx.taken().close_begun() == ctx.taken(),
        ctx.taken().taken() == ctx.taken(),
        ctx.taken().transport() is None,
{
}

/// A replaced transport is the one that is taken afterwards. Its sink is open and empty,
/// whatever became of the one before, which leaves nothing behind but a failure that the
/// actor has not been told of; after a `take` it leaves nothing at all.
pub proof fn law_replaced_starts_anew<A, F, I, E>(ctx: ContextView<A, F, I, E>, framed: F)
    ensures
        ctx.replaced(framed).transport() == Some(framed),
        ctx.replaced(framed).accepts(),
        ctx.replaced(framed).modified,
        ctx.replaced(framed).act == ctx.act,
        ctx.replaced(framed).cell matches Some(after) && after == (CellView {
            error: match ctx.cell {
                Some(cell) => cell.error,
                None => None,
            },
            ..CellView::<F, I, E>::fresh(framed)
        }),
        ctx.taken().replaced(framed) == (ContextView {
            modified: true,
            ..ContextView::<A, F, I, E>::fresh(ctx.act, framed)
        }),
{
}

/// Sending, closing and the transport's answers leave the transport in place: what is
/// taken is what was put there last.
pub proof fn law_transport_is_kept<A, F, I, E>(
    ctx: ContextView<A, F, I, E>,
    msg: I,
    event: SinkEvent<I, E>,
)
    ensures
        ctx.send_begun(msg).transport() == ctx.transport(),
        ctx.send_answered(event).transport() == ctx.transport(),
        ctx.close_begun().transport() == ctx.transport(),
{
}

/// What the actor is to be told is what it has been told, what it is being told, and what
/// is kept for the next poll.
spec fn all_accounted<F, I, E, M, D>(s: Session<F, I, E, M, D>) -> bool {
    &&& s.troubles == s.told.add(s.being_told()).add(s.untold())
    &&& s.direct is Some ==> s.cell.error is None
    &&& s.direct is Some ==> s.action is Done || s.action is Handle || s.action is Closed
}

/// What an operation does to the call under way and to the failure that is kept.
proof fn lemma_tells<F, I, E, M, D>(s: Session<F, I, E, M, D>, op: Op<F, I, E, M, D>)
    requires
        s.allows(op),
        polling(op),
    ensures
        s.next(op).direct == s.direct,
        op is Poll ==> s.next(op).being_told() == s.untold() && s.next(op).cell.error is None,
        !(op is Poll) ==> s.next(op).being_told() == crate::session::trouble_from(op)
            && s.next(op).cell.error == s.cell.error,
{
    match op {
        Op::Poll(stop) => lemma_turn::<F, I, E, M, D>(s.cell, stop),
        Op::Resume => {
            match s.action {
                CellAction::Handle(_, point, round) => {
                    lemma_resume::<F, I, E, M, D>(s.cell, point, round);
                },
                CellAction::Closed(_, point, round) => {
                    lemma_resume::<F, I, E, M, D>(s.cell, point, round);
                },
                _ => {},
            }
        },
        Op::Stream(_) => lemma_sink::<F, I, E, M, D>(s.cell, s.action->PollStream_0),
        Op::Item(event) => {
            let round = s.action->StartSend_1;
            match event {
                SinkEvent::NotReady(msg) => {
                    lemma_flush::<F, I, E, M, D>(s.cell.given_back(msg), round);
                },
                SinkEvent::Accepted => lemma_offer::<F, I, E, M, D>(s.cell, round),
                SinkEvent::Failed(_) => {},
            }
        },
        Op::Flush(event) => {
            let round = s.action->PollComplete_0;
            match event {
                FlushEvent::Flushed => {
                    lemma_settle::<F, I, E, M, D>(
                        s.cell.with_flushed(true),
                        Round { not_ready: false, ..round },
                    );
                },
                _ => lemma_settle::<F, I, E, M, D>(s.cell, round),
            }
        },
        _ => {},
    }
}

proof fn lemma_accounted_next<F, I, E, M, D>(s: Session<F, I, E, M, D>, op: Op<F, I, E, M, D>)
    requires
        s.allows(op),
        all_accounted(s),
    ensures
        all_accounted(s.next(op)),
{
    broadcast use vstd::multiset::group_multiset_axioms;

    let n = s.next(op);
    if polling(op) {
        lemma_tells(s, op);
        lemma_step_facts(s, op);
    }
    assert(n.troubles =~= n.told.add(n.being_told()).add(n.untold()));
}

/// The actor is told of every end of the stream and of every failure to send, each of them
/// once: all that came are those that it has been told of, the one it is being told of,
/// and the one kept for the next poll.
pub proof fn law_every_trouble_is_told_once<F, I, E, M, D>(
    framed: F,
    ops: Seq<Op<F, I, E, M, D>>,
)
    requires
        Session::<F, I, E, M, D>::start(framed).allows_all(ops),
    ensures
        ({
            let s = Session::<F, I, E, M, D>::start(framed).after(ops);
            s.troubles == s.told.add(s.being_told()).add(s.untold())
        }),
{
    lemma_accounted(framed, ops);
}

proof fn lemma_accounted<F, I, E, M, D>(framed: F, ops: Seq<Op<F, I, E, M, D>>)
    requires
        Session::<F, I, E, M, D>::start(framed).allows_all(ops),
    ensures
        all_accounted(Session::<F, I, E, M, D>::start(framed).after(ops)),
    decreases ops.len(),
{
    broadcast use vstd::multiset::group_multiset_axioms;

    let start = Session::<F, I, E, M, D>::start(framed);
    if ops.len() == 0 {
        assert(start.troubles =~= start.told.add(start.being_told()).add(start.untold()));
    } else {
        lemma_accounted(framed, ops.drop_last());
        lemma_accounted_next(start.after(ops.drop_last()), ops.last());
    }
}

} // verus!
