//! The steps of a cell and of a context, with plain values for transport and items.

use framed::cell::ActorFramedCell;
use framed::context::{FramedContext, Supervised};
use framed::flags::FramedFlags;
use framed::model::{
    CellAction, ContextCellResult, FlushEvent, Point, Round, SinkEvent, StreamEvent,
};
use futures::executor::{spawn, Notify};
use futures::{Async, Future};
use std::sync::Arc;

type Cell = ActorFramedCell<&'static str, u32, &'static str>;
type Action = CellAction<u32, &'static str, char, &'static str>;
type Context = FramedContext<Guard, &'static str, u32, &'static str>;

#[derive(Debug, PartialEq)]
struct Guard {
    restarts: u32,
}

impl Supervised<Context> for Guard {
    fn restarting(&mut self, ctx: &mut Context) {
        self.restarts += 1;
        ctx.close();
    }
}

/// A task that is not woken.
struct Idle;

impl Notify for Idle {
    fn notify(&self, _: usize) {}
}

fn cell() -> Cell {
    ActorFramedCell::new("io")
}

fn context() -> Context {
    FramedContext::framed(Some(Guard { restarts: 0 }), "io")
}

const FIRST: Round = Round { stop: false, not_ready: true };
const MOVED: Round = Round { stop: false, not_ready: false };

fn has(cell: &Cell, flag: FramedFlags) -> bool {
    cell.flags.contains(flag)
}

/// A cell with 1 and 2 buffered.
fn blocked() -> Cell {
    let mut c = cell();
    assert_eq!(c.send(1), Some(1));
    c.after_send(SinkEvent::NotReady(1));
    assert_eq!(c.send(2), None);
    c
}

#[test]
fn flags_are_set_and_cleared_one_by_one() {
    let mut f = FramedFlags::sink_flushed();
    assert!(f.contains(FramedFlags::sink_flushed()));
    assert!(!f.contains(FramedFlags::started()));
    f.insert(FramedFlags::started());
    f.insert(FramedFlags::closing());
    assert!(f.contains(FramedFlags::started().union(FramedFlags::closing())));
    assert!(!f.contains(FramedFlags::started().union(FramedFlags::sink_closed())));
    f.remove(FramedFlags::started().union(FramedFlags::stream_closed()));
    assert!(!f.contains(FramedFlags::started()));
    assert!(f.contains(FramedFlags::closing().union(FramedFlags::sink_flushed())));
    assert!(!f.contains(FramedFlags::stream_closed()));
}

#[test]
fn new_cell_is_open_and_flushed() {
    let mut c = cell();
    assert!(c.alive());
    assert!(!c.closed());
    assert!(has(&c, FramedFlags::sink_flushed()));
    assert!(c.sink_items.is_empty());
    assert!(c.drain.is_none() && c.error.is_none());
    assert_eq!(c.into_framed(), "io");
}

#[test]
fn accepted_item_is_not_buffered() {
    let mut c = cell();
    assert_eq!(c.send(7), Some(7));
    assert!(!has(&c, FramedFlags::sink_flushed()));
    c.after_send(SinkEvent::Accepted);
    assert!(c.sink_items.is_empty());
    assert!(c.error.is_none());
}

#[test]
fn items_are_offered_in_the_order_sent() {
    let mut c = blocked();
    assert_eq!(c.send(3), None);
    let a: Action = c.poll(false);
    assert!(matches!(a, CellAction::PollStream(FIRST)));
    let a: Action = c.after_stream(FIRST, StreamEvent::NotReady);
    assert!(matches!(a, CellAction::StartSend(1, FIRST)));
    let a: Action = c.after_item(FIRST, SinkEvent::Accepted);
    assert!(matches!(a, CellAction::StartSend(2, FIRST)));
    // given back, it is still the next one
    let a: Action = c.after_item(FIRST, SinkEvent::NotReady(2));
    assert!(matches!(a, CellAction::PollComplete(FIRST)));
    assert_eq!(c.sink_items, vec![2, 3]);
    let a: Action = c.after_flush(FIRST, FlushEvent::Flushed);
    // something has moved: another turn
    assert!(matches!(a, CellAction::PollStream(FIRST)));
    let a: Action = c.after_stream(FIRST, StreamEvent::NotReady);
    assert!(matches!(a, CellAction::StartSend(2, FIRST)));
    let a: Action = c.after_item(FIRST, SinkEvent::Accepted);
    assert!(matches!(a, CellAction::StartSend(3, FIRST)));
    let a: Action = c.after_item(FIRST, SinkEvent::Accepted);
    assert!(matches!(a, CellAction::PollComplete(FIRST)));
    assert!(c.sink_items.is_empty());
    let a: Action = c.after_flush(FIRST, FlushEvent::NotReady);
    assert!(matches!(a, CellAction::Done(ContextCellResult::Ready)));
}

#[test]
fn failed_send_is_told_at_the_next_poll() {
    let mut c = cell();
    assert_eq!(c.send(1), Some(1));
    c.after_send(SinkEvent::Failed("broken"));
    assert!(c.alive());
    // buffered behind the failure
    assert_eq!(c.send(2), None);
    let a: Action = c.poll(true);
    match a {
        CellAction::Closed(Some("broken"), Point::Turn, round) => {
            assert_eq!(round, Round { stop: true, not_ready: true });
            assert!(c.closed());
            assert!(c.error.is_none());
            let a: Action = c.resume(Point::Turn, round);
            assert!(matches!(a, CellAction::Done(ContextCellResult::Stop)));
        }
        other => panic!("{:?}", other),
    }
    assert_eq!(c.sink_items, vec![2]);
}

#[test]
fn received_item_is_handled() {
    let mut c = cell();
    let a: Action = c.after_stream(FIRST, StreamEvent::Item('x'));
    assert!(matches!(a, CellAction::Handle(Ok('x'), Point::Sink, MOVED)));
    let a: Action = c.resume(Point::Sink, MOVED);
    assert!(matches!(a, CellAction::PollStream(FIRST)));
}

#[test]
fn end_of_stream_closes_both_halves() {
    let mut c = blocked();
    let a: Action = c.after_stream(FIRST, StreamEvent::End);
    assert!(matches!(a, CellAction::Closed(None, Point::Sink, FIRST)));
    assert!(c.closed());
    // what is buffered stays where it is
    let a: Action = c.resume(Point::Sink, FIRST);
    assert!(matches!(a, CellAction::Done(ContextCellResult::Stop)));
    assert_eq!(c.sink_items, vec![1, 2]);
}

#[test]
fn read_failure_is_handled() {
    let mut c = cell();
    let a: Action = c.after_stream(FIRST, StreamEvent::Failed("read"));
    assert!(matches!(a, CellAction::Handle(Err("read"), Point::Sink, FIRST)));
    assert!(c.closed());
}

#[test]
fn failed_item_is_told_and_what_is_left_is_flushed() {
    let mut c = blocked();
    let a: Action = c.after_stream(FIRST, StreamEvent::NotReady);
    assert!(matches!(a, CellAction::StartSend(1, FIRST)));
    let a: Action = c.after_item(FIRST, SinkEvent::Failed("write"));
    assert!(matches!(a, CellAction::Closed(Some("write"), Point::Flush, FIRST)));
    assert!(c.closed());
    let a: Action = c.resume(Point::Flush, FIRST);
    assert!(matches!(a, CellAction::PollComplete(FIRST)));
    let a: Action = c.after_flush(FIRST, FlushEvent::Flushed);
    assert!(matches!(a, CellAction::Done(ContextCellResult::Stop)));
}

#[test]
fn failed_flush_closes_the_sink() {
    let mut c = cell();
    assert_eq!(c.send(1), Some(1));
    c.after_send(SinkEvent::Accepted);
    let a: Action = c.after_flush(FIRST, FlushEvent::Failed("flush"));
    assert!(matches!(a, CellAction::Closed(Some("flush"), Point::Settle, FIRST)));
    assert!(!c.alive());
    assert!(!c.closed());
    assert!(has(&c, FramedFlags::sink_closed()));
    assert!(has(&c, FramedFlags::sink_flushed()));
    let a: Action = c.resume(Point::Settle, FIRST);
    assert!(matches!(a, CellAction::Done(ContextCellResult::Stop)));
}

#[test]
fn pending_drain_pauses_reading() {
    let mut c = blocked();
    let mut rx = spawn(c.drain());
    let a: Action = c.poll(false);
    assert!(matches!(a, CellAction::StartSend(1, FIRST)));
    let a: Action = c.after_item(FIRST, SinkEvent::NotReady(1));
    assert!(matches!(a, CellAction::Done(ContextCellResult::NotReady)));
    assert_eq!(c.sink_items, vec![1, 2]);
    assert_eq!(rx.poll_future_notify(&Arc::new(Idle), 0), Ok(Async::NotReady));
}

#[test]
fn drain_resolves_and_reading_goes_on() {
    let mut c = blocked();
    let mut rx = c.drain();
    let _: Action = c.poll(false);
    let _: Action = c.after_item(FIRST, SinkEvent::Accepted);
    let a: Action = c.after_item(FIRST, SinkEvent::Accepted);
    assert!(matches!(a, CellAction::PollComplete(FIRST)));
    let a: Action = c.after_flush(FIRST, FlushEvent::NotReady);
    assert!(matches!(a, CellAction::Done(ContextCellResult::NotReady)));
    let a: Action = c.poll(false);
    assert!(matches!(a, CellAction::PollComplete(FIRST)));
    let a: Action = c.after_flush(FIRST, FlushEvent::Flushed);
    assert!(matches!(a, CellAction::PollStream(FIRST)));
    assert_eq!(rx.poll(), Ok(Async::Ready(())));
}

#[test]
fn drain_resolves_when_the_sink_fails() {
    let mut c = blocked();
    let mut rx = c.drain();
    let _: Action = c.poll(false);
    let _: Action = c.after_item(FIRST, SinkEvent::Failed("write"));
    let _: Action = c.resume(Point::Flush, FIRST);
    let _: Action = c.after_flush(FIRST, FlushEvent::Flushed);
    assert_eq!(rx.poll(), Ok(Async::Ready(())));
}

#[test]
fn second_drain_resolves_the_first() {
    let mut c = blocked();
    let mut first = c.drain();
    let _second = c.drain();
    assert_eq!(first.poll(), Ok(Async::Ready(())));
    assert!(c.drain.is_some());
}

#[test]
fn closing_cell_stops_once_everything_is_out() {
    let mut c = blocked();
    c.close();
    let a: Action = c.poll(false);
    assert!(matches!(a, CellAction::StartSend(1, FIRST)));
    let a: Action = c.after_item(FIRST, SinkEvent::Accepted);
    assert!(matches!(a, CellAction::StartSend(2, FIRST)));
    let a: Action = c.after_item(FIRST, SinkEvent::Accepted);
    assert!(matches!(a, CellAction::PollComplete(FIRST)));
    assert!(c.alive());
    let a: Action = c.after_flush(FIRST, FlushEvent::Flushed);
    assert!(matches!(a, CellAction::Done(ContextCellResult::Stop)));
    assert!(has(&c, FramedFlags::sink_closed()));
    assert!(!has(&c, FramedFlags::stream_closed()));
}

#[test]
fn closing_cell_with_nothing_to_send_stops_at_once() {
    let mut c = cell();
    c.close();
    let a: Action = c.poll(false);
    assert!(matches!(a, CellAction::Done(ContextCellResult::Stop)));
}

#[test]
fn drain_with_nothing_to_send_resolves_at_once() {
    let mut c = cell();
    let mut rx = c.drain();
    let a: Action = c.poll(false);
    assert!(matches!(a, CellAction::Done(ContextCellResult::Ready)));
    assert_eq!(rx.poll(), Ok(Async::Ready(())));
}

#[test]
fn stopping_shuts_the_transport_down() {
    let mut c = cell();
    let round = Round { stop: true, not_ready: true };
    let a: Action = c.poll(true);
    assert!(matches!(a, CellAction::PollStream(r) if r == round));
    let a: Action = c.after_stream(round, StreamEvent::NotReady);
    assert!(matches!(a, CellAction::Shutdown));
    assert_eq!(c.after_shutdown(true), ContextCellResult::NotReady);
    assert_eq!(c.after_shutdown(false), ContextCellResult::Ready);
}

#[test]
fn stopping_gives_up_on_a_transport_that_is_not_ready() {
    let mut c = blocked();
    let round = Round { stop: true, not_ready: true };
    let a: Action = c.poll(true);
    assert!(matches!(a, CellAction::PollStream(_)));
    let a: Action = c.after_stream(round, StreamEvent::NotReady);
    assert!(matches!(a, CellAction::StartSend(1, _)));
    let a: Action = c.after_item(round, SinkEvent::NotReady(1));
    assert!(matches!(a, CellAction::PollComplete(_)));
    let a: Action = c.after_flush(round, FlushEvent::NotReady);
    assert!(matches!(a, CellAction::Shutdown));
    assert_eq!(c.sink_items, vec![1, 2]);

    // closing, too, as long as something is left
    c.close();
    let a: Action = c.poll(true);
    assert!(matches!(a, CellAction::StartSend(1, _)));
    let _: Action = c.after_item(round, SinkEvent::NotReady(1));
    let a: Action = c.after_flush(round, FlushEvent::NotReady);
    assert!(matches!(a, CellAction::Shutdown));
    assert_eq!(c.sink_items, vec![1, 2]);
}

#[test]
fn frames_are_handled_one_after_the_other() {
    let mut c = cell();
    let a: Action = c.poll(false);
    assert!(matches!(a, CellAction::PollStream(FIRST)));
    for frame in ['a', 'b', 'c'] {
        let a: Action = c.after_stream(FIRST, StreamEvent::Item(frame));
        match a {
            CellAction::Handle(Ok(got), point, round) => {
                assert_eq!(got, frame);
                let a: Action = c.resume(point, round);
                assert!(matches!(a, CellAction::PollStream(FIRST)));
            }
            other => panic!("{:?}", other),
        }
    }
    let a: Action = c.after_stream(FIRST, StreamEvent::NotReady);
    assert!(matches!(a, CellAction::Done(ContextCellResult::Ready)));
    assert!(c.alive() && has(&c, FramedFlags::sink_flushed()));
}

#[test]
fn replaced_cell_keeps_only_an_untold_failure() {
    let mut c = blocked();
    c.after_send(SinkEvent::Failed("old"));
    c.close();
    let mut rx = c.drain();
    c.replace("other");
    assert!(rx.poll().is_err());
    assert!(c.sink_items.is_empty());
    assert!(c.drain.is_none());
    assert!(has(&c, FramedFlags::sink_flushed()));
    assert!(!has(&c, FramedFlags::closing()));
    assert_eq!(c.error, Some("old"));
    assert_eq!(c.into_framed(), "other");
}

#[test]
fn context_without_transport_gives_items_back() {
    let mut ctx = context();
    assert_eq!(ctx.send(1), Ok(Some(1)));
    ctx.after_send(SinkEvent::NotReady(1));
    assert_eq!(ctx.send(2), Ok(None));
    assert_eq!(ctx.take(), Some("io"));
    assert_eq!(ctx.take(), None);
    assert_eq!(ctx.send(3), Err(3));
    ctx.close();
    ctx.after_send(SinkEvent::NotReady(3));
    assert!(ctx.cell.is_none());
    let mut rx = ctx.drain();
    assert_eq!(rx.poll(), Ok(Async::Ready(())));
    let a: Action = ctx.poll(false);
    assert!(matches!(a, CellAction::Done(ContextCellResult::Ready)));
    let a: Action = ctx.resume(Point::Sink, FIRST);
    assert!(matches!(a, CellAction::Done(ContextCellResult::Ready)));
    assert!(!ctx.modified);

    ctx.replace("other");
    assert!(ctx.modified);
    assert_eq!(ctx.send(4), Ok(Some(4)));
    assert_eq!(ctx.take(), Some("other"));
}

#[test]
fn closed_sink_gives_items_back() {
    let mut ctx = context();
    let a: Action = ctx.cell.as_mut().unwrap().after_stream(FIRST, StreamEvent::End);
    assert!(matches!(a, CellAction::Closed(None, Point::Sink, FIRST)));
    assert_eq!(ctx.send(1), Err(1));
    assert!(ctx.cell.as_ref().unwrap().sink_items.is_empty());
    // another transport is open again
    ctx.replace("other");
    assert_eq!(ctx.send(2), Ok(Some(2)));
}

#[test]
fn closing_sink_still_takes_items() {
    let mut ctx = context();
    ctx.close();
    assert_eq!(ctx.send(1), Ok(Some(1)));
}

#[test]
fn drain_asked_for_in_a_failed_item_waits_for_the_new_transport() {
    let mut c = blocked();
    let _: Action = c.after_stream(FIRST, StreamEvent::NotReady);
    let a: Action = c.after_item(FIRST, SinkEvent::Failed("write"));
    assert!(matches!(a, CellAction::Closed(Some("write"), Point::Flush, FIRST)));
    // told of the failure, the actor turns to another transport
    c.replace("other");
    assert_eq!(c.send(9), Some(9));
    c.after_send(SinkEvent::NotReady(9));
    let mut rx = spawn(c.drain());
    let a: Action = c.resume(Point::Flush, FIRST);
    assert!(matches!(a, CellAction::StartSend(9, FIRST)));
    let a: Action = c.after_item(FIRST, SinkEvent::NotReady(9));
    assert!(matches!(a, CellAction::Done(ContextCellResult::NotReady)));
    assert_eq!(c.sink_items, vec![9]);
    assert_eq!(rx.poll_future_notify(&Arc::new(Idle), 0), Ok(Async::NotReady));

    let a: Action = c.poll(false);
    assert!(matches!(a, CellAction::StartSend(9, FIRST)));
    let a: Action = c.after_item(FIRST, SinkEvent::Accepted);
    assert!(matches!(a, CellAction::PollComplete(FIRST)));
    assert_eq!(rx.poll_future_notify(&Arc::new(Idle), 0), Ok(Async::NotReady));
    let a: Action = c.after_flush(FIRST, FlushEvent::Flushed);
    assert!(matches!(a, CellAction::PollStream(FIRST)));
    assert_eq!(rx.poll_future_notify(&Arc::new(Idle), 0), Ok(Async::Ready(())));
}

#[test]
fn drain_asked_for_in_a_failed_flush_waits_for_the_new_transport() {
    let mut c = cell();
    assert_eq!(c.send(1), Some(1));
    c.after_send(SinkEvent::Accepted);
    let a: Action = c.after_flush(FIRST, FlushEvent::Failed("flush"));
    assert!(matches!(a, CellAction::Closed(Some("flush"), Point::Settle, FIRST)));
    c.replace("other");
    assert_eq!(c.send(9), Some(9));
    c.after_send(SinkEvent::Accepted);
    let mut rx = spawn(c.drain());
    let a: Action = c.resume(Point::Settle, FIRST);
    assert!(matches!(a, CellAction::PollComplete(FIRST)));
    assert_eq!(rx.poll_future_notify(&Arc::new(Idle), 0), Ok(Async::NotReady));
    let _: Action = c.after_flush(FIRST, FlushEvent::Flushed);
    assert_eq!(rx.poll_future_notify(&Arc::new(Idle), 0), Ok(Async::Ready(())));
}

#[test]
fn taken_transport_cancels_a_drain() {
    let mut ctx = context();
    let mut rx = ctx.drain();
    assert_eq!(ctx.take(), Some("io"));
    assert!(rx.poll().is_err());

    let mut ctx = context();
    let mut rx = ctx.drain();
    ctx.replace("other");
    assert!(rx.poll().is_err());
    assert_eq!(ctx.take(), Some("other"));
}

#[test]
fn actor_is_put_back_after_a_restart() {
    let mut ctx = context();
    ctx.restarting();
    assert_eq!(ctx.act, Some(Guard { restarts: 1 }));
    assert!(has(ctx.cell.as_ref().unwrap(), FramedFlags::closing()));
    ctx.set_actor(Guard { restarts: 5 });
    assert_eq!(ctx.into_inner(), Guard { restarts: 5 });
}
