//! A context over a real framed transport, run by hand.

#![allow(deprecated)]

use std::{cmp, io};

use bytes::{Bytes, BytesMut};
use framed::context::FramedContext;
use framed::model::{CellAction, ContextCellResult, FlushEvent, SinkEvent, StreamEvent};
use futures::{Async, AsyncSink, Future, Poll, Sink, StartSend, Stream};
use tokio_io::codec::{Decoder, Encoder, Framed};
use tokio_io::{AsyncRead, AsyncWrite};

struct Buffer {
    buf: Bytes,
    eof: bool,
    write: BytesMut,
    err: Option<io::Error>,
    write_err: Option<io::Error>,
    write_block: bool,
    shutdown_block: bool,
}

impl Buffer {
    fn new(data: &'static str) -> Buffer {
        Buffer {
            buf: Bytes::from(data),
            eof: false,
            write: BytesMut::new(),
            err: None,
            write_err: None,
            write_block: false,
            shutdown_block: false,
        }
    }

    fn feed_data(&mut self, data: &'static str) {
        let mut b = BytesMut::from(self.buf.as_ref());
        b.extend(data.as_bytes());
        self.buf = b.take().freeze();
    }
}

impl AsyncRead for Buffer {}

impl io::Read for Buffer {
    fn read(&mut self, dst: &mut [u8]) -> Result<usize, io::Error> {
        if self.buf.is_empty() {
            if self.err.is_some() {
                Err(self.err.take().unwrap())
            } else if self.eof {
                Ok(0)
            } else {
                Err(io::Error::new(io::ErrorKind::WouldBlock, ""))
            }
        } else {
            let size = cmp::min(self.buf.len(), dst.len());
            let b = self.buf.split_to(size);
            dst[..size].copy_from_slice(&b);
            Ok(size)
        }
    }
}

impl io::Write for Buffer {
    fn write(&mut self, buf: &[u8]) -> io::Result<usize> {
        if self.write_block {
            Err(io::Error::new(io::ErrorKind::WouldBlock, ""))
        } else if let Some(err) = self.write_err.take() {
            Err(err)
        } else {
            self.write.extend(buf);
            Ok(buf.len())
        }
    }

    fn flush(&mut self) -> io::Result<()> {
        Ok(())
    }
}

impl AsyncWrite for Buffer {
    fn shutdown(&mut self) -> Poll<(), io::Error> {
        if self.shutdown_block {
            Ok(Async::NotReady)
        } else {
            Ok(Async::Ready(()))
        }
    }
}

struct Item(Bytes);

struct TestCodec;

impl Decoder for TestCodec {
    type Item = Item;
    type Error = io::Error;

    fn decode(&mut self, src: &mut BytesMut) -> Result<Option<Self::Item>, Self::Error> {
        if src.len() >= 2 {
            Ok(Some(Item(src.split_to(2).freeze())))
        } else {
            Ok(None)
        }
    }
}

impl Encoder for TestCodec {
    type Item = Bytes;
    type Error = io::Error;

    fn encode(&mut self, msg: Bytes, dst: &mut BytesMut) -> Result<(), Self::Error> {
        dst.extend(msg);
        Ok(())
    }
}

struct TestActor {
    msgs: Vec<Bytes>,
    read_errors: usize,
    closed: bool,
    error: Option<io::Error>,
    echo: bool,
}

impl TestActor {
    fn new() -> TestActor {
        TestActor { msgs: Vec::new(), read_errors: 0, closed: false, error: None, echo: false }
    }

    fn handle(&mut self, msg: Result<Item, io::Error>, ctx: &mut TestContext) {
        match msg {
            Ok(item) => {
                if self.echo {
                    send(ctx, item.0.clone()).ok().unwrap();
                }
                self.msgs.push(item.0);
            }
            Err(_) => self.read_errors += 1,
        }
    }

    fn closed(&mut self, err: Option<io::Error>, _: &mut TestContext) {
        self.error = err;
        self.closed = true;
    }
}

type TestContext = FramedContext<TestActor, Framed<Buffer, TestCodec>, Bytes, io::Error>;

fn context(buf: Buffer) -> TestContext {
    FramedContext::framed(Some(TestActor::new()), buf.framed(TestCodec))
}

fn io_of(ctx: &mut TestContext) -> &mut Buffer {
    ctx.cell.as_mut().unwrap().framed.get_mut()
}

fn actor(ctx: &TestContext) -> &TestActor {
    ctx.act.as_ref().unwrap()
}

fn sink_event(res: StartSend<Bytes, io::Error>) -> SinkEvent<Bytes, io::Error> {
    match res {
        Ok(AsyncSink::Ready) => SinkEvent::Accepted,
        Ok(AsyncSink::NotReady(msg)) => SinkEvent::NotReady(msg),
        Err(err) => SinkEvent::Failed(err),
    }
}

fn send(ctx: &mut TestContext, msg: Bytes) -> Result<(), Bytes> {
    if let Some(msg) = ctx.send(msg)? {
        let event = sink_event(ctx.cell.as_mut().unwrap().framed.start_send(msg));
        ctx.after_send(event);
    }
    Ok(())
}

fn poll(ctx: &mut TestContext) -> ContextCellResult {
    poll_until(ctx, false)
}

fn poll_until(ctx: &mut TestContext, stop: bool) -> ContextCellResult {
    let mut action: CellAction<Bytes, io::Error, Item, io::Error> = ctx.poll(stop);
    loop {
        action = match action {
            CellAction::PollStream(round) => {
                let cell = ctx.cell.as_mut().unwrap();
                let event = match cell.framed.poll() {
                    Ok(Async::Ready(Some(msg))) => StreamEvent::Item(msg),
                    Ok(Async::Ready(None)) => StreamEvent::End,
                    Ok(Async::NotReady) => StreamEvent::NotReady,
                    Err(err) => StreamEvent::Failed(err),
                };
                cell.after_stream(round, event)
            }
            CellAction::StartSend(msg, round) => {
                let cell = ctx.cell.as_mut().unwrap();
                let event = sink_event(cell.framed.start_send(msg));
                cell.after_item(round, event)
            }
            CellAction::PollComplete(round) => {
                let cell = ctx.cell.as_mut().unwrap();
                let event = match cell.framed.poll_complete() {
                    Ok(Async::Ready(_)) => FlushEvent::Flushed,
                    Ok(Async::NotReady) => FlushEvent::NotReady,
                    Err(err) => FlushEvent::Failed(err),
                };
                cell.after_flush(round, event)
            }
            CellAction::Shutdown => {
                let cell = ctx.cell.as_mut().unwrap();
                let pending = matches!(cell.framed.get_mut().shutdown(), Ok(Async::NotReady));
                return cell.after_shutdown(pending);
            }
            CellAction::Handle(msg, point, round) => {
                let mut act = ctx.act.take().unwrap();
                act.handle(msg, ctx);
                ctx.set_actor(act);
                ctx.resume(point, round)
            }
            CellAction::Closed(err, point, round) => {
                let mut act = ctx.act.take().unwrap();
                act.closed(err, ctx);
                ctx.set_actor(act);
                ctx.resume(point, round)
            }
            CellAction::Done(result) => return result,
        };
    }
}

#[test]
fn test_basic() {
    let mut ctx = context(Buffer::new(""));

    let _ = poll(&mut ctx);
    io_of(&mut ctx).feed_data("data");

    // messages received
    let _ = poll(&mut ctx);
    assert_eq!(actor(&ctx).msgs[0], b"da"[..]);
    assert_eq!(actor(&ctx).msgs[1], b"ta"[..]);

    // block sink
    io_of(&mut ctx).write_block = true;
    send(&mut ctx, Bytes::from_static(b"11")).ok().unwrap();
    send(&mut ctx, Bytes::from_static(b"22")).ok().unwrap();

    // drain
    let _ = ctx.drain();

    // new data in framed, actor is paused
    io_of(&mut ctx).feed_data("bb");
    let _ = poll(&mut ctx);
    assert_eq!(actor(&ctx).msgs.len(), 2);

    // sink unblocked
    io_of(&mut ctx).write_block = false;
    let _ = poll(&mut ctx);
    assert_eq!(actor(&ctx).msgs.len(), 3);
    assert_eq!(actor(&ctx).msgs[2], b"bb"[..]);

    // sink data
    assert_eq!(io_of(&mut ctx).write, b"1122"[..]);
}

#[test]
fn test_multiple_message() {
    let mut ctx = context(Buffer::new(""));

    let _ = poll(&mut ctx);
    io_of(&mut ctx).feed_data("11223344");

    // messages received
    let _ = poll(&mut ctx);
    assert_eq!(
        actor(&ctx).msgs,
        vec![
            Bytes::from_static(b"11"),
            Bytes::from_static(b"22"),
            Bytes::from_static(b"33"),
            Bytes::from_static(b"44")
        ]
    );
}

#[test]
fn test_error_during_poll() {
    let mut ctx = context(Buffer::new(""));

    let _ = poll(&mut ctx);
    io_of(&mut ctx).write_err = Some(io::Error::new(io::ErrorKind::Other, "error"));

    ctx.cell.as_mut().unwrap().sink_items.push_back(Bytes::from_static(b"11"));
    let _ = poll(&mut ctx);
    assert!(actor(&ctx).error.is_some());
    assert!(actor(&ctx).closed);
}

#[test]
fn test_close() {
    let mut buf = Buffer::new("");
    buf.eof = true;
    let mut ctx = context(buf);

    let _ = poll(&mut ctx);
    assert!(actor(&ctx).error.is_none());
    assert!(actor(&ctx).closed);
}

#[test]
fn drain_resolves_once_everything_is_flushed() {
    let mut ctx = context(Buffer::new(""));
    io_of(&mut ctx).write_block = true;
    send(&mut ctx, Bytes::from_static(b"11")).ok().unwrap();
    let mut rx = ctx.drain();
    assert_eq!(poll(&mut ctx), ContextCellResult::NotReady);
    assert!(ctx.cell.as_ref().unwrap().drain.is_some());

    io_of(&mut ctx).write_block = false;
    assert_eq!(poll(&mut ctx), ContextCellResult::Ready);
    assert!(ctx.cell.as_ref().unwrap().drain.is_none());
    assert_eq!(rx.poll(), Ok(Async::Ready(())));
    assert_eq!(io_of(&mut ctx).write, b"11"[..]);
}

#[test]
fn closing_sends_what_is_buffered_first() {
    let mut ctx = context(Buffer::new("xy"));
    io_of(&mut ctx).write_block = true;
    send(&mut ctx, Bytes::from_static(b"11")).ok().unwrap();
    ctx.close();
    // closing does not read any more
    assert_eq!(poll(&mut ctx), ContextCellResult::Ready);
    assert!(actor(&ctx).msgs.is_empty());
    assert!(ctx.cell.as_ref().unwrap().alive());

    send(&mut ctx, Bytes::from_static(b"22")).ok().unwrap();
    io_of(&mut ctx).write_block = false;
    assert_eq!(poll(&mut ctx), ContextCellResult::Stop);
    assert_eq!(io_of(&mut ctx).write, b"1122"[..]);
    assert!(!actor(&ctx).closed);

    // the sink is closed now
    let back = send(&mut ctx, Bytes::from_static(b"33"));
    assert_eq!(back, Err(Bytes::from_static(b"33")));
}

#[test]
fn read_error_is_handed_to_the_actor() {
    let mut buf = Buffer::new("");
    buf.err = Some(io::Error::new(io::ErrorKind::Other, "read"));
    let mut ctx = context(buf);
    assert_eq!(poll(&mut ctx), ContextCellResult::Stop);
    assert_eq!(actor(&ctx).read_errors, 1);
    assert!(!actor(&ctx).closed);
    assert!(ctx.cell.as_mut().unwrap().closed());
}

#[test]
fn actor_sends_while_it_handles() {
    let mut ctx = context(Buffer::new("aabb"));
    ctx.act.as_mut().unwrap().echo = true;
    assert_eq!(poll(&mut ctx), ContextCellResult::Ready);
    assert_eq!(io_of(&mut ctx).write, b"aabb"[..]);
}

#[test]
fn stopping_waits_for_the_shutdown() {
    let mut ctx = context(Buffer::new(""));
    io_of(&mut ctx).shutdown_block = true;
    assert_eq!(poll_until(&mut ctx, true), ContextCellResult::NotReady);
    io_of(&mut ctx).shutdown_block = false;
    assert_eq!(poll_until(&mut ctx, true), ContextCellResult::Ready);
    assert_eq!(poll_until(&mut ctx, false), ContextCellResult::Ready);
}

#[test]
fn replaced_transport_is_written_to() {
    let mut ctx = context(Buffer::new(""));
    io_of(&mut ctx).write_block = true;
    send(&mut ctx, Bytes::from_static(b"11")).ok().unwrap();
    let mut rx = ctx.drain();
    ctx.replace(Buffer::new("zz").framed(TestCodec));
    assert!(ctx.modified);
    // nobody tells that the old sink is drained
    assert!(rx.poll().is_err());
    send(&mut ctx, Bytes::from_static(b"22")).ok().unwrap();
    assert_eq!(poll(&mut ctx), ContextCellResult::Ready);
    assert_eq!(io_of(&mut ctx).write, b"22"[..]);
    assert_eq!(actor(&ctx).msgs, vec![Bytes::from_static(b"zz")]);
}
