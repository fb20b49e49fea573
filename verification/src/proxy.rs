//! Passing data on from one stream to another.
use crate::buffer::{filled_of, initialized_of, limit_of, read_clear, read_filled};
use crate::error::Error;
use crate::poll::{IoPoll, Poll, Progress};
use tokio::io::ReadBuf;
use vstd::prelude::*;

verus! {

/// One direction of a relay: what is read from `src` is written to `dst`.
pub struct Proxy<'a, I, O> {
    pub src: &'a mut I,
    pub dst: &'a mut O,
}

/// What happened: the start of a turn, or the outcome of the last action.
#[derive(Debug)]
pub enum ProxyEvent {
    /// A turn starts.
    Start,
    /// The source was read into the buffer.
    Read(IoPoll<()>),
    /// The filled part of the buffer was written to the destination.
    Wrote(IoPoll<usize>),
    /// The destination was flushed.
    Flushed(IoPoll<()>),
}

/// What has to be done next.
#[derive(Debug)]
pub enum ProxyAction {
    /// Read from the source into the buffer.
    Read,
    /// Write the filled part of the buffer to the destination.
    Write,
    /// Flush the destination.
    Flush,
    /// The turn is over, with this outcome.
    Return(Progress<()>),
}

/// What an event leads to, with `filled` in the buffer: what is in the buffer then, and what to do
/// next. A buffer that already holds data is not read into. An operation that is not finished, or
/// that fails, ends the turn. Only a turn that gets to the end empties the buffer.
pub open spec fn proxy_step(filled: Seq<u8>, event: ProxyEvent) -> (Seq<u8>, ProxyAction) {
    match event {
        ProxyEvent::Start => if filled.len() == 0 {
            (filled, ProxyAction::Read)
        } else {
            (filled, ProxyAction::Write)
        },
        ProxyEvent::Read(Poll::Ready(Ok(_))) => (filled, ProxyAction::Write),
        ProxyEvent::Wrote(Poll::Ready(Ok(_))) => (filled, ProxyAction::Flush),
        ProxyEvent::Flushed(Poll::Ready(Ok(_))) => (
            Seq::empty(),
            ProxyAction::Return(Poll::Ready(Ok(()))),
        ),
        ProxyEvent::Read(Poll::Pending)
        | ProxyEvent::Wrote(Poll::Pending)
        | ProxyEvent::Flushed(Poll::Pending) => (filled, ProxyAction::Return(Poll::Pending)),
        ProxyEvent::Read(Poll::Ready(Err(err)))
        | ProxyEvent::Wrote(Poll::Ready(Err(err)))
        | ProxyEvent::Flushed(Poll::Ready(Err(err))) => (
            filled,
            ProxyAction::Return(Poll::Ready(Err(Error::IoError(err)))),
        ),
    }
}

impl<'a, I, O> Proxy<'a, I, O> {
    /// A relay from `src` to `dst`.
    pub fn new(src: &'a mut I, dst: &'a mut O) -> (proxy: Self)
        ensures
            *proxy.src == *old(src),
            *proxy.dst == *old(dst),
            *final(proxy.src) == *final(src),
            *final(proxy.dst) == *final(dst),
    {
        Self { src, dst }
    }

    /// Takes an event of a turn that uses `buf`, and gives the next action of that turn.
    pub fn poll_proxy(&mut self, buf: &mut ReadBuf<'_>, event: ProxyEvent) -> (action: ProxyAction)
        ensures
            (filled_of(*final(buf)), action) == proxy_step(filled_of(*old(buf)), event),
            initialized_of(*final(buf)) == initialized_of(*old(buf)),
            limit_of(*final(buf)) == limit_of(*old(buf)),
            *final(self) == *old(self),
    {
        match event {
            ProxyEvent::Start => {
                if read_filled(buf).len() == 0 {
                    ProxyAction::Read
                } else {
                    ProxyAction::Write
                }
            },
            ProxyEvent::Read(Poll::Ready(Ok(_))) => ProxyAction::Write,
            ProxyEvent::Wrote(Poll::Ready(Ok(_))) => ProxyAction::Flush,
            ProxyEvent::Flushed(Poll::Ready(Ok(_))) => {
                read_clear(buf);
                ProxyAction::Return(Poll::Ready(Ok(())))
            },
            ProxyEvent::Read(Poll::Pending)
            | ProxyEvent::Wrote(Poll::Pending)
            | ProxyEvent::Flushed(Poll::Pending) => ProxyAction::Return(Poll::Pending),
            ProxyEvent::Read(Poll::Ready(Err(err)))
            | ProxyEvent::Wrote(Poll::Ready(Err(err)))
            | ProxyEvent::Flushed(Poll::Ready(Err(err))) => ProxyAction::Return(
                Poll::Ready(Err(Error::IoError(err))),
            ),
        }
    }
}

/// What the streams answer in one turn: the outcome of each operation, should it be asked for, and
/// what the buffer holds after the read.
pub struct ProxyTurn {
    pub read: IoPoll<()>,
    pub received: Seq<u8>,
    pub wrote: IoPoll<usize>,
    pub flushed: IoPoll<()>,
}

/// How many more actions a turn can take after the event.
pub open spec fn proxy_stage(event: ProxyEvent) -> nat {
    match event {
        ProxyEvent::Start => 3,
        ProxyEvent::Read(_) => 2,
        ProxyEvent::Wrote(_) => 1,
        ProxyEvent::Flushed(_) => 0,
    }
}

/// The rest of a turn from `event` on, each action being answered as `turn` says: what the buffer
/// holds in the end, and the outcome.
pub open spec fn proxy_run(filled: Seq<u8>, event: ProxyEvent, turn: ProxyTurn) -> (
    Seq<u8>,
    Progress<()>,
)
    decreases proxy_stage(event),
{
    let (after, action) = proxy_step(filled, event);
    match action {
        ProxyAction::Read => proxy_run(turn.received, ProxyEvent::Read(turn.read), turn),
        ProxyAction::Write => proxy_run(after, ProxyEvent::Wrote(turn.wrote), turn),
        ProxyAction::Flush => proxy_run(after, ProxyEvent::Flushed(turn.flushed), turn),
        ProxyAction::Return(progress) => (after, progress),
    }
}

/// The first operation of a turn that is not finished or fails decides the outcome.
pub open spec fn proxy_outcome(filled: Seq<u8>, turn: ProxyTurn) -> Progress<()> {
    match (turn.read, turn.wrote, turn.flushed) {
        (Poll::Pending, _, _) if filled.len() == 0 => Poll::Pending,
        (Poll::Ready(Err(err)), _, _) if filled.len() == 0 => Poll::Ready(Err(Error::IoError(err))),
        (_, Poll::Pending, _) => Poll::Pending,
        (_, Poll::Ready(Err(err)), _) => Poll::Ready(Err(Error::IoError(err))),
        (_, _, Poll::Pending) => Poll::Pending,
        (_, _, Poll::Ready(Err(err))) => Poll::Ready(Err(Error::IoError(err))),
        _ => Poll::Ready(Ok(())),
    }
}

/// What the destination is offered in the rest of a turn from `event` on, if anything.
pub open spec fn proxy_offer(filled: Seq<u8>, event: ProxyEvent, turn: ProxyTurn) -> Option<Seq<u8>>
    decreases proxy_stage(event),
{
    let (after, action) = proxy_step(filled, event);
    match action {
        ProxyAction::Read => proxy_offer(turn.received, ProxyEvent::Read(turn.read), turn),
        ProxyAction::Write => Some(after),
        _ => None,
    }
}

/// A turn reads if the buffer is empty, then writes, then flushes, and succeeds if all of these do;
/// the first that does not decides the outcome. A turn that succeeds leaves the buffer empty,
/// however much of it the destination took. Any other leaves in it what it held or, if it was empty,
/// what the read left there.
pub proof fn lemma_proxy_turn(filled: Seq<u8>, turn: ProxyTurn)
    ensures
        ({
            let (after, progress) = proxy_run(filled, ProxyEvent::Start, turn);
            &&& progress == proxy_outcome(filled, turn)
            &&& progress == Poll::Ready(Ok::<(), Error>(())) ==> after.len() == 0
            &&& progress != Poll::Ready(Ok::<(), Error>(())) ==> after == (if filled.len() == 0 {
                turn.received
            } else {
                filled
            })
        }),
{
    reveal_with_fuel(proxy_run, 4);
}

/// The destination is offered what the buffer held or, if it was empty, what was read from the
/// source, byte for byte; it is offered nothing if that read is not finished or fails.
pub proof fn lemma_proxy_offer(filled: Seq<u8>, turn: ProxyTurn)
    ensures
        proxy_offer(filled, ProxyEvent::Start, turn) == (if filled.len() > 0 {
            Some(filled)
        } else {
            match turn.read {
                Poll::Ready(Ok(_)) => Some(turn.received),
                _ => None,
            }
        }),
{
    reveal_with_fuel(proxy_offer, 3);
}

} // verus!
