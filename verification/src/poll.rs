//! How a connection and whoever runs it take turns.
//!
//! A connection does no I/O. It is given an [`Event`], moves on, and gives back the [`Action`] that
//! has to be carried out next; what comes of the action is the next event. A turn begins with
//! [`Event::Start`] and ends with [`Action::Return`].
use crate::error::Error;
use crate::proto::{Addr, AddrView, Command};
use vstd::prelude::*;

verus! {

/// What polling an operation gives: its value, or nothing yet.
#[derive(Debug)]
pub enum Poll<T> {
    /// The operation is finished.
    Ready(T),
    /// The operation is not finished; whoever waits for it is woken later.
    Pending,
}

/// What an operation on a stream gives.
pub type IoPoll<T> = Poll<Result<T, std::io::Error>>;

/// What a step of a connection gives.
pub type Progress<T> = Poll<Result<T, Error>>;

/// What happened: the start of a turn, or the outcome of the last action.
///
/// `B` is what a read gives, `R` is a connection to a remote host, and `F` is the pending attempt
/// to open one.
#[derive(Debug)]
pub enum Event<B, R, F> {
    /// A turn starts.
    Start,
    /// The client's stream was read.
    Read(IoPoll<B>),
    /// The client's stream was written; on success, that many bytes were taken.
    Wrote(IoPoll<usize>),
    /// The client's stream was flushed.
    Flushed(IoPoll<()>),
    /// Opening a connection to the remote host has begun.
    Connecting(F),
    /// The attempt to open a connection to the remote host was polled.
    Remote(IoPoll<R>),
    /// Data was passed on from the client to the remote host.
    ToRemote(Progress<()>),
    /// Data was passed on from the remote host to the client.
    ToClient(Progress<()>),
}

/// What has to be done next.
#[derive(Debug)]
pub enum Action<T> {
    /// Read from the client's stream.
    Read,
    /// Write the connection's output to the client's stream.
    Write,
    /// Flush the client's stream.
    Flush,
    /// Begin to open a connection to the remote host at this address.
    Connect(Addr),
    /// Poll the attempt to open the connection.
    PollRemote,
    /// Give the relay from the client to the remote host a turn.
    ToRemote,
    /// Give the relay from the remote host to the client a turn.
    ToClient,
    /// Abort: the request asks for something that is not implemented.
    Unimplemented(Command),
    /// The turn is over, with this outcome.
    Return(Progress<T>),
}

/// The model of an [`Action`].
pub enum ActionView<T> {
    Read,
    Write,
    Flush,
    Connect(AddrView),
    PollRemote,
    ToRemote,
    ToClient,
    Unimplemented(Command),
    Return(Progress<T>),
}

impl<T> View for Action<T> {
    type V = ActionView<T>;

    open spec fn view(&self) -> ActionView<T> {
        match *self {
            Action::Read => ActionView::Read,
            Action::Write => ActionView::Write,
            Action::Flush => ActionView::Flush,
            Action::Connect(addr) => ActionView::Connect(addr@),
            Action::PollRemote => ActionView::PollRemote,
            Action::ToRemote => ActionView::ToRemote,
            Action::ToClient => ActionView::ToClient,
            Action::Unimplemented(command) => ActionView::Unimplemented(command),
            Action::Return(progress) => ActionView::Return(progress),
        }
    }
}

/// What a connection waits for.
#[derive(Clone, Copy, Debug, PartialEq, Eq, Structural)]
pub enum Await {
    /// The start of a turn.
    Start,
    /// The outcome of a read.
    Read,
    /// The outcome of a write.
    Write,
    /// The outcome of a flush.
    Flush,
    /// The attempt to open the connection to the remote host.
    Connect,
    /// The outcome of that attempt.
    Remote,
    /// The outcome of passing data on to the remote host.
    ToRemote,
    /// The outcome of passing data on to the client.
    ToClient,
}

impl Await {
    /// The event is of the kind that is waited for.
    pub open spec fn expects<B, R, F>(self, event: Event<B, R, F>) -> bool {
        match self {
            Await::Start => event is Start,
            Await::Read => event is Read,
            Await::Write => event is Wrote,
            Await::Flush => event is Flushed,
            Await::Connect => event is Connecting,
            Await::Remote => event is Remote,
            Await::ToRemote => event is ToRemote,
            Await::ToClient => event is ToClient,
        }
    }
}

/// What is waited for once the action is given out.
pub open spec fn await_of<T>(action: ActionView<T>) -> Await {
    match action {
        ActionView::Read => Await::Read,
        ActionView::Write => Await::Write,
        ActionView::Flush => Await::Flush,
        ActionView::Connect(_) => Await::Connect,
        ActionView::PollRemote => Await::Remote,
        ActionView::ToRemote => Await::ToRemote,
        ActionView::ToClient => Await::ToClient,
        ActionView::Unimplemented(_) => Await::Start,
        ActionView::Return(_) => Await::Start,
    }
}

} // verus!
