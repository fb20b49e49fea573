//! The server, and the connections of its clients.
//!
//! A connection first selects an authentication method, then takes a request, then opens the remote
//! connection that the request asks for and tells the client so, and from then on passes data on in
//! both directions.
use crate::buffer::{
    bytes_of, can_grow, chunk, clear, filled_of, initialized_of, len, limit_of, to_read_buf,
    with_capacity,
};
use crate::error::Error;
use crate::poll::{await_of, Action, ActionView, Await, Event, IoPoll, Poll, Progress};
use crate::proto::{
    decode_greeting, decode_request, encode_method_select, encode_reply, version_code, Addr,
    AddrView, Command, Decoder, Encoder, Reply, Version,
};
use crate::proxy::Proxy;
use bytes::BytesMut;
use tokio::io::ReadBuf;
use vstd::prelude::*;

verus! {

/// How far a connection has come.
#[derive(Clone, Copy, Debug, PartialEq, Eq, Structural)]
pub enum State {
    /// The client has to offer authentication methods.
    Negotiation,
    /// The client has to send its request.
    SubNegotiation,
    /// The remote connection has to be opened.
    OpenRemote,
    /// Data is passed on.
    Connected,
}

/// The connection of a client over the stream `io`. What is read goes to the spare capacity of
/// `read_buf` or, on its way from the remote host to the client, of `write_buf`. While the relay to
/// the client has its turn, `relayed` is how the one to the remote host went.
pub struct Conn<IO, R, F, C> {
    pub io: IO,
    pub remote: Option<R>,
    pub remote_fut: Option<F>,
    pub connector: C,
    pub state: State,
    pub awaiting: Await,
    pub read_buf: BytesMut,
    pub write_buf: BytesMut,
    pub ver: Option<Version>,
    pub addr: Option<Addr>,
    pub relayed: Option<Progress<()>>,
}

/// The model of a [`Conn`]. `out` is what a write to the client sends.
#[verifier::ext_equal]
pub struct ConnView<R, F> {
    pub state: State,
    pub awaiting: Await,
    pub remote: Option<R>,
    pub remote_fut: Option<F>,
    pub ver: Option<Version>,
    pub addr: Option<AddrView>,
    pub relayed: Option<Progress<()>>,
    pub out: Seq<u8>,
}

/// What happens to a [`Conn`]. A read gives the bytes that were received.
pub type ConnEvent<R, F> = Event<Vec<u8>, R, F>;

/// The model of an optional address.
pub open spec fn addr_view(addr: Option<Addr>) -> Option<AddrView> {
    match addr {
        Some(addr) => Some(addr@),
        None => None,
    }
}

impl<IO, R, F, C> View for Conn<IO, R, F, C> {
    type V = ConnView<R, F>;

    open spec fn view(&self) -> ConnView<R, F> {
        ConnView {
            state: self.state,
            awaiting: self.awaiting,
            remote: self.remote,
            remote_fut: self.remote_fut,
            ver: self.ver,
            addr: addr_view(self.addr),
            relayed: self.relayed,
            out: bytes_of(self.write_buf),
        }
    }
}

impl<R, F> ConnView<R, F> {
    /// A connection that has just been accepted.
    pub open spec fn fresh() -> Self {
        ConnView {
            state: State::Negotiation,
            awaiting: Await::Start,
            remote: None,
            remote_fut: None,
            ver: None,
            addr: None,
            relayed: None,
            out: Seq::empty(),
        }
    }

    /// The request that was taken is on record.
    pub open spec fn has_request(self) -> bool {
        self.ver is Some && self.addr is Some && self.addr->0.wf()
    }

    /// The output is made of messages that select a method, at least `count` of them.
    pub open spec fn has_selections(self, count: nat) -> bool {
        &&& self.out.len() % 2 == 0
        &&& self.out.len() >= 2 * count
        &&& forall|i: int|
            0 <= i < self.out.len() && i % 2 == 0 ==> #[trigger] self.out[i] == version_code(
                Version::V5,
            )
    }

    /// What holds of a connection at all times.
    pub open spec fn inv(self) -> bool {
        &&& self.relayed is Some <==> self.awaiting is ToClient
        &&& match self.state {
            State::Negotiation => {
                &&& self.remote is None && self.remote_fut is None
                &&& self.ver is None && self.addr is None
                &&& self.awaiting is Start || self.awaiting is Read || self.awaiting is Write
                    || self.awaiting is Flush
                &&& self.has_selections(0)
                &&& self.awaiting is Write || self.awaiting is Flush ==> self.has_selections(1)
            },
            State::SubNegotiation => {
                &&& self.remote is None && self.remote_fut is None
                &&& self.ver is None && self.addr is None
                &&& self.awaiting is Start || self.awaiting is Read
                &&& self.has_selections(1)
            },
            State::OpenRemote => {
                &&& self.remote is None
                &&& self.has_request()
                &&& self.has_selections(1)
                &&& self.awaiting is Start || self.awaiting is Connect || self.awaiting is Remote
                &&& self.awaiting is Connect ==> self.remote_fut is None
                &&& self.awaiting is Remote ==> self.remote_fut is Some
            },
            State::Connected => {
                &&& self.remote is Some && self.remote_fut is Some
                &&& self.has_request()
                &&& self.out == encode_reply(self.ver->0, Reply::Succeeded, self.addr->0)
                &&& self.awaiting is Start || self.awaiting is Write || self.awaiting is Flush
                    || self.awaiting is ToRemote || self.awaiting is ToClient
            },
        }
    }

    /// The connection as it gives out an action.
    pub open spec fn act(self, awaiting: Await, action: ActionView<()>) -> (
        Self,
        ActionView<()>,
    ) {
        (ConnView { awaiting, ..self }, action)
    }

    /// The connection as it ends a turn.
    pub open spec fn give(self, progress: Progress<()>) -> (Self, ActionView<()>) {
        self.act(Await::Start, ActionView::Return(progress))
    }

    /// The connection as it ends a turn because an operation is not finished or failed.
    pub open spec fn stop<T>(self, outcome: IoPoll<T>) -> (Self, ActionView<()>) {
        match outcome {
            Poll::Ready(Err(err)) => self.give(Poll::Ready(Err(Error::IoError(err)))),
            _ => self.give(Poll::Pending),
        }
    }

    /// Selecting a method: a greeting is read, the first method that it offers is selected, and the
    /// client is told. The connection moves on when all of that is flushed.
    pub open spec fn negotiation_step(self, event: ConnEvent<R, F>) -> (Self, ActionView<()>) {
        match event {
            Event::Start => self.act(Await::Read, ActionView::Read),
            Event::Read(Poll::Ready(Ok(received))) => if received@.len() == 0 {
                self.give(Poll::Ready(Err(Error::ConnectionClose)))
            } else {
                match decode_greeting(received@) {
                    Ok((version, methods)) => ConnView {
                        out: self.out + encode_method_select(version, methods[0]),
                        ..self
                    }.act(Await::Write, ActionView::Write),
                    Err(err) => self.give(Poll::Ready(Err(err))),
                }
            },
            Event::Wrote(Poll::Ready(Ok(_))) => self.act(Await::Flush, ActionView::Flush),
            Event::Flushed(Poll::Ready(Ok(_))) => ConnView {
                state: State::SubNegotiation,
                ..self
            }.give(Poll::Ready(Ok(()))),
            Event::Read(outcome) => self.stop(outcome),
            Event::Wrote(outcome) => self.stop(outcome),
            Event::Flushed(outcome) => self.stop(outcome),
            _ => self.give(Poll::Pending),
        }
    }

    /// Taking the request: it is read and put on record. Only a request to connect is carried out.
    pub open spec fn subnegotiation_step(self, event: ConnEvent<R, F>) -> (Self, ActionView<()>) {
        match event {
            Event::Start => self.act(Await::Read, ActionView::Read),
            Event::Read(Poll::Ready(Ok(received))) => if received@.len() == 0 {
                self.give(Poll::Ready(Err(Error::ConnectionClose)))
            } else {
                match decode_request(received@) {
                    Ok((version, Command::Connect, addr)) => ConnView {
                        state: State::OpenRemote,
                        ver: Some(version),
                        addr: Some(addr),
                        ..self
                    }.give(Poll::Ready(Ok(()))),
                    Ok((_, command, _)) => self.act(
                        Await::Start,
                        ActionView::Unimplemented(command),
                    ),
                    Err(err) => self.give(Poll::Ready(Err(err))),
                }
            },
            Event::Read(outcome) => self.stop(outcome),
            _ => self.give(Poll::Pending),
        }
    }

    /// Opening the remote connection: one attempt is begun and polled until it is over. Once it has
    /// succeeded the connection counts as connected, and the client is told.
    pub open spec fn remote_step(self, event: ConnEvent<R, F>) -> (Self, ActionView<()>) {
        match event {
            Event::Start => match self.remote_fut {
                None => self.act(Await::Connect, ActionView::Connect(self.addr->0)),
                Some(_) => self.act(Await::Remote, ActionView::PollRemote),
            },
            Event::Connecting(remote_fut) => ConnView {
                remote_fut: Some(remote_fut),
                ..self
            }.act(Await::Remote, ActionView::PollRemote),
            Event::Remote(Poll::Ready(Ok(remote))) => ConnView {
                state: State::Connected,
                remote: Some(remote),
                out: encode_reply(self.ver->0, Reply::Succeeded, self.addr->0),
                ..self
            }.act(Await::Write, ActionView::Write),
            Event::Wrote(Poll::Ready(Ok(_))) => self.act(Await::Flush, ActionView::Flush),
            Event::Flushed(Poll::Ready(Ok(_))) => self.give(Poll::Ready(Ok(()))),
            Event::Remote(outcome) => self.stop(outcome),
            Event::Wrote(outcome) => self.stop(outcome),
            Event::Flushed(outcome) => self.stop(outcome),
            _ => self.give(Poll::Pending),
        }
    }

    /// Passing data on: the relay to the remote host has a turn, then, whatever came of it, the one
    /// to the client, and their outcomes are put together.
    pub open spec fn connected_step(self, event: ConnEvent<R, F>) -> (Self, ActionView<()>) {
        match event {
            Event::Start => self.act(Await::ToRemote, ActionView::ToRemote),
            Event::ToRemote(to_remote) => ConnView { relayed: Some(to_remote), ..self }.act(
                Await::ToClient,
                ActionView::ToClient,
            ),
            Event::ToClient(to_client) => ConnView { relayed: None, ..self }.give(
                both(self.relayed->0, to_client),
            ),
            _ => self.give(Poll::Pending),
        }
    }

    /// The step of the phase that the connection is in.
    pub open spec fn phase_step(self, event: ConnEvent<R, F>) -> (Self, ActionView<()>) {
        match self.state {
            State::Negotiation => self.negotiation_step(event),
            State::SubNegotiation => self.subnegotiation_step(event),
            State::OpenRemote => self.remote_step(event),
            State::Connected => match event {
                Event::Wrote(_) | Event::Flushed(_) => self.remote_step(event),
                _ => self.connected_step(event),
            },
        }
    }

    /// A step of the connection: a phase that succeeds is followed at once by the next.
    pub open spec fn step(self, event: ConnEvent<R, F>) -> (Self, ActionView<()>) {
        let (after, action) = self.phase_step(event);
        if action == ActionView::Return(Poll::Ready(Ok::<(), Error>(()))) {
            after.phase_step(Event::Start)
        } else {
            (after, action)
        }
    }
}

/// The outcome of two directions together: an error of the first, else an error of the second, else
/// pending if either is.
pub open spec fn both(first: Progress<()>, second: Progress<()>) -> Progress<()> {
    match (first, second) {
        (Poll::Ready(Err(err)), _) => Poll::Ready(Err(err)),
        (_, Poll::Ready(Err(err))) => Poll::Ready(Err(err)),
        (Poll::Pending, _) | (_, Poll::Pending) => Poll::Pending,
        _ => Poll::Ready(Ok(())),
    }
}

impl<IO, R, F, C> Conn<IO, R, F, C> {
    /// The connection of a client that has just been accepted.
    pub fn new(io: IO, connector: C) -> (conn: Self)
        ensures
            conn@ == ConnView::<R, F>::fresh(),
            conn.wf(),
            conn.io == io,
            conn.connector == connector,
    {
        Conn {
            io,
            remote: None,
            remote_fut: None,
            connector,
            state: State::Negotiation,
            awaiting: Await::Start,
            read_buf: with_capacity(8192),
            write_buf: with_capacity(8192),
            ver: None,
            addr: None,
            relayed: None,
        }
    }

    /// What holds of a connection at all times: that of its model, and that the read buffer holds no
    /// bytes, since reads only use its spare capacity.
    pub open spec fn wf(&self) -> bool {
        &&& self@.inv()
        &&& bytes_of(self.read_buf) == Seq::<u8>::empty()
    }

    /// What no step touches.
    pub open spec fn same_ends(&self, other: &Self) -> bool {
        &&& self.io == other.io
        &&& self.connector == other.connector
        &&& self.read_buf == other.read_buf
    }

    /// The output can grow by a message that selects a method.
    pub fn has_room(&self) -> (room: bool)
        ensures
            room == can_grow(self@.out.len(), 2),
            room <==> bytes_of(self.write_buf).len() + 2 <= isize::MAX / 4,
    {
        let held: usize = len(&self.write_buf);
        let limit: usize = isize::MAX as usize / 4;
        held <= limit && limit - held >= 2
    }

    /// Ends a turn because an operation is not finished or failed.
    fn stop<T>(&mut self, outcome: IoPoll<T>) -> (action: Action<()>)
        ensures
            (final(self)@, action@) == old(self)@.stop(outcome),
            final(self).same_ends(old(self)),
    {
        self.awaiting = Await::Start;
        match outcome {
            Poll::Ready(Err(err)) => Action::Return(Poll::Ready(Err(Error::IoError(err)))),
            _ => Action::Return(Poll::Pending),
        }
    }

    /// Selects a method.
    pub fn poll_negotiation(&mut self, event: ConnEvent<R, F>) -> (action: Action<()>)
        requires
            old(self).wf(),
            old(self)@.state is Negotiation,
            old(self)@.awaiting.expects(event),
            can_grow(old(self)@.out.len(), 2),
        ensures
            (final(self)@, action@) == old(self)@.negotiation_step(event),
            final(self).wf(),
            final(self).same_ends(old(self)),
    {
        match event {
            Event::Start => {
                self.awaiting = Await::Read;
                Action::Read
            },
            Event::Read(Poll::Ready(Ok(received))) => {
                self.awaiting = Await::Start;
                if received.len() == 0 {
                    return Action::Return(Poll::Ready(Err(Error::ConnectionClose)));
                }
                match Decoder::parse_connecting(&received) {
                    Ok((version, methods)) => {
                        let method = &methods[0];
                        Encoder::encode_method_select_msg(version, method, &mut self.write_buf);
                        self.awaiting = Await::Write;
                        Action::Write
                    },
                    Err(err) => Action::Return(Poll::Ready(Err(err))),
                }
            },
            Event::Wrote(Poll::Ready(Ok(_))) => {
                self.awaiting = Await::Flush;
                Action::Flush
            },
            Event::Flushed(Poll::Ready(Ok(_))) => {
                self.awaiting = Await::Start;
                self.state = State::SubNegotiation;
                Action::Return(Poll::Ready(Ok(())))
            },
            Event::Read(outcome) => self.stop(outcome),
            Event::Wrote(outcome) => self.stop(outcome),
            Event::Flushed(outcome) => self.stop(outcome),
            _ => self.stop(Poll::<Result<(), std::io::Error>>::Pending),
        }
    }

    /// Takes the request.
    pub fn poll_subnegotiation(&mut self, event: ConnEvent<R, F>) -> (action: Action<()>)
        requires
            old(self).wf(),
            old(self)@.state is SubNegotiation,
            old(self)@.awaiting.expects(event),
        ensures
            (final(self)@, action@) == old(self)@.subnegotiation_step(event),
            final(self).wf(),
            final(self).same_ends(old(self)),
    {
        match event {
            Event::Start => {
                self.awaiting = Await::Read;
                Action::Read
            },
            Event::Read(Poll::Ready(Ok(received))) => {
                self.awaiting = Await::Start;
                if received.len() == 0 {
                    return Action::Return(Poll::Ready(Err(Error::ConnectionClose)));
                }
                match Decoder::parse_nego_req(&received) {
                    Ok((version, command, addr)) => match command {
                        Command::Connect => {
                            self.state = State::OpenRemote;
                            self.ver = Some(version);
                            self.addr = Some(addr);
                            Action::Return(Poll::Ready(Ok(())))
                        },
                        Command::Bind => Action::Unimplemented(command),
                        Command::UdpAssociate => Action::Unimplemented(command),
                    },
                    Err(err) => Action::Return(Poll::Ready(Err(err))),
                }
            },
            Event::Read(outcome) => self.stop(outcome),
            _ => self.stop(Poll::<Result<(), std::io::Error>>::Pending),
        }
    }

    /// Opens the remote connection.
    pub fn poll_remote(&mut self, event: ConnEvent<R, F>) -> (action: Action<()>)
        requires
            old(self).wf(),
            old(self)@.state is OpenRemote || (old(self)@.state is Connected && (event is Wrote
                || event is Flushed)),
            old(self)@.awaiting.expects(event),
        ensures
            (final(self)@, action@) == old(self)@.remote_step(event),
            final(self).wf(),
            final(self).same_ends(old(self)),
    {
        match event {
            Event::Start => {
                if self.remote_fut.is_none() {
                    self.awaiting = Await::Connect;
                    Action::Connect(self.addr.as_ref().unwrap().clone())
                } else {
                    self.awaiting = Await::Remote;
                    Action::PollRemote
                }
            },
            Event::Connecting(remote_fut) => {
                self.remote_fut = Some(remote_fut);
                self.awaiting = Await::Remote;
                Action::PollRemote
            },
            Event::Remote(Poll::Ready(Ok(remote))) => {
                let version = self.ver.as_ref().unwrap();
                let addr = self.addr.as_ref().unwrap();
                self.remote = Some(remote);
                self.state = State::Connected;
                clear(&mut self.write_buf);
                Encoder::encode_server_reply(version, &Reply::Succeeded, addr, &mut self.write_buf);
                self.awaiting = Await::Write;
                Action::Write
            },
            Event::Wrote(Poll::Ready(Ok(_))) => {
                self.awaiting = Await::Flush;
                Action::Flush
            },
            Event::Flushed(Poll::Ready(Ok(_))) => {
                self.awaiting = Await::Start;
                Action::Return(Poll::Ready(Ok(())))
            },
            Event::Remote(outcome) => self.stop(outcome),
            Event::Wrote(outcome) => self.stop(outcome),
            Event::Flushed(outcome) => self.stop(outcome),
            _ => self.stop(Poll::<Result<(), std::io::Error>>::Pending),
        }
    }

    /// Passes data on.
    pub fn poll_connected(&mut self, event: ConnEvent<R, F>) -> (action: Action<()>)
        requires
            old(self)@.state is Connected,
            old(self)@.remote is Some,
            event is Start || event is ToRemote || event is ToClient,
            old(self)@.awaiting.expects(event),
            event is ToClient ==> old(self)@.relayed is Some,
        ensures
            (final(self)@, action@) == old(self)@.connected_step(event),
            old(self).wf() ==> final(self).wf(),
            final(self).same_ends(old(self)),
    {
        match event {
            Event::Start => {
                self.awaiting = Await::ToRemote;
                Action::ToRemote
            },
            Event::ToRemote(to_remote) => {
                self.relayed = Some(to_remote);
                self.awaiting = Await::ToClient;
                Action::ToClient
            },
            Event::ToClient(to_client) => {
                self.awaiting = Await::Start;
                let to_remote = self.relayed.take().unwrap();
                match (to_remote, to_client) {
                    (Poll::Ready(Err(err)), _) => Action::Return(Poll::Ready(Err(err))),
                    (_, Poll::Ready(Err(err))) => Action::Return(Poll::Ready(Err(err))),
                    (Poll::Pending, _) => Action::Return(Poll::Pending),
                    (_, Poll::Pending) => Action::Return(Poll::Pending),
                    _ => Action::Return(Poll::Ready(Ok(()))),
                }
            },
            _ => self.stop(Poll::<Result<(), std::io::Error>>::Pending),
        }
    }

    /// The ends of a read from the client: its stream, and a fresh read buffer.
    pub fn reader<'a>(&'a mut self) -> (ends: (&'a mut IO, ReadBuf<'a>))
        requires
            can_grow(bytes_of(old(self).read_buf).len(), 64),
        ensures
            *ends.0 == old(self).io,
            filled_of(ends.1) == Seq::<u8>::empty(),
            initialized_of(ends.1) == Seq::<u8>::empty(),
            limit_of(ends.1) > 0,
            final(self).io == *final(ends.0),
            final(self)@ == old(self)@,
            final(self).connector == old(self).connector,
            bytes_of(final(self).read_buf) == bytes_of(old(self).read_buf),
    {
        (&mut self.io, to_read_buf(&mut self.read_buf))
    }

    /// The ends of a write to the client: its stream, and the output.
    pub fn writer<'a>(&'a mut self) -> (ends: (&'a mut IO, &'a [u8]))
        ensures
            *ends.0 == old(self).io,
            ends.1@ == old(self)@.out,
            final(self).io == *final(ends.0),
            final(self)@ == old(self)@,
            final(self).connector == old(self).connector,
            final(self).read_buf == old(self).read_buf,
    {
        (&mut self.io, chunk(&self.write_buf))
    }

    /// A turn of the relay to the remote host: from the client's stream to the remote connection, by
    /// way of a fresh read buffer over `read_buf`.
    pub fn to_remote<'a>(&'a mut self) -> (turn: (Proxy<'a, IO, R>, ReadBuf<'a>))
        requires
            old(self)@.remote is Some,
            can_grow(bytes_of(old(self).read_buf).len(), 64),
        ensures
            *turn.0.src == old(self).io,
            *turn.0.dst == old(self)@.remote->0,
            filled_of(turn.1) == Seq::<u8>::empty(),
            initialized_of(turn.1) == Seq::<u8>::empty(),
            limit_of(turn.1) > 0,
            final(self).io == *final(turn.0.src),
            final(self)@ == (ConnView { remote: Some(*final(turn.0.dst)), ..old(self)@ }),
            final(self).connector == old(self).connector,
            bytes_of(final(self).read_buf) == bytes_of(old(self).read_buf),
    {
        let buf = to_read_buf(&mut self.read_buf);
        (Proxy::new(&mut self.io, self.remote.as_mut().unwrap()), buf)
    }

    /// A turn of the relay to the client: from the remote connection to the client's stream, by way
    /// of a fresh read buffer over `write_buf`.
    pub fn to_client<'a>(&'a mut self) -> (turn: (Proxy<'a, R, IO>, ReadBuf<'a>))
        requires
            old(self)@.remote is Some,
            can_grow(old(self)@.out.len(), 64),
        ensures
            *turn.0.src == old(self)@.remote->0,
            *turn.0.dst == old(self).io,
            filled_of(turn.1) == Seq::<u8>::empty(),
            initialized_of(turn.1) == Seq::<u8>::empty(),
            limit_of(turn.1) > 0,
            final(self).io == *final(turn.0.dst),
            final(self)@ == (ConnView { remote: Some(*final(turn.0.src)), ..old(self)@ }),
            final(self).connector == old(self).connector,
            final(self).read_buf == old(self).read_buf,
    {
        let buf = to_read_buf(&mut self.write_buf);
        (Proxy::new(self.remote.as_mut().unwrap(), &mut self.io), buf)
    }

    /// Hands an event to the phase that the connection is in.
    fn poll_phase(&mut self, event: ConnEvent<R, F>) -> (action: Action<()>)
        requires
            old(self).wf(),
            old(self)@.awaiting.expects(event),
            old(self)@.state is Negotiation ==> can_grow(old(self)@.out.len(), 2),
        ensures
            (final(self)@, action@) == old(self)@.phase_step(event),
            final(self).wf(),
            final(self).same_ends(old(self)),
    {
        match self.state {
            State::Negotiation => self.poll_negotiation(event),
            State::SubNegotiation => self.poll_subnegotiation(event),
            State::OpenRemote => self.poll_remote(event),
            State::Connected => match event {
                Event::Wrote(_) | Event::Flushed(_) => self.poll_remote(event),
                _ => self.poll_connected(event),
            },
        }
    }

    /// Takes the event that the connection waits for, and gives the next action.
    pub fn poll_inner(&mut self, event: ConnEvent<R, F>) -> (action: Action<()>)
        requires
            old(self).wf(),
            old(self)@.awaiting.expects(event),
            old(self)@.state is Negotiation ==> can_grow(old(self)@.out.len(), 2),
        ensures
            (final(self)@, action@) == old(self)@.step(event),
            final(self).wf(),
            final(self).same_ends(old(self)),
    {
        let action = self.poll_phase(event);
        match action {
            Action::Return(Poll::Ready(Ok(()))) => self.poll_phase(Event::Start),
            action => action,
        }
    }
}

/// The connection of a client as a task of its own.
pub struct Connection<IO, R, F, C> {
    pub conn: Conn<IO, R, F, C>,
}

impl<IO, R, F, C> Connection<IO, R, F, C> {
    /// The task that serves `conn`.
    pub fn new(conn: Conn<IO, R, F, C>) -> (connection: Self)
        ensures
            connection.conn == conn,
    {
        Self { conn }
    }

    /// Takes the event that the connection waits for, and gives the next action.
    pub fn poll(&mut self, event: ConnEvent<R, F>) -> (action: Action<()>)
        requires
            old(self).conn.wf(),
            old(self).conn@.awaiting.expects(event),
            old(self).conn@.state is Negotiation ==> can_grow(old(self).conn@.out.len(), 2),
        ensures
            (final(self).conn@, action@) == old(self).conn@.step(event),
            final(self).conn.wf(),
            final(self).conn.same_ends(&old(self).conn),
    {
        self.conn.poll_inner(event)
    }
}

/// The port that a server listens on if none is given.
pub const DEFAULT_PORT: u16 = 1080;

/// The host and the port that a server listens on: all interfaces, and the given port or else
/// [`DEFAULT_PORT`].
pub fn socket_addr(port: Option<u16>) -> (addr: (&'static str, u16))
    ensures
        addr.0@ == "0.0.0.0"@,
        addr.1 == match port {
            Some(port) => port,
            None => DEFAULT_PORT,
        },
        port is None ==> addr.1 == 1080,
{
    ("0.0.0.0", port.unwrap_or(DEFAULT_PORT))
}

/// A server that takes clients from `listener` and opens remote connections with `connector`.
pub struct Server<L, C> {
    pub listener: L,
    pub connector: C,
}

/// What a server does next.
pub enum Accept<IO, R, F, C> {
    /// Serve the client in a task of its own, and wait for the next one.
    Serve(Connection<IO, R, F, C>),
    /// Stop, with this outcome.
    Finish(Result<(), Error>),
}

impl<L, C> Server<L, C> {
    /// A server on a listener that is bound already.
    pub fn new(listener: L, connector: C) -> (server: Self)
        ensures
            server.listener == listener,
            server.connector == connector,
    {
        Self { listener, connector }
    }
}

impl<L, C: Clone> Server<L, C> {
    /// Takes what came of waiting for a client. Each client gets a fresh connection with a connector
    /// of its own. The server stops, without an error, when no more clients can be accepted.
    pub fn accepted<IO, R, F>(&self, accepted: Result<IO, std::io::Error>) -> (accept: Accept<
        IO,
        R,
        F,
        C,
    >)
        ensures
            match accepted {
                Ok(io) => {
                    &&& accept matches Accept::Serve(connection)
                    &&& connection.conn@ == ConnView::<R, F>::fresh()
                    &&& connection.conn.wf()
                    &&& connection.conn.io == io
                    &&& cloned(self.connector, connection.conn.connector)
                },
                Err(_) => accept == Accept::<IO, R, F, C>::Finish(Ok(())),
            },
    {
        match accepted {
            Ok(io) => Accept::Serve(Connection::new(Conn::new(io, self.connector.clone()))),
            Err(_) => Accept::Finish(Ok(())),
        }
    }
}

/// The number of phases that a connection has behind it.
pub open spec fn stage(state: State) -> int {
    match state {
        State::Negotiation => 0,
        State::SubNegotiation => 1,
        State::OpenRemote => 2,
        State::Connected => 3,
    }
}

impl<R, F> ConnView<R, F> {
    /// What holds of a connection at all times is kept by every step, and the connection then waits
    /// for the outcome of the action that the step gave out.
    pub proof fn lemma_step_keeps_inv(self, event: ConnEvent<R, F>)
        requires
            self.inv(),
            self.awaiting.expects(event),
        ensures
            self.step(event).0.inv(),
            self.step(event).0.awaiting == await_of(self.step(event).1),
    {
    }

    /// A connection goes through its phases in order: no step goes back or leaves a phase out. Once
    /// data is passed on, a step changes nothing but what is waited for and what the relays report.
    pub proof fn lemma_step_forward(self, event: ConnEvent<R, F>)
        requires
            self.inv(),
            self.awaiting.expects(event),
        ensures
            stage(self.state) <= stage(self.step(event).0.state) <= stage(self.state) + 1,
            self.state is Connected ==> self.step(event).0 == (ConnView {
                awaiting: self.step(event).0.awaiting,
                relayed: self.step(event).0.relayed,
                ..self
            }),
    {
    }

    /// No turn of a connection ends in success: a connection is pending until it fails.
    pub proof fn lemma_never_done(self, event: ConnEvent<R, F>)
        requires
            self.inv(),
            self.awaiting.expects(event),
        ensures
            self.step(event).1 != ActionView::Return(Poll::Ready(Ok::<(), Error>(()))),
    {
    }

    /// An operation on a stream that fails ends the turn with its error, and one that is not
    /// finished ends the turn as pending. Either way the connection stays in its phase and keeps its
    /// output. The next turn then reads again if a message is due, polls the attempt to open the
    /// remote connection if there is one, and passes data on once connected: a reply that was not
    /// taken or not flushed is not tried again.
    pub proof fn lemma_unfinished_operation(self, event: ConnEvent<R, F>)
        requires
            self.inv(),
            self.awaiting.expects(event),
        ensures
            ({
                let stopped = ConnView { awaiting: Await::Start, ..self };
                let failed = |err: std::io::Error|
                    (stopped, ActionView::Return(Poll::Ready(Err::<(), _>(Error::IoError(err)))));
                let pending = (stopped, ActionView::Return(Poll::<Result<(), Error>>::Pending));
                match event {
                    Event::Read(Poll::Pending)
                    | Event::Wrote(Poll::Pending)
                    | Event::Flushed(Poll::Pending)
                    | Event::Remote(Poll::Pending) => self.step(event) == pending,
                    Event::Read(Poll::Ready(Err(err)))
                    | Event::Wrote(Poll::Ready(Err(err)))
                    | Event::Flushed(Poll::Ready(Err(err)))
                    | Event::Remote(Poll::Ready(Err(err))) => self.step(event) == failed(err),
                    _ => true,
                }
            }),
            ({
                let next = (ConnView { awaiting: Await::Start, ..self }).step(Event::Start).1;
                match self.state {
                    State::Negotiation | State::SubNegotiation => next is Read,
                    State::OpenRemote => match self.remote_fut {
                        None => next == ActionView::<()>::Connect(self.addr->0),
                        Some(_) => next is PollRemote,
                    },
                    State::Connected => next is ToRemote,
                }
            }),
    {
    }

    /// A client that sends nothing, or a message that cannot be read, is refused: the turn ends with
    /// the reason, the connection stays in its phase, and nothing is added to its output.
    pub proof fn lemma_refused(self, received: Vec<u8>)
        requires
            self.inv(),
            self.awaiting is Read,
        ensures
            ({
                let refused = |err: Error|
                    (
                        ConnView { awaiting: Await::Start, ..self },
                        ActionView::Return(Poll::Ready(Err::<(), _>(err))),
                    );
                let answer = self.step(Event::Read(Poll::Ready(Ok(received))));
                &&& received@.len() == 0 ==> answer == refused(Error::ConnectionClose)
                &&& received@.len() > 0 && self.state is Negotiation
                    && decode_greeting(received@) is Err ==> answer == refused(
                    decode_greeting(received@)->Err_0,
                )
                &&& received@.len() > 0 && self.state is SubNegotiation
                    && decode_request(received@) is Err ==> answer == refused(
                    decode_request(received@)->Err_0,
                )
            }),
    {
    }

    /// A client that offers methods and asks for a connection gets it, whatever the messages hold
    /// besides: the first method offered is selected, a connection to the address of the request is
    /// opened, the client is told that the request was granted, with that address, and from then on
    /// data is passed on to and from that connection.
    pub proof fn lemma_handshake(
        greeting: Vec<u8>,
        request: Vec<u8>,
        remote_fut: F,
        remote: R,
        taken: (usize, usize),
    )
        requires
            decode_greeting(greeting@) is Ok,
            decode_request(request@) is Ok,
            decode_request(request@)->Ok_0.1 is Connect,
        ensures
            ({
                let (_, methods) = decode_greeting(greeting@)->Ok_0;
                let (version, _, addr) = decode_request(request@)->Ok_0;
                let (s1, a1) = Self::fresh().step(Event::Start);
                let (s2, a2) = s1.step(Event::Read(Poll::Ready(Ok(greeting))));
                let (s3, a3) = s2.step(Event::Wrote(Poll::Ready(Ok(taken.0))));
                let (s4, a4) = s3.step(Event::Flushed(Poll::Ready(Ok(()))));
                let (s5, a5) = s4.step(Event::Read(Poll::Ready(Ok(request))));
                let (s6, a6) = s5.step(Event::Connecting(remote_fut));
                let (s7, a7) = s6.step(Event::Remote(Poll::Ready(Ok(remote))));
                let (s8, a8) = s7.step(Event::Wrote(Poll::Ready(Ok(taken.1))));
                let (s9, a9) = s8.step(Event::Flushed(Poll::Ready(Ok(()))));
                &&& a1 is Read
                &&& a2 is Write && s2.out == seq![5u8, methods[0].0]
                &&& a3 is Flush
                &&& a4 is Read && s4.state is SubNegotiation
                &&& a5 == ActionView::<()>::Connect(addr)
                &&& a6 is PollRemote && s6.remote_fut == Some(remote_fut)
                &&& a7 is Write && s7.out == encode_reply(version, Reply::Succeeded, addr)
                &&& a8 is Flush
                &&& a9 is ToRemote && s9.state is Connected && s9.remote == Some(remote)
            }),
    {
        let (version, methods) = decode_greeting(greeting@)->Ok_0;
        assert(Seq::<u8>::empty() + encode_method_select(version, methods[0]) =~= seq![
            5u8,
            methods[0].0,
        ]);
    }

    /// The connection after a series of events.
    pub open spec fn run(self, events: Seq<ConnEvent<R, F>>) -> Self
        decreases events.len(),
    {
        if events.len() == 0 {
            self
        } else {
            self.run(events.drop_last()).step(events.last()).0
        }
    }

    /// Each of the events is of the kind that the connection waits for when it comes.
    pub open spec fn takes(self, events: Seq<ConnEvent<R, F>>) -> bool
        decreases events.len(),
    {
        events.len() > 0 ==> {
            &&& self.takes(events.drop_last())
            &&& self.run(events.drop_last()).awaiting.expects(events.last())
        }
    }

    /// How often a series of events makes the connection begin to open a remote connection.
    pub open spec fn connects(self, events: Seq<ConnEvent<R, F>>) -> nat
        decreases events.len(),
    {
        if events.len() == 0 {
            0
        } else {
            let before = self.run(events.drop_last());
            self.connects(events.drop_last()) + if before.step(events.last()).1 is Connect {
                1nat
            } else {
                0nat
            }
        }
    }

    /// Whatever happens to a connection, what holds of it at all times holds after it, and no more
    /// than one remote connection is ever begun.
    pub proof fn lemma_run(events: Seq<ConnEvent<R, F>>)
        requires
            Self::fresh().takes(events),
        ensures
            Self::fresh().run(events).inv(),
            Self::fresh().connects(events) <= 1,
            Self::fresh().connects(events) == 1 <==> Self::fresh().run(events).remote_fut is Some
                || Self::fresh().run(events).awaiting is Connect,
        decreases events.len(),
    {
        if events.len() > 0 {
            Self::lemma_run(events.drop_last());
            Self::fresh().run(events.drop_last()).lemma_step_keeps_inv(events.last());
        }
    }

    /// The client is offered nothing but selections of methods until the remote connection is
    /// there, and nothing but the reply to its request, with the outcome of success, after that.
    pub proof fn lemma_output(events: Seq<ConnEvent<R, F>>)
        requires
            Self::fresh().takes(events),
        ensures
            ({
                let after = Self::fresh().run(events);
                &&& after.remote is None ==> after.has_selections(0)
                &&& after.remote is Some ==> after.has_request() && after.out == encode_reply(
                    after.ver->0,
                    Reply::Succeeded,
                    after.addr->0,
                )
                &&& after.remote is Some <==> after.state is Connected
            }),
    {
        Self::lemma_run(events);
    }

    /// The relay to the remote host comes first, and the relay to the client has its turn after it
    /// whatever came of the first. If both succeed they have another go at once; otherwise the turn
    /// ends with their outcomes put together, and both have another go in the next.
    pub proof fn lemma_relay(self, to_remote: Progress<()>, to_client: Progress<()>)
        requires
            self.inv(),
            self.state is Connected,
            self.awaiting is Start,
        ensures
            ({
                let (s1, a1) = self.step(Event::Start);
                let (s2, a2) = s1.step(Event::ToRemote(to_remote));
                let (s3, a3) = s2.step(Event::ToClient(to_client));
                &&& a1 is ToRemote
                &&& a2 is ToClient
                &&& both(to_remote, to_client) == Poll::Ready(Ok::<(), Error>(())) ==> (s3, a3) == (
                s1, a1)
                &&& both(to_remote, to_client) != Poll::Ready(Ok::<(), Error>(())) ==> s3 == self
                    && a3 == ActionView::Return(both(to_remote, to_client))
            }),
    {
    }

    /// The output of a connection that passes data on is short enough for a read buffer to be put
    /// behind it.
    pub proof fn lemma_relay_room(self)
        requires
            self.inv(),
            self.state is Connected,
        ensures
            self.out.len() <= 262,
            can_grow(self.out.len(), 64),
    {
    }
}

} // verus!
