//! The opening of a client's connection as an operation of its own, which ends with the remote
//! connection that the client asked for.
use crate::buffer::{bytes_of, chunk, clear, with_capacity};
use crate::error::Error;
use crate::poll::{await_of, Action, ActionView, Await, Event, IoPoll, Poll, Progress};
use crate::proto::{
    decode_greeting, decode_request, encode_method_select, encode_reply, Addr, AddrView, Command,
    Decoder, Encoder, Reply, Version,
};
use bytes::BytesMut;
use vstd::prelude::*;

verus! {

/// The opening of the remote connection that a request asks for. `remote_fut` is the attempt, once
/// it is begun.
pub struct CommandConnect<C, F> {
    pub ver: Version,
    pub addr: Addr,
    pub remote_fut: Option<F>,
    pub connector: C,
}

/// What happens to a [`CommandConnect`].
pub enum ConnectEvent<O, F> {
    /// A turn starts.
    Start,
    /// The attempt has begun.
    Connecting(F),
    /// The attempt was polled.
    Remote(IoPoll<O>),
}

/// What has to be done next.
pub enum ConnectAction<O> {
    /// Begin to open a connection to this address.
    Connect(Addr),
    /// Poll the attempt.
    PollRemote,
    /// The turn is over, with this outcome.
    Return(IoPoll<O>),
}

impl<C, F> CommandConnect<C, F> {
    /// Takes an event and gives the next action. One attempt is begun, in the first turn, and its
    /// outcome is passed on.
    pub fn poll<O>(&mut self, event: ConnectEvent<O, F>) -> (action: ConnectAction<O>)
        ensures
            final(self).ver == old(self).ver,
            final(self).addr == old(self).addr,
            final(self).connector == old(self).connector,
            final(self).remote_fut == match event {
                ConnectEvent::Connecting(remote_fut) => Some(remote_fut),
                _ => old(self).remote_fut,
            },
            match event {
                ConnectEvent::Start => match old(self).remote_fut {
                    None => action matches ConnectAction::Connect(addr) && addr@ == old(self).addr@,
                    Some(_) => action is PollRemote,
                },
                ConnectEvent::Connecting(_) => action is PollRemote,
                ConnectEvent::Remote(outcome) => action == ConnectAction::Return(outcome),
            },
    {
        match event {
            ConnectEvent::Start => {
                if self.remote_fut.is_none() {
                    ConnectAction::Connect(self.addr.clone())
                } else {
                    ConnectAction::PollRemote
                }
            },
            ConnectEvent::Connecting(remote_fut) => {
                self.remote_fut = Some(remote_fut);
                ConnectAction::PollRemote
            },
            ConnectEvent::Remote(outcome) => ConnectAction::Return(outcome),
        }
    }
}

/// How far the opening has come.
pub enum ConnectingState<C, F> {
    /// The client has to offer authentication methods.
    Negotiation,
    /// The client has to send its request.
    SubNegotiation,
    /// The remote connection has to be opened.
    OpenRemote(CommandConnect<C, F>),
}

/// The model of a [`ConnectingState`].
pub enum ConnectingStateView<F> {
    Negotiation,
    SubNegotiation,
    /// The version and the address of the request, and the attempt, once it is begun.
    OpenRemote(Version, AddrView, Option<F>),
}

impl<C, F> View for ConnectingState<C, F> {
    type V = ConnectingStateView<F>;

    open spec fn view(&self) -> ConnectingStateView<F> {
        match *self {
            ConnectingState::Negotiation => ConnectingStateView::Negotiation,
            ConnectingState::SubNegotiation => ConnectingStateView::SubNegotiation,
            ConnectingState::OpenRemote(connect) => ConnectingStateView::OpenRemote(
                connect.ver,
                connect.addr@,
                connect.remote_fut,
            ),
        }
    }
}

/// The opening of a client's connection over the stream `io`. What is read from the stream goes to
/// `buf`, and what is written to it comes from there; `o` is the remote connection while the client
/// is told of it.
pub struct Connecting<IO, C, O, F> {
    pub io: IO,
    pub buf: BytesMut,
    pub o: Option<O>,
    pub o_buf: BytesMut,
    pub state: ConnectingState<C, F>,
    pub awaiting: Await,
    pub connector: C,
}

/// The model of a [`Connecting`].
#[verifier::ext_equal]
pub struct ConnectingView<O, F> {
    pub state: ConnectingStateView<F>,
    pub awaiting: Await,
    pub o: Option<O>,
    pub buf: Seq<u8>,
}

/// What happens to a [`Connecting`]. A read gives the number of bytes that were received.
pub type ConnectingEvent<O, F> = Event<usize, O, F>;

impl<IO, C, O, F> View for Connecting<IO, C, O, F> {
    type V = ConnectingView<O, F>;

    open spec fn view(&self) -> ConnectingView<O, F> {
        ConnectingView {
            state: self.state@,
            awaiting: self.awaiting,
            o: self.o,
            buf: bytes_of(self.buf),
        }
    }
}

impl<O, F> ConnectingView<O, F> {
    /// An opening that has not begun.
    pub open spec fn fresh() -> Self {
        ConnectingView {
            state: ConnectingStateView::Negotiation,
            awaiting: Await::Start,
            o: None,
            buf: Seq::empty(),
        }
    }

    /// What holds of an opening at all times.
    pub open spec fn inv(self) -> bool {
        match self.state {
            ConnectingStateView::Negotiation => {
                &&& self.o is None
                &&& self.awaiting is Start || self.awaiting is Read || self.awaiting is Write
                    || self.awaiting is Flush
            },
            ConnectingStateView::SubNegotiation => {
                &&& self.o is None
                &&& self.awaiting is Start || self.awaiting is Read
            },
            ConnectingStateView::OpenRemote(_, addr, remote_fut) => {
                &&& addr.wf()
                &&& self.awaiting is Start || self.awaiting is Connect || self.awaiting is Remote
                    || self.awaiting is Write || self.awaiting is Flush
                &&& self.awaiting is Connect ==> remote_fut is None
                &&& self.awaiting is Remote || self.o is Some ==> remote_fut is Some
                &&& self.o is Some <==> self.awaiting is Write || self.awaiting is Flush
            },
        }
    }

    /// The opening as it gives out an action.
    pub open spec fn act(self, awaiting: Await, action: ActionView<O>) -> (
        Self,
        Option<ActionView<O>>,
    ) {
        (ConnectingView { awaiting, ..self }, Some(action))
    }

    /// The opening as it ends a turn. The remote connection is not kept.
    pub open spec fn give(self, progress: Progress<O>) -> (Self, Option<ActionView<O>>) {
        ConnectingView { o: None, ..self }.act(Await::Start, ActionView::Return(progress))
    }

    /// The opening as it ends a turn because an operation is not finished, failed, or found the
    /// stream closed.
    pub open spec fn stop<T>(self, outcome: IoPoll<T>) -> (Self, Option<ActionView<O>>) {
        match outcome {
            Poll::Pending => self.give(Poll::Pending),
            Poll::Ready(Err(err)) => self.give(Poll::Ready(Err(Error::IoError(err)))),
            Poll::Ready(Ok(_)) => self.give(Poll::Ready(Err(Error::ConnectionClose))),
        }
    }

    /// The opening as it moves on to the next phase.
    pub open spec fn enter(self, state: ConnectingStateView<F>) -> (Self, Option<ActionView<O>>) {
        (ConnectingView { state, awaiting: Await::Start, ..self }, None)
    }

    /// Selecting a method: a greeting is read, the first method that it offers is selected, and the
    /// client is told.
    pub open spec fn negotiation_step(self, event: ConnectingEvent<O, F>) -> (
        Self,
        Option<ActionView<O>>,
    ) {
        match event {
            Event::Start => ConnectingView { buf: Seq::empty(), ..self }.act(
                Await::Read,
                ActionView::Read,
            ),
            Event::Read(Poll::Ready(Ok(n))) if n > 0 => match decode_greeting(self.buf) {
                Ok((version, methods)) => ConnectingView {
                    buf: encode_method_select(version, methods[0]),
                    ..self
                }.act(Await::Write, ActionView::Write),
                Err(err) => self.give(Poll::Ready(Err(err))),
            },
            Event::Wrote(Poll::Ready(Ok(n))) if n > 0 => self.act(Await::Flush, ActionView::Flush),
            Event::Flushed(Poll::Ready(Ok(_))) => self.enter(ConnectingStateView::SubNegotiation),
            Event::Read(outcome) => self.stop(outcome),
            Event::Wrote(outcome) => self.stop(outcome),
            Event::Flushed(outcome) => self.stop(outcome),
            _ => self.give(Poll::Pending),
        }
    }

    /// Taking the request: only a request to connect is carried out.
    pub open spec fn subnegotiation_step(self, event: ConnectingEvent<O, F>) -> (
        Self,
        Option<ActionView<O>>,
    ) {
        match event {
            Event::Start => ConnectingView { buf: Seq::empty(), ..self }.act(
                Await::Read,
                ActionView::Read,
            ),
            Event::Read(Poll::Ready(Ok(n))) if n > 0 => match decode_request(self.buf) {
                Ok((version, Command::Connect, addr)) => self.enter(
                    ConnectingStateView::OpenRemote(version, addr, None),
                ),
                Ok((_, command, _)) => self.act(Await::Start, ActionView::Unimplemented(command)),
                Err(err) => self.give(Poll::Ready(Err(err))),
            },
            Event::Read(outcome) => self.stop(outcome),
            _ => self.give(Poll::Pending),
        }
    }

    /// Opening the remote connection: one attempt is begun and polled until it is over. If it
    /// succeeds the client is told, and the remote connection is the outcome.
    pub open spec fn remote_step(self, event: ConnectingEvent<O, F>) -> (
        Self,
        Option<ActionView<O>>,
    )
        recommends
            self.state is OpenRemote,
    {
        let (version, addr, remote_fut) = (self.state->0, self.state->1, self.state->2);
        match event {
            Event::Start => match remote_fut {
                None => self.act(Await::Connect, ActionView::Connect(addr)),
                Some(_) => self.act(Await::Remote, ActionView::PollRemote),
            },
            Event::Connecting(remote_fut) => ConnectingView {
                state: ConnectingStateView::OpenRemote(version, addr, Some(remote_fut)),
                ..self
            }.act(Await::Remote, ActionView::PollRemote),
            Event::Remote(Poll::Ready(Ok(remote))) => ConnectingView {
                o: Some(remote),
                buf: encode_reply(version, Reply::Succeeded, addr),
                ..self
            }.act(Await::Write, ActionView::Write),
            Event::Wrote(Poll::Ready(Ok(n))) if n > 0 => self.act(Await::Flush, ActionView::Flush),
            Event::Flushed(Poll::Ready(Ok(_))) => self.give(Poll::Ready(Ok(self.o->0))),
            Event::Remote(outcome) => self.stop(outcome),
            Event::Wrote(outcome) => self.stop(outcome),
            Event::Flushed(outcome) => self.stop(outcome),
            _ => self.give(Poll::Pending),
        }
    }

    /// The step of the phase that the opening is in. No action means that the phase is over.
    pub open spec fn phase_step(self, event: ConnectingEvent<O, F>) -> (
        Self,
        Option<ActionView<O>>,
    ) {
        match self.state {
            ConnectingStateView::Negotiation => self.negotiation_step(event),
            ConnectingStateView::SubNegotiation => self.subnegotiation_step(event),
            ConnectingStateView::OpenRemote(..) => self.remote_step(event),
        }
    }

    /// A step of the opening: a phase that is over is followed at once by the next.
    pub open spec fn step(self, event: ConnectingEvent<O, F>) -> (Self, ActionView<O>) {
        match self.phase_step(event) {
            (after, Some(action)) => (after, action),
            (after, None) => {
                let (next, action) = after.phase_step(Event::Start);
                (next, action->0)
            },
        }
    }
}

impl<IO, C, O, F> Connecting<IO, C, O, F> {
    /// The opening of the connection of a client that has just been accepted.
    pub fn new(io: IO, connector: C) -> (connecting: Self)
        ensures
            connecting@ == ConnectingView::<O, F>::fresh(),
            connecting@.inv(),
            connecting.io == io,
            connecting.connector == connector,
            bytes_of(connecting.o_buf) == Seq::<u8>::empty(),
    {
        Connecting {
            io,
            buf: with_capacity(8192),
            o: None,
            o_buf: with_capacity(8192),
            state: ConnectingState::Negotiation,
            awaiting: Await::Start,
            connector,
        }
    }
}

impl<IO, C: Clone, O, F> Connecting<IO, C, O, F> {
    /// What no step touches. The connector of a request is a clone of the opening's own, and stays.
    pub open spec fn same_ends(&self, other: &Self) -> bool {
        &&& self.io == other.io
        &&& self.o_buf == other.o_buf
        &&& self.connector == other.connector
        &&& self.state matches ConnectingState::OpenRemote(connect) ==> match other.state {
            ConnectingState::OpenRemote(before) => connect.connector == before.connector,
            _ => cloned(other.connector, connect.connector),
        }
    }

    /// Ends a turn because an operation is not finished, failed, or found the stream closed.
    fn stop<T>(&mut self, outcome: IoPoll<T>) -> (action: Option<Action<O>>)
        ensures
            action is Some,
            (final(self)@, Some(action->0@)) == old(self)@.stop(outcome),
            final(self).same_ends(old(self)),
    {
        self.awaiting = Await::Start;
        self.o = None;
        Some(
            Action::Return(
                match outcome {
                    Poll::Pending => Poll::Pending,
                    Poll::Ready(Err(err)) => Poll::Ready(Err(Error::from(err))),
                    Poll::Ready(Ok(_)) => Poll::Ready(Err(Error::ConnectionClose)),
                },
            ),
        )
    }

    /// Hands an event to the phase that the opening is in. No action means that the phase is over.
    fn poll_phase(&mut self, event: ConnectingEvent<O, F>) -> (action: Option<Action<O>>)
        requires
            old(self)@.inv(),
            old(self)@.awaiting.expects(event),
        ensures
            match action {
                Some(action) => (final(self)@, Some(action@)) == old(self)@.phase_step(event),
                None => (final(self)@, None::<ActionView<O>>) == old(self)@.phase_step(event),
            },
            final(self)@.inv(),
            final(self).same_ends(old(self)),
    {
        match &self.state {
            ConnectingState::Negotiation => self.poll_negotiation(event),
            ConnectingState::SubNegotiation => self.poll_subnegotiation(event),
            ConnectingState::OpenRemote(_) => self.poll_remote(event),
        }
    }

    /// Selects a method.
    fn poll_negotiation(&mut self, event: ConnectingEvent<O, F>) -> (action: Option<Action<O>>)
        requires
            old(self)@.inv(),
            old(self)@.state is Negotiation,
            old(self)@.awaiting.expects(event),
        ensures
            match action {
                Some(action) => (final(self)@, Some(action@)) == old(self)@.negotiation_step(event),
                None => (final(self)@, None::<ActionView<O>>) == old(self)@.negotiation_step(event),
            },
            final(self)@.inv(),
            final(self).same_ends(old(self)),
    {
        match event {
            Event::Start => {
                clear(&mut self.buf);
                self.awaiting = Await::Read;
                Some(Action::Read)
            },
            Event::Read(Poll::Ready(Ok(n))) if n > 0 => {
                self.awaiting = Await::Start;
                match Decoder::parse_connecting(chunk(&self.buf)) {
                    Ok((version, methods)) => {
                        let method = &methods[0];
                        clear(&mut self.buf);
                        Encoder::encode_method_select_msg(version, method, &mut self.buf);
                        assert(bytes_of(self.buf) =~= encode_method_select(version, *method));
                        self.awaiting = Await::Write;
                        Some(Action::Write)
                    },
                    Err(err) => Some(Action::Return(Poll::Ready(Err(err)))),
                }
            },
            Event::Wrote(Poll::Ready(Ok(n))) if n > 0 => {
                self.awaiting = Await::Flush;
                Some(Action::Flush)
            },
            Event::Flushed(Poll::Ready(Ok(_))) => {
                self.awaiting = Await::Start;
                self.state = ConnectingState::SubNegotiation;
                None
            },
            Event::Read(outcome) => self.stop(outcome),
            Event::Wrote(outcome) => self.stop(outcome),
            Event::Flushed(outcome) => self.stop(outcome),
            _ => self.stop(Poll::<Result<(), std::io::Error>>::Pending),
        }
    }

    /// Takes the request.
    fn poll_subnegotiation(&mut self, event: ConnectingEvent<O, F>) -> (action: Option<Action<O>>)
        requires
            old(self)@.inv(),
            old(self)@.state is SubNegotiation,
            old(self)@.awaiting.expects(event),
        ensures
            match action {
                Some(action) => (final(self)@, Some(action@)) == old(self)@.subnegotiation_step(
                    event,
                ),
                None => (final(self)@, None::<ActionView<O>>) == old(self)@.subnegotiation_step(
                    event,
                ),
            },
            final(self)@.inv(),
            final(self).same_ends(old(self)),
    {
        match event {
            Event::Start => {
                clear(&mut self.buf);
                self.awaiting = Await::Read;
                Some(Action::Read)
            },
            Event::Read(Poll::Ready(Ok(n))) if n > 0 => {
                self.awaiting = Await::Start;
                match Decoder::parse_nego_req(chunk(&self.buf)) {
                    Ok((ver, command, addr)) => match command {
                        Command::Connect => {
                            self.state = ConnectingState::OpenRemote(
                                CommandConnect {
                                    ver,
                                    addr,
                                    remote_fut: None,
                                    connector: self.connector.clone(),
                                },
                            );
                            None
                        },
                        Command::Bind => Some(Action::Unimplemented(command)),
                        Command::UdpAssociate => Some(Action::Unimplemented(command)),
                    },
                    Err(err) => Some(Action::Return(Poll::Ready(Err(err)))),
                }
            },
            Event::Read(outcome) => self.stop(outcome),
            _ => self.stop(Poll::<Result<(), std::io::Error>>::Pending),
        }
    }

    /// Opens the remote connection.
    fn poll_remote(&mut self, event: ConnectingEvent<O, F>) -> (action: Option<Action<O>>)
        requires
            old(self)@.inv(),
            old(self)@.state is OpenRemote,
            old(self)@.awaiting.expects(event),
        ensures
            action is Some,
            (final(self)@, Some(action->0@)) == old(self)@.remote_step(event),
            final(self)@.inv(),
            final(self).same_ends(old(self)),
    {
        let event: ConnectEvent<O, F> = match event {
            Event::Start => ConnectEvent::Start,
            Event::Connecting(remote_fut) => ConnectEvent::Connecting(remote_fut),
            Event::Remote(outcome) => ConnectEvent::Remote(outcome),
            Event::Wrote(Poll::Ready(Ok(n))) if n > 0 => {
                self.awaiting = Await::Flush;
                return Some(Action::Flush);
            },
            Event::Flushed(Poll::Ready(Ok(_))) => {
                self.awaiting = Await::Start;
                let remote = self.o.take().unwrap();
                return Some(Action::Return(Poll::Ready(Ok(remote))));
            },
            Event::Wrote(outcome) => return self.stop(outcome),
            Event::Flushed(outcome) => return self.stop(outcome),
            _ => return self.stop(Poll::<Result<(), std::io::Error>>::Pending),
        };
        match &mut self.state {
            ConnectingState::OpenRemote(connect) => match connect.poll(event) {
                ConnectAction::Connect(addr) => {
                    self.awaiting = Await::Connect;
                    Some(Action::Connect(addr))
                },
                ConnectAction::PollRemote => {
                    self.awaiting = Await::Remote;
                    Some(Action::PollRemote)
                },
                ConnectAction::Return(Poll::Ready(Ok(remote))) => {
                    clear(&mut self.buf);
                    Encoder::encode_server_reply(
                        &connect.ver,
                        &Reply::Succeeded,
                        &connect.addr,
                        &mut self.buf,
                    );
                    self.o = Some(remote);
                    self.awaiting = Await::Write;
                    Some(Action::Write)
                },
                ConnectAction::Return(outcome) => self.stop(outcome),
            },
            _ => None,
        }
    }

    /// Takes the event that the opening waits for, and gives the next action.
    pub fn poll(&mut self, event: ConnectingEvent<O, F>) -> (action: Action<O>)
        requires
            old(self)@.inv(),
            old(self)@.awaiting.expects(event),
        ensures
            (final(self)@, action@) == old(self)@.step(event),
            final(self)@.inv(),
            final(self).same_ends(old(self)),
    {
        match self.poll_phase(event) {
            Some(action) => action,
            None => self.poll_phase(Event::Start).unwrap(),
        }
    }
}

impl<O, F> ConnectingView<O, F> {
    /// The opening with other bytes in its buffer, as a read or a write of the stream leaves it.
    pub open spec fn with_buf(self, buf: Seq<u8>) -> Self {
        ConnectingView { buf, ..self }
    }

    /// What holds of an opening at all times is kept by every step, whatever reads and writes do to
    /// the buffer before it, and the opening then waits for the outcome of the action that the step
    /// gave out.
    pub proof fn lemma_step_keeps_inv(self, buf: Seq<u8>, event: ConnectingEvent<O, F>)
        requires
            self.inv(),
            self.awaiting.expects(event),
        ensures
            self.with_buf(buf).step(event).0.inv(),
            self.with_buf(buf).step(event).0.awaiting == await_of(
                self.with_buf(buf).step(event).1,
            ),
    {
    }

    /// An opening succeeds only when the client was told of it: at the end of a flush, with the
    /// remote connection that the reply was about.
    pub proof fn lemma_success(self, event: ConnectingEvent<O, F>, remote: O)
        requires
            self.inv(),
            self.awaiting.expects(event),
        ensures
            self.step(event).1 == ActionView::Return(Poll::Ready(Ok::<O, Error>(remote))) <==> {
                &&& self.state is OpenRemote
                &&& event matches Event::Flushed(Poll::Ready(Ok(_)))
                &&& self.o == Some(remote)
            },
    {
    }

    /// An operation on a stream that fails ends the turn with its error, and one that is not
    /// finished ends the turn as pending. A read or a write that moves no bytes means that the
    /// client closed its stream. In all these cases the phase stays the same, and a remote
    /// connection that the client was being told of is dropped. The next turn then reads again if a
    /// message is due, and polls the attempt to open the remote connection if there is one.
    pub proof fn lemma_unfinished_operation(self, event: ConnectingEvent<O, F>)
        requires
            self.inv(),
            self.awaiting.expects(event),
        ensures
            ({
                let stopped = ConnectingView { awaiting: Await::Start, o: None, ..self };
                let ends = |progress: Progress<O>| (stopped, ActionView::Return(progress));
                match event {
                    Event::Read(Poll::Pending)
                    | Event::Wrote(Poll::Pending)
                    | Event::Flushed(Poll::Pending)
                    | Event::Remote(Poll::Pending) => self.step(event) == ends(Poll::Pending),
                    Event::Read(Poll::Ready(Err(err)))
                    | Event::Wrote(Poll::Ready(Err(err)))
                    | Event::Flushed(Poll::Ready(Err(err)))
                    | Event::Remote(Poll::Ready(Err(err))) => self.step(event) == ends(
                        Poll::Ready(Err(Error::IoError(err))),
                    ),
                    Event::Read(Poll::Ready(Ok(n))) | Event::Wrote(Poll::Ready(Ok(n))) => n == 0
                        ==> self.step(event) == ends(Poll::Ready(Err(Error::ConnectionClose))),
                    _ => true,
                }
            }),
            ({
                let stopped = ConnectingView { awaiting: Await::Start, o: None, ..self };
                let next = stopped.step(Event::Start).1;
                match self.state {
                    ConnectingStateView::Negotiation
                    | ConnectingStateView::SubNegotiation => next is Read,
                    ConnectingStateView::OpenRemote(_, addr, None) => next == ActionView::<
                        O,
                    >::Connect(addr),
                    ConnectingStateView::OpenRemote(_, _, Some(_)) => next is PollRemote,
                }
            }),
    {
    }

    /// A message that cannot be read is refused: the turn ends with the reason, and nothing is
    /// written to the client.
    pub proof fn lemma_refused(self, n: usize)
        requires
            self.inv(),
            self.awaiting is Read,
            n > 0,
        ensures
            ({
                let refused = |err: Error|
                    (
                        ConnectingView { awaiting: Await::Start, ..self },
                        ActionView::Return(Poll::Ready(Err::<O, _>(err))),
                    );
                let answer = self.step(Event::Read(Poll::Ready(Ok(n))));
                &&& self.state is Negotiation && decode_greeting(self.buf) is Err ==> answer
                    == refused(decode_greeting(self.buf)->Err_0)
                &&& self.state is SubNegotiation && decode_request(self.buf) is Err ==> answer
                    == refused(decode_request(self.buf)->Err_0)
            }),
    {
    }

    /// A client that offers methods and asks for a connection gets it: the first method offered is
    /// selected, a connection to the address of the request is opened, the client is told that the
    /// request was granted, with that address, and that connection is the outcome.
    pub proof fn lemma_handshake(
        greeting: Seq<u8>,
        request: Seq<u8>,
        read: (usize, usize),
        taken: (usize, usize),
        left: (Seq<u8>, Seq<u8>),
        remote_fut: F,
        remote: O,
    )
        requires
            decode_greeting(greeting) is Ok,
            decode_request(request) is Ok,
            decode_request(request)->Ok_0.1 is Connect,
            read.0 > 0 && read.1 > 0 && taken.0 > 0 && taken.1 > 0,
        ensures
            ({
                let (_, methods) = decode_greeting(greeting)->Ok_0;
                let (version, _, addr) = decode_request(request)->Ok_0;
                let (s1, a1) = Self::fresh().step(Event::Start);
                let (s2, a2) = s1.with_buf(greeting).step(Event::Read(Poll::Ready(Ok(read.0))));
                let (s3, a3) = s2.with_buf(left.0).step(Event::Wrote(Poll::Ready(Ok(taken.0))));
                let (s4, a4) = s3.step(Event::Flushed(Poll::Ready(Ok(()))));
                let (s5, a5) = s4.with_buf(request).step(Event::Read(Poll::Ready(Ok(read.1))));
                let (s6, a6) = s5.step(Event::Connecting(remote_fut));
                let (s7, a7) = s6.step(Event::Remote(Poll::Ready(Ok(remote))));
                let (s8, a8) = s7.with_buf(left.1).step(Event::Wrote(Poll::Ready(Ok(taken.1))));
                let (_, a9) = s8.step(Event::Flushed(Poll::Ready(Ok(()))));
                &&& a1 is Read && s1.buf == Seq::<u8>::empty()
                &&& a2 is Write && s2.buf == seq![5u8, methods[0].0]
                &&& a3 is Flush
                &&& a4 is Read && s4.buf == Seq::<u8>::empty()
                &&& a5 == ActionView::<O>::Connect(addr)
                &&& a6 is PollRemote
                &&& a7 is Write && s7.buf == encode_reply(version, Reply::Succeeded, addr)
                &&& a8 is Flush
                &&& a9 == ActionView::Return(Poll::Ready(Ok::<O, Error>(remote)))
            }),
    {
    }

    /// The opening after a series of events, each with the bytes that are in the buffer when it
    /// comes.
    pub open spec fn run(self, events: Seq<(Seq<u8>, ConnectingEvent<O, F>)>) -> Self
        decreases events.len(),
    {
        if events.len() == 0 {
            self
        } else {
            let (buf, event) = events.last();
            self.run(events.drop_last()).with_buf(buf).step(event).0
        }
    }

    /// Each of the events is of the kind that the opening waits for when it comes.
    pub open spec fn takes(self, events: Seq<(Seq<u8>, ConnectingEvent<O, F>)>) -> bool
        decreases events.len(),
    {
        events.len() > 0 ==> {
            &&& self.takes(events.drop_last())
            &&& self.run(events.drop_last()).awaiting.expects(events.last().1)
        }
    }

    /// How often a series of events makes the opening begin to open a remote connection.
    pub open spec fn connects(self, events: Seq<(Seq<u8>, ConnectingEvent<O, F>)>) -> nat
        decreases events.len(),
    {
        if events.len() == 0 {
            0
        } else {
            let (buf, event) = events.last();
            let before = self.run(events.drop_last()).with_buf(buf);
            self.connects(events.drop_last()) + if before.step(event).1 is Connect {
                1nat
            } else {
                0nat
            }
        }
    }

    /// Whatever happens to an opening, what holds of it at all times holds after it, no more than
    /// one attempt to open a remote connection is ever begun, and the remote connection that the
    /// client is told of is one that the attempt gave.
    pub proof fn lemma_run(events: Seq<(Seq<u8>, ConnectingEvent<O, F>)>)
        requires
            Self::fresh().takes(events),
        ensures
            ({
                let after = Self::fresh().run(events);
                &&& after.inv()
                &&& Self::fresh().connects(events) <= 1
                &&& Self::fresh().connects(events) == 1 <==> after.awaiting is Connect || (
                after.state is OpenRemote && after.state->2 is Some)
                &&& after.o matches Some(remote) ==> exists|i: int|
                    0 <= i < events.len() && (#[trigger] events[i]).1 == Event::<usize, O, F>::Remote(
                        Poll::Ready(Ok(remote)),
                    )
            }),
        decreases events.len(),
    {
        if events.len() > 0 {
            let before = Self::fresh().run(events.drop_last());
            let (buf, event) = events.last();
            Self::lemma_run(events.drop_last());
            before.lemma_step_keeps_inv(buf, event);
            let after = Self::fresh().run(events);
            if after.o is Some {
                if event is Remote {
                    assert(events[events.len() - 1].1 == event);
                } else {
                    let i = choose|i: int|
                        0 <= i < events.drop_last().len() && (#[trigger] events.drop_last()[i]).1
                            == Event::<usize, O, F>::Remote(Poll::Ready(Ok(before.o->0)));
                    assert(events[i] == events.drop_last()[i]);
                }
            }
        }
    }
}

} // verus!
