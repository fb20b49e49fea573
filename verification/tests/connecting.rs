use bytes::{Buf, BytesMut};
use socks_server::conn::{
    CommandConnect, ConnectAction, ConnectEvent, Connecting, ConnectingEvent, ConnectingState,
};
use socks_server::error::Error;
use socks_server::poll::{Action, Event, Poll};
use socks_server::proto::{Addr, Command, Version};
use std::io;

type TestConnecting = Connecting<&'static str, String, u32, &'static str>;
type TestEvent = ConnectingEvent<u32, &'static str>;

const GREETING: [u8; 3] = [5, 1, 9];
const REQUEST: [u8; 11] = [5, 1, 0, 3, 4, b'h', b'o', b's', b't', 1, 187];

fn failure() -> io::Error {
    io::Error::new(io::ErrorKind::TimedOut, "late")
}

/// What the client sends goes to the buffer.
fn receive(connecting: &mut TestConnecting, bytes: &[u8]) -> Action<u32> {
    connecting.buf.extend_from_slice(bytes);
    connecting.poll(Event::Read(Poll::Ready(Ok(bytes.len()))))
}

/// What the client takes leaves the buffer.
fn send(connecting: &mut TestConnecting) -> Action<u32> {
    let n = connecting.buf.len();
    connecting.buf.advance(n);
    connecting.poll(Event::Wrote(Poll::Ready(Ok(n))))
}

fn flushed() -> TestEvent {
    Event::Flushed(Poll::Ready(Ok(())))
}

fn started() -> TestConnecting {
    let mut connecting = TestConnecting::new("client", String::from("connector"));
    assert!(matches!(connecting.poll(Event::Start), Action::Read));
    connecting
}

fn negotiated() -> TestConnecting {
    let mut connecting = started();
    assert!(matches!(receive(&mut connecting, &GREETING), Action::Write));
    assert!(matches!(send(&mut connecting), Action::Flush));
    assert!(matches!(connecting.poll(flushed()), Action::Read));
    connecting
}

fn opened() -> TestConnecting {
    let mut connecting = negotiated();
    assert!(matches!(receive(&mut connecting, &REQUEST), Action::Connect(_)));
    assert!(matches!(connecting.poll(Event::Connecting("attempt")), Action::PollRemote));
    let action = connecting.poll(Event::Remote(Poll::Ready(Ok(42))));
    assert!(matches!(action, Action::Write));
    connecting
}

fn error_of(action: Action<u32>) -> Error {
    match action {
        Action::Return(Poll::Ready(Err(err))) => err,
        other => panic!("{:?}", other),
    }
}

#[test]
fn new_opening_is_empty() {
    let connecting = TestConnecting::new("client", String::from("connector"));
    assert_eq!(connecting.io, "client");
    assert_eq!(connecting.connector, "connector");
    assert!(connecting.buf.is_empty() && connecting.o_buf.is_empty());
    assert!(connecting.o.is_none());
    assert!(matches!(connecting.state, ConnectingState::Negotiation));
}

#[test]
fn opening_ends_with_the_remote_connection() {
    let mut connecting = started();
    receive(&mut connecting, &GREETING);
    assert_eq!(&connecting.buf[..], &[5, 9]);
    send(&mut connecting);
    connecting.poll(flushed());
    assert!(connecting.buf.is_empty());
    match receive(&mut connecting, &REQUEST) {
        Action::Connect(Addr::DomainName(host, port)) => {
            assert_eq!((&host[..], port), (&b"host"[..], 443));
        }
        other => panic!("{:?}", other),
    }
    connecting.poll(Event::Connecting("attempt"));
    connecting.poll(Event::Remote(Poll::Ready(Ok(42))));
    assert_eq!(&connecting.buf[..], &[5, 0, 0, 3, 4, b'h', b'o', b's', b't', 1, 187]);
    assert!(matches!(send(&mut connecting), Action::Flush));
    assert!(matches!(connecting.poll(flushed()), Action::Return(Poll::Ready(Ok(42)))));
    assert!(connecting.o.is_none());
}

#[test]
fn connector_is_cloned_for_the_request() {
    let mut connecting = negotiated();
    receive(&mut connecting, &REQUEST);
    match connecting.state {
        ConnectingState::OpenRemote(connect) => {
            assert_eq!(connect.connector, "connector");
            assert_eq!(connect.ver, Version::V5);
        }
        _ => panic!("no request"),
    }
}

#[test]
fn stream_that_moves_no_bytes_is_closed() {
    let mut connecting = started();
    assert!(matches!(error_of(receive(&mut connecting, &[])), Error::ConnectionClose));
    let mut connecting = started();
    receive(&mut connecting, &GREETING);
    let err = error_of(connecting.poll(Event::Wrote(Poll::Ready(Ok(0)))));
    assert!(matches!(err, Error::ConnectionClose));
    let mut connecting = negotiated();
    assert!(matches!(error_of(receive(&mut connecting, &[])), Error::ConnectionClose));
    let mut connecting = opened();
    let err = error_of(connecting.poll(Event::Wrote(Poll::Ready(Ok(0)))));
    assert!(matches!(err, Error::ConnectionClose));
    assert!(connecting.o.is_none());
}

#[test]
fn unreadable_messages_end_the_opening() {
    let mut connecting = started();
    assert!(matches!(error_of(receive(&mut connecting, &[5, 0])), Error::NoMethods));
    let mut connecting = negotiated();
    let err = error_of(receive(&mut connecting, &[5, 1, 0, 6]));
    assert!(matches!(err, Error::UnsupportedAddrType(6)));
}

#[test]
fn other_requests_are_not_carried_out() {
    let mut connecting = negotiated();
    let action = receive(&mut connecting, &[5, 2, 0, 1, 0, 0, 0, 0, 0, 0]);
    assert!(matches!(action, Action::Unimplemented(Command::Bind)));
    let mut connecting = negotiated();
    let action = receive(&mut connecting, &[5, 3, 0, 1, 0, 0, 0, 0, 0, 0]);
    assert!(matches!(action, Action::Unimplemented(Command::UdpAssociate)));
}

#[test]
fn pending_opening_starts_its_phase_over() {
    let mut connecting = started();
    receive(&mut connecting, &GREETING);
    let action = connecting.poll(Event::Wrote(Poll::Pending));
    assert!(matches!(action, Action::Return(Poll::Pending)));
    assert!(matches!(connecting.poll(Event::Start), Action::Read));
    assert!(connecting.buf.is_empty());
    let mut connecting = opened();
    let action = connecting.poll(Event::Wrote(Poll::Pending));
    assert!(matches!(action, Action::Return(Poll::Pending)));
    assert!(connecting.o.is_none());
    assert!(matches!(connecting.poll(Event::Start), Action::PollRemote));
}

#[test]
fn failed_operations_end_the_opening() {
    let mut connecting = started();
    let err = error_of(connecting.poll(Event::Read(Poll::Ready(Err(failure())))));
    assert!(matches!(err, Error::IoError(_)));
    let mut connecting = opened();
    send(&mut connecting);
    match error_of(connecting.poll(Event::Flushed(Poll::Ready(Err(failure()))))) {
        Error::IoError(err) => assert_eq!(err.kind(), io::ErrorKind::TimedOut),
        other => panic!("{:?}", other),
    }
    let mut connecting = negotiated();
    receive(&mut connecting, &REQUEST);
    connecting.poll(Event::Connecting("attempt"));
    let err = error_of(connecting.poll(Event::Remote(Poll::Ready(Err(failure())))));
    assert!(matches!(err, Error::IoError(_)));
}

#[test]
fn command_begins_one_attempt() {
    let mut connect = CommandConnect {
        ver: Version::V5,
        addr: Addr::DomainName(b"host".to_vec(), 1),
        remote_fut: None,
        connector: (),
    };
    let start: ConnectEvent<u8, &str> = ConnectEvent::Start;
    assert!(matches!(connect.poll(start), ConnectAction::Connect(Addr::DomainName(_, 1))));
    let begun: ConnectEvent<u8, &str> = ConnectEvent::Connecting("attempt");
    assert!(matches!(connect.poll(begun), ConnectAction::PollRemote));
    assert_eq!(connect.remote_fut, Some("attempt"));
    let start: ConnectEvent<u8, &str> = ConnectEvent::Start;
    assert!(matches!(connect.poll(start), ConnectAction::PollRemote));
    let action = connect.poll(ConnectEvent::Remote(Poll::Ready(Ok(3))));
    assert!(matches!(action, ConnectAction::Return(Poll::Ready(Ok(3)))));
}

#[test]
fn buffers_are_the_usual_ones() {
    let connecting = started();
    let buf: &BytesMut = &connecting.buf;
    assert!(buf.capacity() >= 8192);
}
