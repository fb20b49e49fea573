use socks_server::error::Error;
use socks_server::poll::{Action, Event, Poll, Progress};
use socks_server::proxy::{Proxy, ProxyAction, ProxyEvent};
use socks_server::proto::{Addr, Command, SocketAddr, Version};
use socks_server::server::{
    socket_addr, Accept, Conn, ConnEvent, Connection, Server, State, DEFAULT_PORT,
};
use socks_server::to_read_buf;
use std::io::{self, Cursor, Read, Write};
use tokio::io::ReadBuf;

type TestConn = Conn<&'static str, u32, &'static str, u8>;
type TestEvent = ConnEvent<u32, &'static str>;

fn failure() -> io::Error {
    io::Error::new(io::ErrorKind::ConnectionReset, "reset")
}

fn read(bytes: &[u8]) -> TestEvent {
    Event::Read(Poll::Ready(Ok(bytes.to_vec())))
}

fn wrote(n: usize) -> TestEvent {
    Event::Wrote(Poll::Ready(Ok(n)))
}

fn flushed() -> TestEvent {
    Event::Flushed(Poll::Ready(Ok(())))
}

const GREETING: [u8; 4] = [5, 2, 2, 0];
const REQUEST: [u8; 10] = [5, 1, 0, 1, 10, 0, 0, 1, 0, 80];

fn negotiated() -> TestConn {
    let mut conn = TestConn::new("client", 7);
    assert!(matches!(conn.poll_inner(Event::Start), Action::Read));
    assert!(matches!(conn.poll_inner(read(&GREETING)), Action::Write));
    assert!(matches!(conn.poll_inner(wrote(2)), Action::Flush));
    assert!(matches!(conn.poll_inner(flushed()), Action::Read));
    conn
}

fn requested() -> TestConn {
    let mut conn = negotiated();
    assert!(matches!(conn.poll_inner(read(&REQUEST)), Action::Connect(_)));
    conn
}

fn connected() -> TestConn {
    let mut conn = requested();
    assert!(matches!(conn.poll_inner(Event::Connecting("attempt")), Action::PollRemote));
    assert!(matches!(conn.poll_inner(Event::Remote(Poll::Ready(Ok(42)))), Action::Write));
    assert!(matches!(conn.poll_inner(wrote(10)), Action::Flush));
    assert!(matches!(conn.poll_inner(flushed()), Action::ToRemote));
    conn
}

fn error_of(action: Action<()>) -> Error {
    match action {
        Action::Return(Poll::Ready(Err(err))) => err,
        other => panic!("{:?}", other),
    }
}

/// One go of both directions, with these outcomes.
fn relay(
    conn: &mut TestConn,
    to_remote: Progress<()>,
    to_client: Progress<()>,
) -> Action<()> {
    assert!(matches!(conn.poll_inner(Event::ToRemote(to_remote)), Action::ToClient));
    conn.poll_inner(Event::ToClient(to_client))
}

#[test]
fn new_connection_is_empty() {
    let conn = TestConn::new("client", 7);
    assert_eq!(conn.io, "client");
    assert_eq!(conn.connector, 7);
    assert_eq!(conn.state, State::Negotiation);
    assert!(conn.remote.is_none() && conn.remote_fut.is_none());
    assert!(conn.ver.is_none() && conn.addr.is_none());
    assert!(conn.read_buf.is_empty() && conn.write_buf.is_empty());
    assert!(conn.read_buf.capacity() >= 8192 && conn.write_buf.capacity() >= 8192);
    assert!(conn.has_room());
}

#[test]
fn first_method_is_selected() {
    let mut conn = TestConn::new("client", 7);
    conn.poll_inner(Event::Start);
    assert!(matches!(conn.poll_inner(read(&GREETING)), Action::Write));
    assert_eq!(&conn.write_buf[..], &[5, 2]);
    assert_eq!(conn.state, State::Negotiation);
    conn.poll_inner(wrote(2));
    conn.poll_inner(flushed());
    assert_eq!(conn.state, State::SubNegotiation);
}

#[test]
fn request_is_put_on_record_and_carried_out() {
    let mut conn = negotiated();
    match conn.poll_inner(read(&REQUEST)) {
        Action::Connect(Addr::SocketAddr(SocketAddr::V4(ip, port))) => {
            assert_eq!((ip, port), ([10, 0, 0, 1], 80));
        }
        other => panic!("{:?}", other),
    }
    assert_eq!(conn.state, State::OpenRemote);
    assert_eq!(conn.ver, Some(Version::V5));
    assert!(conn.addr.is_some());
}

#[test]
fn handshake_ends_in_a_relay() {
    let mut conn = requested();
    conn.poll_inner(Event::Connecting("attempt"));
    assert_eq!(conn.remote_fut, Some("attempt"));
    assert!(matches!(conn.poll_inner(Event::Remote(Poll::Ready(Ok(42)))), Action::Write));
    assert_eq!(&conn.write_buf[..], &[5, 0, 0, 1, 10, 0, 0, 1, 0, 80]);
    assert_eq!(conn.state, State::Connected);
    assert_eq!(conn.remote, Some(42));
    conn.poll_inner(wrote(10));
    assert!(matches!(conn.poll_inner(flushed()), Action::ToRemote));
}

#[test]
fn attempt_is_begun_once() {
    let mut conn = requested();
    conn.poll_inner(Event::Connecting("attempt"));
    assert!(matches!(
        conn.poll_inner(Event::Remote(Poll::Pending)),
        Action::Return(Poll::Pending)
    ));
    assert!(matches!(conn.poll_inner(Event::Start), Action::PollRemote));
}

#[test]
fn closed_stream_is_reported() {
    let mut conn = TestConn::new("client", 7);
    conn.poll_inner(Event::Start);
    assert!(matches!(error_of(conn.poll_inner(read(&[]))), Error::ConnectionClose));
    let mut conn = negotiated();
    assert!(matches!(error_of(conn.poll_inner(read(&[]))), Error::ConnectionClose));
}

#[test]
fn unreadable_messages_are_refused() {
    let mut conn = TestConn::new("client", 7);
    conn.poll_inner(Event::Start);
    let err = error_of(conn.poll_inner(read(&[4, 1, 0])));
    assert!(matches!(err, Error::UnsupportedVersion(4)));
    assert!(conn.write_buf.is_empty());
    assert_eq!(conn.state, State::Negotiation);
    let mut conn = negotiated();
    let err = error_of(conn.poll_inner(read(&[5, 7, 0, 1])));
    assert!(matches!(err, Error::UnsupportedCommand(7)));
    assert_eq!(&conn.write_buf[..], &[5, 2]);
    assert_eq!(conn.state, State::SubNegotiation);
}

#[test]
fn other_commands_are_not_implemented() {
    let mut conn = negotiated();
    let action = conn.poll_inner(read(&[5, 2, 0, 1, 0, 0, 0, 0, 0, 0]));
    assert!(matches!(action, Action::Unimplemented(Command::Bind)));
    let mut conn = negotiated();
    let action = conn.poll_inner(read(&[5, 3, 0, 1, 0, 0, 0, 0, 0, 0]));
    assert!(matches!(action, Action::Unimplemented(Command::UdpAssociate)));
    assert_eq!(conn.state, State::SubNegotiation);
    assert!(conn.addr.is_none());
}

#[test]
fn pending_operations_end_the_turn() {
    let mut conn = TestConn::new("client", 7);
    conn.poll_inner(Event::Start);
    assert!(matches!(conn.poll_inner(Event::Read(Poll::Pending)), Action::Return(Poll::Pending)));
    assert!(matches!(conn.poll_inner(Event::Start), Action::Read));
    conn.poll_inner(read(&GREETING));
    assert!(matches!(conn.poll_inner(Event::Wrote(Poll::Pending)), Action::Return(Poll::Pending)));
    assert_eq!(conn.state, State::Negotiation);
    conn.poll_inner(Event::Start);
    conn.poll_inner(read(&[5, 1, 0]));
    assert_eq!(&conn.write_buf[..], &[5, 2, 5, 0]);
    conn.poll_inner(wrote(4));
    let action = conn.poll_inner(Event::Flushed(Poll::Pending));
    assert!(matches!(action, Action::Return(Poll::Pending)));
    assert_eq!(conn.state, State::Negotiation);
}

#[test]
fn failed_operations_end_the_connection() {
    let mut conn = TestConn::new("client", 7);
    conn.poll_inner(Event::Start);
    let err = error_of(conn.poll_inner(Event::Read(Poll::Ready(Err(failure())))));
    assert!(matches!(err, Error::IoError(_)));
    conn.poll_inner(Event::Start);
    conn.poll_inner(read(&GREETING));
    let err = error_of(conn.poll_inner(Event::Wrote(Poll::Ready(Err(failure())))));
    assert!(matches!(err, Error::IoError(_)));
    let mut conn = requested();
    conn.poll_inner(Event::Connecting("attempt"));
    match error_of(conn.poll_inner(Event::Remote(Poll::Ready(Err(failure()))))) {
        Error::IoError(err) => assert_eq!(err.kind(), io::ErrorKind::ConnectionReset),
        other => panic!("{:?}", other),
    }
    assert_eq!(conn.state, State::OpenRemote);
    assert!(conn.remote.is_none());
}

#[test]
fn unfinished_reply_is_not_tried_again() {
    let mut conn = requested();
    conn.poll_inner(Event::Connecting("attempt"));
    conn.poll_inner(Event::Remote(Poll::Ready(Ok(42))));
    assert!(matches!(conn.poll_inner(Event::Wrote(Poll::Pending)), Action::Return(Poll::Pending)));
    assert_eq!(conn.state, State::Connected);
    assert!(matches!(conn.poll_inner(Event::Start), Action::ToRemote));
}

#[test]
fn relay_goes_on_while_both_directions_succeed() {
    let mut conn = connected();
    let before = conn.write_buf.clone();
    let done = || Poll::Ready(Ok(()));
    assert!(matches!(relay(&mut conn, done(), done()), Action::ToRemote));
    let action = relay(&mut conn, done(), Poll::Pending);
    assert!(matches!(action, Action::Return(Poll::Pending)));
    assert!(matches!(conn.poll_inner(Event::Start), Action::ToRemote));
    let action = relay(&mut conn, Poll::Pending, done());
    assert!(matches!(action, Action::Return(Poll::Pending)));
    assert_eq!(conn.remote, Some(42));
    assert_eq!(conn.write_buf, before);
}

#[test]
fn relay_reports_the_first_error() {
    let closed = || Poll::Ready(Err(Error::ConnectionClose));
    let failed = || Poll::Ready(Err(Error::IoError(failure())));
    let mut conn = connected();
    let err = error_of(relay(&mut conn, failed(), closed()));
    assert!(matches!(err, Error::IoError(_)));
    let mut conn = connected();
    let err = error_of(relay(&mut conn, Poll::Pending, closed()));
    assert!(matches!(err, Error::ConnectionClose));
    let mut conn = connected();
    let err = error_of(relay(&mut conn, closed(), Poll::Pending));
    assert!(matches!(err, Error::ConnectionClose));
}

#[test]
fn phases_can_be_polled_one_by_one() {
    let mut conn = TestConn::new("client", 7);
    assert!(matches!(conn.poll_negotiation(Event::Start), Action::Read));
    assert!(matches!(conn.poll_negotiation(read(&GREETING)), Action::Write));
    conn.poll_negotiation(wrote(2));
    let action = conn.poll_negotiation(flushed());
    assert!(matches!(action, Action::Return(Poll::Ready(Ok(())))));
    conn.poll_subnegotiation(Event::Start);
    let action = conn.poll_subnegotiation(read(&REQUEST));
    assert!(matches!(action, Action::Return(Poll::Ready(Ok(())))));
    assert!(matches!(conn.poll_remote(Event::Start), Action::Connect(_)));
    conn.poll_remote(Event::Connecting("attempt"));
    assert!(matches!(conn.poll_remote(Event::Remote(Poll::Ready(Ok(1)))), Action::Write));
    conn.poll_remote(wrote(10));
    let action = conn.poll_remote(flushed());
    assert!(matches!(action, Action::Return(Poll::Ready(Ok(())))));
    assert!(matches!(conn.poll_connected(Event::Start), Action::ToRemote));
}

#[test]
fn connection_serves_its_client() {
    let mut connection = Connection::new(TestConn::new("client", 7));
    assert!(matches!(connection.poll(Event::Start), Action::Read));
    assert!(matches!(connection.poll(read(&GREETING)), Action::Write));
    assert_eq!(&connection.conn.write_buf[..], &[5, 2]);
}

#[test]
fn server_listens_on_the_default_port() {
    assert_eq!(socket_addr(None), ("0.0.0.0", 1080));
    assert_eq!(DEFAULT_PORT, 1080);
    assert_eq!(socket_addr(Some(9050)), ("0.0.0.0", 9050));
}

#[test]
fn server_gives_each_client_a_connection() {
    let server = Server::new("listener", String::from("connector"));
    assert_eq!(server.listener, "listener");
    let accept: Accept<&str, u32, u8, String> = server.accepted(Ok("client"));
    match accept {
        Accept::Serve(connection) => {
            assert_eq!(connection.conn.io, "client");
            assert_eq!(connection.conn.connector, "connector");
            assert_eq!(connection.conn.state, State::Negotiation);
        }
        Accept::Finish(_) => panic!("finished"),
    }
}

#[test]
fn server_stops_without_an_error() {
    let server = Server::new((), ());
    let accept: Accept<(), (), (), ()> = server.accepted(Err(failure()));
    assert!(matches!(accept, Accept::Finish(Ok(()))));
}

#[test]
fn longest_reply_leaves_room_for_a_read() {
    let mut request = vec![5, 1, 0, 3, 255];
    request.extend(vec![b'h'; 255]);
    request.extend([0, 80]);
    let mut conn = negotiated();
    conn.poll_inner(read(&request));
    conn.poll_inner(Event::Connecting("attempt"));
    conn.poll_inner(Event::Remote(Poll::Ready(Ok(42))));
    assert_eq!(conn.write_buf.len(), 262);
    assert!(to_read_buf(&mut conn.write_buf).capacity() > 0);
    assert_eq!(conn.write_buf[3..], request[3..]);
}

/// A turn of a relay between streams that are always ready.
fn run<I: Read, O: Write>(proxy: &mut Proxy<'_, I, O>, buf: &mut ReadBuf<'_>) -> Progress<()> {
    let mut event = ProxyEvent::Start;
    loop {
        event = match proxy.poll_proxy(buf, event) {
            ProxyAction::Read => {
                let n = proxy.src.read(buf.initialize_unfilled()).unwrap();
                buf.advance(n);
                ProxyEvent::Read(Poll::Ready(Ok(())))
            }
            ProxyAction::Write => ProxyEvent::Wrote(Poll::Ready(proxy.dst.write(buf.filled()))),
            ProxyAction::Flush => ProxyEvent::Flushed(Poll::Ready(proxy.dst.flush())),
            ProxyAction::Return(progress) => return progress,
        };
    }
}

#[test]
fn relay_goes_to_the_remote_host_first_and_then_back() {
    let mut conn: Conn<_, _, (), ()> = Conn::new(Cursor::new(vec![1, 2, 3]), ());
    conn.state = State::Connected;
    conn.remote = Some(Cursor::new(vec![9, 9, 9, 8]));
    assert!(matches!(conn.poll_connected(Event::Start), Action::ToRemote));
    let outcome = {
        let (mut proxy, mut buf) = conn.to_remote();
        run(&mut proxy, &mut buf)
    };
    assert!(matches!(conn.poll_connected(Event::ToRemote(outcome)), Action::ToClient));
    let outcome = {
        let (mut proxy, mut buf) = conn.to_client();
        run(&mut proxy, &mut buf)
    };
    let action = conn.poll_connected(Event::ToClient(outcome));
    assert!(matches!(action, Action::Return(Poll::Ready(Ok(())))));
    assert_eq!(*conn.remote.unwrap().get_ref(), vec![1, 2, 3, 8]);
    assert_eq!(*conn.io.get_ref(), vec![1, 2, 3, 8]);
    assert!(conn.read_buf.is_empty() && conn.write_buf.is_empty());
}

#[test]
fn reads_and_writes_are_between_the_client_and_the_buffers() {
    let mut conn = TestConn::new("client", 7);
    conn.poll_inner(Event::Start);
    {
        let (io, mut buf) = conn.reader();
        assert_eq!(*io, "client");
        assert!(buf.filled().is_empty() && buf.initialized().is_empty());
        buf.put_slice(&GREETING);
    }
    assert!(conn.read_buf.is_empty());
    conn.poll_inner(read(&GREETING));
    let (io, bytes) = conn.writer();
    assert_eq!((*io, bytes), ("client", &[5u8, 2][..]));
}
