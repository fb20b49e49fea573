use bytes::BytesMut;
use socks_server::connector::Target;
use socks_server::error::Error;
use socks_server::poll::Poll;
use socks_server::proto::{Addr, SocketAddr};
use socks_server::proxy::{Proxy, ProxyAction, ProxyEvent};
use socks_server::{to_read_buf, LocalConnector};
use std::io;
use tokio::io::ReadBuf;

fn failure() -> io::Error {
    io::Error::new(io::ErrorKind::BrokenPipe, "gone")
}

#[test]
fn read_buffer_starts_empty_and_leaves_the_bytes_alone() {
    let mut buf = BytesMut::with_capacity(16);
    buf.extend_from_slice(b"ab");
    {
        let mut read = to_read_buf(&mut buf);
        assert!(read.filled().is_empty());
        assert!(read.initialized().is_empty());
        assert_eq!(read.capacity(), 14);
        read.put_slice(b"xyz");
        assert_eq!(read.filled(), b"xyz");
    }
    assert_eq!(&buf[..], b"ab");
    assert!(to_read_buf(&mut buf).filled().is_empty());
    assert!(to_read_buf(&mut buf).initialized().is_empty());
    let mut none = BytesMut::new();
    assert!(to_read_buf(&mut none).capacity() > 0);
}

#[test]
fn read_buffer_has_room_even_if_the_buffer_is_full() {
    let mut buf = BytesMut::from(&b"full"[..]);
    assert_eq!(buf.capacity(), buf.len());
    assert!(to_read_buf(&mut buf).capacity() > 0);
    assert_eq!(&buf[..], b"full");
}

#[test]
fn proxy_holds_its_streams() {
    let (mut src, mut dst) = (1u8, 2u8);
    let proxy = Proxy::new(&mut src, &mut dst);
    *proxy.dst = *proxy.src;
    assert_eq!(dst, 1);
}

#[test]
fn proxy_turn_reads_writes_flushes_and_clears() {
    let mut room = [0u8; 8];
    let mut buf = ReadBuf::new(&mut room);
    let (mut src, mut dst) = ((), ());
    let mut proxy = Proxy::new(&mut src, &mut dst);
    assert!(matches!(proxy.poll_proxy(&mut buf, ProxyEvent::Start), ProxyAction::Read));
    buf.put_slice(b"data");
    let action = proxy.poll_proxy(&mut buf, ProxyEvent::Read(Poll::Ready(Ok(()))));
    assert!(matches!(action, ProxyAction::Write));
    let action = proxy.poll_proxy(&mut buf, ProxyEvent::Wrote(Poll::Ready(Ok(2))));
    assert!(matches!(action, ProxyAction::Flush));
    assert_eq!(buf.filled(), b"data");
    let action = proxy.poll_proxy(&mut buf, ProxyEvent::Flushed(Poll::Ready(Ok(()))));
    assert!(matches!(action, ProxyAction::Return(Poll::Ready(Ok(())))));
    assert!(buf.filled().is_empty());
    assert_eq!(buf.initialized().len(), 8);
    assert_eq!(buf.capacity(), 8);
}

#[test]
fn proxy_does_not_read_over_data() {
    let mut room = [0u8; 8];
    let mut buf = ReadBuf::new(&mut room);
    buf.put_slice(b"old");
    let (mut src, mut dst) = ((), ());
    let mut proxy = Proxy::new(&mut src, &mut dst);
    assert!(matches!(proxy.poll_proxy(&mut buf, ProxyEvent::Start), ProxyAction::Write));
}

#[test]
fn proxy_stops_at_what_is_not_finished() {
    let mut room = [0u8; 8];
    let mut buf = ReadBuf::new(&mut room);
    buf.put_slice(b"keep");
    let (mut src, mut dst) = ((), ());
    let mut proxy = Proxy::new(&mut src, &mut dst);
    let events = vec![
        ProxyEvent::Read(Poll::Pending),
        ProxyEvent::Wrote(Poll::Pending),
        ProxyEvent::Flushed(Poll::Pending),
    ];
    for event in events {
        let action = proxy.poll_proxy(&mut buf, event);
        assert!(matches!(action, ProxyAction::Return(Poll::Pending)));
        assert_eq!(buf.filled(), b"keep");
    }
}

#[test]
fn proxy_passes_failures_on() {
    let mut room = [0u8; 8];
    let mut buf = ReadBuf::new(&mut room);
    let (mut src, mut dst) = ((), ());
    let mut proxy = Proxy::new(&mut src, &mut dst);
    let events = vec![
        ProxyEvent::Read(Poll::Ready(Err(failure()))),
        ProxyEvent::Wrote(Poll::Ready(Err(failure()))),
        ProxyEvent::Flushed(Poll::Ready(Err(failure()))),
    ];
    for event in events {
        match proxy.poll_proxy(&mut buf, event) {
            ProxyAction::Return(Poll::Ready(Err(Error::IoError(err)))) => {
                assert_eq!(err.kind(), io::ErrorKind::BrokenPipe);
            }
            other => panic!("{:?}", other),
        }
    }
}

#[test]
fn connector_leads_to_the_socket_address() {
    let addr = Addr::SocketAddr(SocketAddr::V4([180, 101, 49, 11], 80));
    match LocalConnector.connect(addr) {
        Target::Socket(SocketAddr::V4(ip, port)) => {
            assert_eq!((ip, port), ([180, 101, 49, 11], 80));
        }
        other => panic!("{:?}", other),
    }
}

#[test]
fn connector_keeps_flow_information_and_scope() {
    let addr = Addr::SocketAddr(SocketAddr::V6([7; 16], 80, 3, 4));
    match LocalConnector.connect(addr) {
        Target::Socket(SocketAddr::V6(ip, port, flowinfo, scope_id)) => {
            assert_eq!((ip, port, flowinfo, scope_id), ([7; 16], 80, 3, 4));
        }
        other => panic!("{:?}", other),
    }
}

#[test]
fn connector_leads_to_the_host() {
    match LocalConnector.connect(Addr::DomainName("h\u{f6}st".as_bytes().to_vec(), 81)) {
        Target::Host(name, port) => {
            assert_eq!(name, "h\u{f6}st");
            assert_eq!(port, 81);
        }
        other => panic!("{:?}", other),
    }
}

#[test]
fn connector_leads_nowhere_without_utf8() {
    let mut connector = LocalConnector;
    assert!(connector.try_connect(Addr::DomainName(vec![b'a', 0xff], 80)).is_none());
    assert!(connector.try_connect(Addr::DomainName(b"a".to_vec(), 80)).is_some());
}

#[test]
fn stream_errors_become_connection_errors() {
    match Error::from(failure()) {
        Error::IoError(err) => assert_eq!(err.kind(), io::ErrorKind::BrokenPipe),
        other => panic!("{:?}", other),
    }
}
