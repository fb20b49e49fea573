use bytes::{BufMut, BytesMut};
use socks_server::error::Error;
use socks_server::proto::{
    Addr, Command, Decoder, Encoder, Method, Reply, SocketAddr, Version,
};

#[test]
fn it_works() {
    assert_eq!(2 + 2, 4);
}

#[test]
fn test() {
    let mut bytes = BytesMut::with_capacity(100);
    put_u8(1, &mut bytes);
    assert_eq!(1, bytes[0]);
}

fn put_u8(b: u8, buf: &mut impl BufMut) {
    buf.put_u8(b);
}

fn reply(reply: Reply, addr: &Addr) -> Vec<u8> {
    let mut buf = BytesMut::new();
    Encoder::encode_server_reply(&Version::V5, &reply, addr, &mut buf);
    buf.to_vec()
}

#[test]
fn greeting_lists_its_methods() {
    let (version, methods) = Decoder::parse_connecting(&[5, 2, 2, 0]).unwrap();
    assert_eq!(version, Version::V5);
    assert_eq!(methods, vec![Method(2), Method(0)]);
}

#[test]
fn greeting_may_be_followed_by_more() {
    let (_, methods) = Decoder::parse_connecting(&[5, 1, 0, 9, 9]).unwrap();
    assert_eq!(methods, vec![Method(0)]);
}

#[test]
fn greeting_errors() {
    assert!(matches!(Decoder::parse_connecting(&[]), Err(Error::Incomplete)));
    assert!(matches!(Decoder::parse_connecting(&[4, 1, 0]), Err(Error::UnsupportedVersion(4))));
    assert!(matches!(Decoder::parse_connecting(&[5]), Err(Error::Incomplete)));
    assert!(matches!(Decoder::parse_connecting(&[5, 0]), Err(Error::NoMethods)));
    assert!(matches!(Decoder::parse_connecting(&[5, 2, 0]), Err(Error::Incomplete)));
}

#[test]
fn request_for_an_ipv4_address() {
    let bytes = [5, 1, 0, 1, 180, 101, 49, 11, 0x1f, 0x90];
    let (version, command, addr) = Decoder::parse_nego_req(&bytes).unwrap();
    assert_eq!(version, Version::V5);
    assert_eq!(command, Command::Connect);
    match addr {
        Addr::SocketAddr(SocketAddr::V4(ip, port)) => {
            assert_eq!(ip, [180, 101, 49, 11]);
            assert_eq!(port, 8080);
        }
        other => panic!("{:?}", other),
    }
}

#[test]
fn request_for_an_ipv6_address() {
    let bytes = [5, 3, 0, 4, 0, 1, 2, 3, 4, 5, 6, 7, 8, 9, 10, 11, 12, 13, 14, 15, 0, 53];
    let (_, command, addr) = Decoder::parse_nego_req(&bytes).unwrap();
    assert_eq!(command, Command::UdpAssociate);
    match addr {
        Addr::SocketAddr(SocketAddr::V6(ip, port, flowinfo, scope_id)) => {
            assert_eq!(ip, [0, 1, 2, 3, 4, 5, 6, 7, 8, 9, 10, 11, 12, 13, 14, 15]);
            assert_eq!(port, 53);
            assert_eq!((flowinfo, scope_id), (0, 0));
        }
        other => panic!("{:?}", other),
    }
}

#[test]
fn request_for_a_host_name() {
    let bytes = [5, 2, 0, 3, 4, b'h', b'o', b's', b't', 0, 80];
    let (_, command, addr) = Decoder::parse_nego_req(&bytes).unwrap();
    assert_eq!(command, Command::Bind);
    match addr {
        Addr::DomainName(host, port) => {
            assert_eq!(host, b"host".to_vec());
            assert_eq!(port, 80);
        }
        other => panic!("{:?}", other),
    }
}

#[test]
fn request_errors() {
    let parse = |bytes: &[u8]| Decoder::parse_nego_req(bytes);
    assert!(matches!(parse(&[]), Err(Error::Incomplete)));
    assert!(matches!(parse(&[4, 1]), Err(Error::UnsupportedVersion(4))));
    assert!(matches!(parse(&[5]), Err(Error::Incomplete)));
    assert!(matches!(parse(&[5, 9, 0, 1]), Err(Error::UnsupportedCommand(9))));
    assert!(matches!(parse(&[5, 1]), Err(Error::Incomplete)));
    assert!(matches!(parse(&[5, 1, 0]), Err(Error::Incomplete)));
    assert!(matches!(parse(&[5, 1, 0, 2]), Err(Error::UnsupportedAddrType(2))));
    assert!(matches!(parse(&[5, 1, 0, 1, 1, 2, 3, 4, 0]), Err(Error::Incomplete)));
    assert!(matches!(parse(&[5, 1, 0, 3]), Err(Error::Incomplete)));
    assert!(matches!(parse(&[5, 1, 0, 3, 2, b'a', b'b', 0]), Err(Error::Incomplete)));
    assert!(matches!(parse(&[5, 1, 0, 4, 1, 2]), Err(Error::Incomplete)));
}

#[test]
fn method_selection_is_appended() {
    let mut buf = BytesMut::from(&b"x"[..]);
    Encoder::encode_method_select_msg(Version::V5, &Method(2), &mut buf);
    assert_eq!(&buf[..], &[b'x', 5, 2]);
}

#[test]
fn replies_have_their_codes() {
    let addr = Addr::SocketAddr(SocketAddr::V4([1, 2, 3, 4], 0x0506));
    assert_eq!(reply(Reply::Succeeded, &addr), vec![5, 0, 0, 1, 1, 2, 3, 4, 5, 6]);
    assert_eq!(reply(Reply::GeneralFailure, &addr)[1], 1);
    assert_eq!(reply(Reply::NotAllowed, &addr)[1], 2);
    assert_eq!(reply(Reply::NetworkUnreachable, &addr)[1], 3);
    assert_eq!(reply(Reply::HostUnreachable, &addr)[1], 4);
    assert_eq!(reply(Reply::ConnectionRefused, &addr)[1], 5);
    assert_eq!(reply(Reply::TtlExpired, &addr)[1], 6);
    assert_eq!(reply(Reply::CommandNotSupported, &addr)[1], 7);
    assert_eq!(reply(Reply::AddrTypeNotSupported, &addr)[1], 8);
}

#[test]
fn reply_repeats_the_address_of_the_request() {
    let requests: Vec<Vec<u8>> = vec![
        vec![5, 1, 0, 1, 9, 8, 7, 6, 255, 254],
        vec![5, 1, 0, 3, 0, 0, 1],
        vec![5, 1, 0, 3, 3, b'a', 0xff, b'c', 12, 13],
        vec![5, 1, 0, 4, 1, 2, 3, 4, 5, 6, 7, 8, 9, 10, 11, 12, 13, 14, 15, 16, 17, 18],
    ];
    for request in requests {
        let (_, _, addr) = Decoder::parse_nego_req(&request).unwrap();
        let answer = reply(Reply::Succeeded, &addr);
        assert_eq!(answer[..3], [5, 0, 0]);
        assert_eq!(answer[3..], request[3..]);
    }
}

#[test]
fn addresses_survive_a_round_trip() {
    let host = vec![b'h'; 255];
    let written = reply(Reply::Succeeded, &Addr::DomainName(host.clone(), 443));
    let mut request = written.clone();
    request[1] = 1;
    request.extend([1, 2, 3]);
    match Decoder::parse_nego_req(&request).unwrap().2 {
        Addr::DomainName(read, port) => {
            assert_eq!(read, host);
            assert_eq!(port, 443);
        }
        other => panic!("{:?}", other),
    }
    assert_eq!(written.len(), 262);
}

#[test]
fn a_clone_is_the_same_address() {
    let addr = Addr::DomainName(b"example".to_vec(), 99);
    assert_eq!(reply(Reply::Succeeded, &addr.clone()), reply(Reply::Succeeded, &addr));
    assert_eq!(format!("{:?}", addr.clone()), format!("{:?}", addr));
}

#[test]
fn flow_information_and_scope_are_not_sent() {
    let with = Addr::SocketAddr(SocketAddr::V6([1; 16], 80, 3, 4));
    let without = Addr::SocketAddr(SocketAddr::V6([1; 16], 80, 0, 0));
    assert_eq!(reply(Reply::Succeeded, &with), reply(Reply::Succeeded, &without));
    assert_eq!(reply(Reply::Succeeded, &with).len(), 22);
}
