//! The messages of the SOCKS protocol, version 5.
//!
//! A client opens with a greeting that lists authentication methods, the server answers with the
//! method it selects, the client sends a request, and the server answers with a reply. Numbers of
//! two bytes are sent most significant byte first. Bytes behind the end of a message are not
//! looked at.
use crate::buffer::{be16, bytes_of, can_grow, put_slice, put_u16, put_u8};
use crate::error::Error;
use bytes::BytesMut;
use vstd::prelude::*;

verus! {

/// The protocol version.
#[derive(Clone, Copy, Debug, PartialEq, Eq, Structural)]
pub enum Version {
    /// Version 5.
    V5,
}

/// An authentication method, by its code.
#[derive(Clone, Copy, Debug, PartialEq, Eq, Structural)]
pub struct Method(pub u8);

/// What a request asks for.
#[derive(Clone, Copy, Debug, PartialEq, Eq, Structural)]
pub enum Command {
    /// Open a connection to the address.
    Connect,
    /// Accept a connection from the address.
    Bind,
    /// Relay datagrams.
    UdpAssociate,
}

/// How a request ended.
#[derive(Clone, Copy, Debug, PartialEq, Eq, Structural)]
pub enum Reply {
    /// The request was granted.
    Succeeded,
    /// The server failed.
    GeneralFailure,
    /// The rules of the server forbid the connection.
    NotAllowed,
    /// The network cannot be reached.
    NetworkUnreachable,
    /// The host cannot be reached.
    HostUnreachable,
    /// The host refused the connection.
    ConnectionRefused,
    /// The time to live ran out.
    TtlExpired,
    /// The server does not carry out such commands.
    CommandNotSupported,
    /// The server does not take such addresses.
    AddrTypeNotSupported,
}

/// The address of a socket.
#[derive(Clone, Copy, Debug)]
pub enum SocketAddr {
    /// The four bytes of an IPv4 address, and a port.
    V4([u8; 4], u16),
    /// The sixteen bytes of an IPv6 address, a port, the flow information and the scope id. The last
    /// two are not sent in messages.
    V6([u8; 16], u16, u32, u32),
}

/// Where a request leads.
#[derive(Debug)]
pub enum Addr {
    /// A socket address.
    SocketAddr(SocketAddr),
    /// The bytes of a host name, and a port.
    DomainName(Vec<u8>, u16),
}

/// The model of an [`Addr`].
pub enum AddrView {
    /// An IPv4 address and a port.
    V4(Seq<u8>, u16),
    /// An IPv6 address, a port, the flow information and the scope id.
    V6(Seq<u8>, u16, u32, u32),
    /// A host name and a port.
    Domain(Seq<u8>, u16),
}

impl AddrView {
    /// The address is one that a message can hold: the length of a host name is sent in one byte.
    pub open spec fn wf(self) -> bool {
        match self {
            AddrView::V4(ip, _) => ip.len() == 4,
            AddrView::V6(ip, ..) => ip.len() == 16,
            AddrView::Domain(host, _) => host.len() <= 255,
        }
    }

    /// What a message holds of the address: all but flow information and scope id.
    pub open spec fn sent(self) -> AddrView {
        match self {
            AddrView::V6(ip, port, _, _) => AddrView::V6(ip, port, 0, 0),
            _ => self,
        }
    }
}

impl View for Addr {
    type V = AddrView;

    open spec fn view(&self) -> AddrView {
        match self {
            Addr::SocketAddr(SocketAddr::V4(ip, port)) => AddrView::V4(ip@, *port),
            Addr::SocketAddr(SocketAddr::V6(ip, port, flowinfo, scope_id)) => AddrView::V6(
                ip@,
                *port,
                *flowinfo,
                *scope_id,
            ),
            Addr::DomainName(host, port) => AddrView::Domain(host@, *port),
        }
    }
}

impl Clone for Addr {
    fn clone(&self) -> (addr: Self)
        ensures
            addr@ == self@,
    {
        match self {
            Addr::SocketAddr(socket) => Addr::SocketAddr(*socket),
            Addr::DomainName(host, port) => {
                let copy: Vec<u8> = host.clone();
                assert(copy@ =~= host@);
                Addr::DomainName(copy, *port)
            },
        }
    }
}

/// The byte that stands for a version.
pub open spec fn version_code(version: Version) -> u8 {
    5
}

/// The byte that stands for a reply.
pub open spec fn reply_code(reply: Reply) -> u8 {
    match reply {
        Reply::Succeeded => 0,
        Reply::GeneralFailure => 1,
        Reply::NotAllowed => 2,
        Reply::NetworkUnreachable => 3,
        Reply::HostUnreachable => 4,
        Reply::ConnectionRefused => 5,
        Reply::TtlExpired => 6,
        Reply::CommandNotSupported => 7,
        Reply::AddrTypeNotSupported => 8,
    }
}

/// The command that a byte stands for.
pub open spec fn command_of(code: u8) -> Option<Command> {
    if code == 1 {
        Some(Command::Connect)
    } else if code == 2 {
        Some(Command::Bind)
    } else if code == 3 {
        Some(Command::UdpAssociate)
    } else {
        None
    }
}

/// The address as it is sent: its type, its bytes and its port.
pub open spec fn encode_addr(addr: AddrView) -> Seq<u8> {
    match addr {
        AddrView::V4(ip, port) => seq![1u8] + ip + be16(port),
        AddrView::V6(ip, port, _, _) => seq![4u8] + ip + be16(port),
        AddrView::Domain(host, port) => seq![3u8, host.len() as u8] + host + be16(port),
    }
}

/// The message that selects a method.
pub open spec fn encode_method_select(version: Version, method: Method) -> Seq<u8> {
    seq![version_code(version), method.0]
}

/// The message that answers a request.
pub open spec fn encode_reply(version: Version, reply: Reply, addr: AddrView) -> Seq<u8> {
    seq![version_code(version), reply_code(reply), 0u8] + encode_addr(addr)
}

/// The port that the two bytes at `at` stand for.
pub open spec fn port_at(bytes: Seq<u8>, at: int) -> u16 {
    (bytes[at] * 256 + bytes[at + 1]) as u16
}

/// The address at the start of `bytes`, or why there is none.
pub open spec fn decode_addr(bytes: Seq<u8>) -> Result<AddrView, Error> {
    if bytes.len() == 0 {
        Err(Error::Incomplete)
    } else if bytes[0] == 1 {
        if bytes.len() < 7 {
            Err(Error::Incomplete)
        } else {
            Ok(AddrView::V4(bytes.subrange(1, 5), port_at(bytes, 5)))
        }
    } else if bytes[0] == 3 {
        if bytes.len() < 2 || bytes.len() < 4 + bytes[1] {
            Err(Error::Incomplete)
        } else {
            Ok(AddrView::Domain(bytes.subrange(2, 2 + bytes[1]), port_at(bytes, 2 + bytes[1])))
        }
    } else if bytes[0] == 4 {
        if bytes.len() < 19 {
            Err(Error::Incomplete)
        } else {
            Ok(AddrView::V6(bytes.subrange(1, 17), port_at(bytes, 17), 0, 0))
        }
    } else {
        Err(Error::UnsupportedAddrType(bytes[0]))
    }
}

/// The version and the methods of the greeting at the start of `bytes`, or why there is none.
pub open spec fn decode_greeting(bytes: Seq<u8>) -> Result<(Version, Seq<Method>), Error> {
    if bytes.len() == 0 {
        Err(Error::Incomplete)
    } else if bytes[0] != 5 {
        Err(Error::UnsupportedVersion(bytes[0]))
    } else if bytes.len() < 2 {
        Err(Error::Incomplete)
    } else if bytes[1] == 0 {
        Err(Error::NoMethods)
    } else if bytes.len() < 2 + bytes[1] {
        Err(Error::Incomplete)
    } else {
        Ok((Version::V5, Seq::new(bytes[1] as nat, |i: int| Method(bytes[2 + i]))))
    }
}

/// The version, the command and the address of the request at the start of `bytes`, or why there
/// is none.
pub open spec fn decode_request(bytes: Seq<u8>) -> Result<(Version, Command, AddrView), Error> {
    if bytes.len() == 0 {
        Err(Error::Incomplete)
    } else if bytes[0] != 5 {
        Err(Error::UnsupportedVersion(bytes[0]))
    } else if bytes.len() < 2 {
        Err(Error::Incomplete)
    } else {
        match command_of(bytes[1]) {
            None => Err(Error::UnsupportedCommand(bytes[1])),
            Some(command) => if bytes.len() < 3 {
                Err(Error::Incomplete)
            } else {
                match decode_addr(bytes.skip(3)) {
                    Err(err) => Err(err),
                    Ok(addr) => Ok((Version::V5, command, addr)),
                }
            },
        }
    }
}

/// Reads the messages of a client.
pub struct Decoder;

impl Decoder {
    /// The version and the methods of a greeting.
    pub fn parse_connecting(bytes: &[u8]) -> (greeting: Result<(Version, Vec<Method>), Error>)
        ensures
            match greeting {
                Ok((version, methods)) => decode_greeting(bytes@) == Ok::<_, Error>(
                    (version, methods@),
                ),
                Err(err) => decode_greeting(bytes@) == Err::<(Version, Seq<Method>), _>(err),
            },
            greeting matches Ok((_, methods)) ==> methods@.len() > 0,
    {
        if bytes.len() == 0 {
            return Err(Error::Incomplete);
        }
        if bytes[0] != 5 {
            return Err(Error::UnsupportedVersion(bytes[0]));
        }
        if bytes.len() < 2 {
            return Err(Error::Incomplete);
        }
        let count: usize = bytes[1] as usize;
        if count == 0 {
            return Err(Error::NoMethods);
        }
        if bytes.len() < 2 + count {
            return Err(Error::Incomplete);
        }
        let mut methods: Vec<Method> = Vec::new();
        let mut i: usize = 0;
        while i < count
            invariant
                i <= count,
                count == bytes@[1],
                bytes@.len() >= 2 + count,
                methods@.len() == i,
                forall|j: int| 0 <= j < i ==> methods@[j] == Method(bytes@[2 + j]),
            decreases count - i,
        {
            methods.push(Method(bytes[2 + i]));
            i = i + 1;
        }
        assert(methods@ =~= decode_greeting(bytes@)->Ok_0.1);
        Ok((Version::V5, methods))
    }

    /// The version, the command and the address of a request.
    pub fn parse_nego_req(bytes: &[u8]) -> (request: Result<(Version, Command, Addr), Error>)
        ensures
            match request {
                Ok((version, command, addr)) => decode_request(bytes@) == Ok::<_, Error>(
                    (version, command, addr@),
                ),
                Err(err) => decode_request(bytes@) == Err::<(Version, Command, AddrView), _>(err),
            },
            request matches Ok((_, _, addr)) ==> addr@.wf(),
    {
        if bytes.len() == 0 {
            return Err(Error::Incomplete);
        }
        if bytes[0] != 5 {
            return Err(Error::UnsupportedVersion(bytes[0]));
        }
        if bytes.len() < 2 {
            return Err(Error::Incomplete);
        }
        let command: Command = match bytes[1] {
            1 => Command::Connect,
            2 => Command::Bind,
            3 => Command::UdpAssociate,
            code => return Err(Error::UnsupportedCommand(code)),
        };
        if bytes.len() < 3 {
            return Err(Error::Incomplete);
        }
        match Decoder::parse_addr(bytes, 3) {
            Ok(addr) => Ok((Version::V5, command, addr)),
            Err(err) => Err(err),
        }
    }

    /// The address that starts at index `at`.
    fn parse_addr(bytes: &[u8], at: usize) -> (addr: Result<Addr, Error>)
        requires
            at <= bytes@.len(),
        ensures
            match addr {
                Ok(addr) => decode_addr(bytes@.skip(at as int)) == Ok::<_, Error>(addr@),
                Err(err) => decode_addr(bytes@.skip(at as int)) == Err::<AddrView, _>(err),
            },
            addr matches Ok(addr) ==> addr@.wf(),
    {
        let rest: usize = bytes.len() - at;
        let ghost tail = bytes@.skip(at as int);
        if rest == 0 {
            return Err(Error::Incomplete);
        }
        match bytes[at] {
            1 => {
                if rest < 7 {
                    return Err(Error::Incomplete);
                }
                let ip: [u8; 4] = [bytes[at + 1], bytes[at + 2], bytes[at + 3], bytes[at + 4]];
                assert(ip@ =~= tail.subrange(1, 5));
                Ok(Addr::SocketAddr(SocketAddr::V4(ip, Decoder::parse_port(bytes, at + 5))))
            },
            3 => {
                if rest < 2 {
                    return Err(Error::Incomplete);
                }
                let count: usize = bytes[at + 1] as usize;
                if rest < 4 + count {
                    return Err(Error::Incomplete);
                }
                let mut host: Vec<u8> = Vec::new();
                let mut i: usize = 0;
                while i < count
                    invariant
                        i <= count,
                        at + 2 + count <= bytes@.len() <= usize::MAX,
                        host@.len() == i,
                        forall|j: int| 0 <= j < i ==> host@[j] == bytes@[at + 2 + j],
                    decreases count - i,
                {
                    host.push(bytes[at + 2 + i]);
                    i = i + 1;
                }
                assert(host@ =~= tail.subrange(2, 2 + tail[1]));
                Ok(Addr::DomainName(host, Decoder::parse_port(bytes, at + 2 + count)))
            },
            4 => {
                if rest < 19 {
                    return Err(Error::Incomplete);
                }
                let ip: [u8; 16] = [
                    bytes[at + 1],
                    bytes[at + 2],
                    bytes[at + 3],
                    bytes[at + 4],
                    bytes[at + 5],
                    bytes[at + 6],
                    bytes[at + 7],
                    bytes[at + 8],
                    bytes[at + 9],
                    bytes[at + 10],
                    bytes[at + 11],
                    bytes[at + 12],
                    bytes[at + 13],
                    bytes[at + 14],
                    bytes[at + 15],
                    bytes[at + 16],
                ];
                assert(ip@ =~= tail.subrange(1, 17));
                Ok(Addr::SocketAddr(SocketAddr::V6(ip, Decoder::parse_port(bytes, at + 17), 0, 0)))
            },
            code => Err(Error::UnsupportedAddrType(code)),
        }
    }

    /// The port in the two bytes at index `at`.
    fn parse_port(bytes: &[u8], at: usize) -> (port: u16)
        requires
            at + 2 <= bytes@.len(),
        ensures
            port == port_at(bytes@, at as int),
    {
        bytes[at] as u16 * 256 + bytes[at + 1] as u16
    }
}

/// Writes the messages of the server.
pub struct Encoder;

impl Encoder {
    /// Appends the message that selects `method`.
    pub fn encode_method_select_msg(version: Version, method: &Method, buf: &mut BytesMut)
        requires
            can_grow(bytes_of(*old(buf)).len(), 2),
        ensures
            bytes_of(*final(buf)) == bytes_of(*old(buf)) + encode_method_select(version, *method),
    {
        put_u8(buf, Encoder::version_byte(&version));
        put_u8(buf, method.0);
        assert(bytes_of(*buf) =~= bytes_of(*old(buf)) + encode_method_select(version, *method));
    }

    /// Appends the message that answers a request for `addr`.
    pub fn encode_server_reply(version: &Version, reply: &Reply, addr: &Addr, buf: &mut BytesMut)
        requires
            addr@.wf(),
            can_grow(bytes_of(*old(buf)).len(), encode_reply(*version, *reply, addr@).len()),
        ensures
            bytes_of(*final(buf)) == bytes_of(*old(buf)) + encode_reply(*version, *reply, addr@),
    {
        put_u8(buf, Encoder::version_byte(version));
        put_u8(buf, Encoder::reply_byte(reply));
        put_u8(buf, 0);
        match addr {
            Addr::SocketAddr(SocketAddr::V4(ip, port)) => {
                put_u8(buf, 1);
                put_slice(buf, ip);
                put_u16(buf, *port);
            },
            Addr::SocketAddr(SocketAddr::V6(ip, port, _, _)) => {
                put_u8(buf, 4);
                put_slice(buf, ip);
                put_u16(buf, *port);
            },
            Addr::DomainName(host, port) => {
                put_u8(buf, 3);
                put_u8(buf, host.len() as u8);
                put_slice(buf, host);
                put_u16(buf, *port);
            },
        }
        assert(bytes_of(*buf) =~= bytes_of(*old(buf)) + encode_reply(*version, *reply, addr@));
    }

    fn version_byte(version: &Version) -> (code: u8)
        ensures
            code == version_code(*version),
    {
        match version {
            Version::V5 => 5,
        }
    }

    fn reply_byte(reply: &Reply) -> (code: u8)
        ensures
            code == reply_code(*reply),
    {
        match reply {
            Reply::Succeeded => 0,
            Reply::GeneralFailure => 1,
            Reply::NotAllowed => 2,
            Reply::NetworkUnreachable => 3,
            Reply::HostUnreachable => 4,
            Reply::ConnectionRefused => 5,
            Reply::TtlExpired => 6,
            Reply::CommandNotSupported => 7,
            Reply::AddrTypeNotSupported => 8,
        }
    }
}

/// The bytes of a port give the port back.
proof fn lemma_port(bytes: Seq<u8>, at: int, port: u16)
    requires
        0 <= at,
        at + 2 <= bytes.len(),
    ensures
        bytes.subrange(at, at + 2) == be16(port) ==> port_at(bytes, at) == port,
        be16(port_at(bytes, at)) == bytes.subrange(at, at + 2),
{
    let pair = bytes.subrange(at, at + 2);
    assert(pair[0] == bytes[at] && pair[1] == bytes[at + 1]);
    if pair == be16(port) {
        assert(bytes[at] == (port / 256) as u8 && bytes[at + 1] == (port % 256) as u8);
    }
    assert(be16(port_at(bytes, at)) =~= pair);
}

/// An address that a message can hold is read back as it was written, whatever follows it, but for
/// the flow information and the scope id, which are not sent.
pub proof fn lemma_decode_encoded_addr(addr: AddrView, rest: Seq<u8>)
    requires
        addr.wf(),
    ensures
        decode_addr(encode_addr(addr) + rest) == Ok::<_, Error>(addr.sent()),
{
    let bytes = encode_addr(addr) + rest;
    match addr {
        AddrView::V4(ip, port) => {
            assert(bytes.subrange(1, 5) =~= ip);
            assert(bytes.subrange(5, 7) =~= be16(port));
            lemma_port(bytes, 5, port);
        },
        AddrView::V6(ip, port, _, _) => {
            assert(bytes.subrange(1, 17) =~= ip);
            assert(bytes.subrange(17, 19) =~= be16(port));
            lemma_port(bytes, 17, port);
        },
        AddrView::Domain(host, port) => {
            let end = (2 + host.len()) as int;
            assert(bytes[1] == host.len());
            assert(bytes.subrange(2, end) =~= host);
            assert(bytes.subrange(end, end + 2) =~= be16(port));
            lemma_port(bytes, end, port);
        },
    }
}

/// An address that was read is one that a message can hold, and writing it gives the bytes that it
/// was read from.
pub proof fn lemma_encode_decoded_addr(bytes: Seq<u8>, addr: AddrView)
    requires
        decode_addr(bytes) == Ok::<_, Error>(addr),
    ensures
        addr.wf(),
        addr.sent() == addr,
        encode_addr(addr).len() <= bytes.len(),
        encode_addr(addr) == bytes.take(encode_addr(addr).len() as int),
{
    match addr {
        AddrView::V4(ip, port) => {
            lemma_port(bytes, 5, port);
            assert(encode_addr(addr) =~= bytes.take(7));
        },
        AddrView::V6(ip, port, _, _) => {
            lemma_port(bytes, 17, port);
            assert(encode_addr(addr) =~= bytes.take(19));
        },
        AddrView::Domain(host, port) => {
            lemma_port(bytes, 2 + bytes[1], port);
            assert(encode_addr(addr) =~= bytes.take(4 + bytes[1]));
        },
    }
}

/// The reply to a request repeats the version and, byte for byte, the address of the request.
pub proof fn lemma_reply_echoes_request(
    bytes: Seq<u8>,
    version: Version,
    command: Command,
    addr: AddrView,
    reply: Reply,
)
    requires
        decode_request(bytes) == Ok::<_, Error>((version, command, addr)),
    ensures
        ({
            let answer = encode_reply(version, reply, addr);
            &&& answer.len() <= bytes.len()
            &&& answer[0] == bytes[0]
            &&& answer[1] == reply_code(reply)
            &&& answer[2] == 0
            &&& answer.skip(3) == bytes.subrange(3, answer.len() as int)
        }),
{
    let tail = bytes.skip(3);
    lemma_encode_decoded_addr(tail, addr);
    let answer = encode_reply(version, reply, addr);
    assert(answer.skip(3) =~= encode_addr(addr));
    assert(tail.take(encode_addr(addr).len() as int) =~= bytes.subrange(3, answer.len() as int));
}

} // verus!
