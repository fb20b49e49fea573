//! What the library promises, said of the bytes that are sent and received and of the events that
//! happen.
use crate::buffer::{be16, bytes_of, can_grow};
use crate::conn::{
    Connecting, ConnectingEvent, ConnectingState, ConnectingStateView, ConnectingView,
};
use crate::error::Error;
use crate::poll::{Action, ActionView, Await, Event, Poll, Progress};
use crate::proto::{
    decode_addr, decode_greeting, decode_request, encode_addr, encode_method_select, encode_reply,
    Addr, AddrView, Command, Method, Reply, SocketAddr, Version,
};
use crate::proxy::{proxy_run, proxy_step, ProxyAction, ProxyEvent, ProxyTurn};
use crate::server::{Conn, ConnEvent, ConnView, State};
use vstd::prelude::*;

verus! {

// Messages.

/// A number of two bytes is sent as two bytes, of which the first counts 256 times as much.
pub proof fn lemma_number_bytes(n: u16)
    ensures
        be16(n).len() == 2,
        be16(n)[0] * 256 + be16(n)[1] == n,
{
}

/// The methods of a greeting are its bytes in the order sent: any 1 to 255 codes behind the version
/// and their number are read as they are, whatever follows them.
pub proof fn lemma_greeting_methods(codes: Seq<u8>, rest: Seq<u8>)
    requires
        1 <= codes.len() <= 255,
    ensures
        ({
            let greeting = decode_greeting(seq![5u8, codes.len() as u8] + codes + rest);
            &&& greeting is Ok
            &&& greeting->Ok_0.0 is V5
            &&& greeting->Ok_0.1.len() == codes.len()
            &&& forall|i: int|
                0 <= i < codes.len() ==> (#[trigger] greeting->Ok_0.1[i]).0 == codes[i]
        }),
{
    let bytes = seq![5u8, codes.len() as u8] + codes + rest;
    assert(bytes[1] == codes.len());
    assert forall|i: int| 0 <= i < codes.len() implies bytes[2 + i] == codes[i] by {}
}

/// A greeting that is cut off anywhere is incomplete.
pub proof fn lemma_greeting_cut_off(codes: Seq<u8>, kept: int)
    requires
        1 <= codes.len() <= 255,
        0 <= kept < 2 + codes.len(),
    ensures
        decode_greeting((seq![5u8, codes.len() as u8] + codes).take(kept)) == Err::<
            (Version, Seq<Method>),
            _,
        >(Error::Incomplete),
{
}

/// A greeting is refused if it starts with another version, and if it offers nothing; any other that
/// can be read starts with the version and the number of its methods.
pub proof fn lemma_greeting_refused(bytes: Seq<u8>)
    ensures
        bytes.len() == 0 ==> decode_greeting(bytes) == Err::<(Version, Seq<Method>), _>(
            Error::Incomplete,
        ),
        bytes.len() > 0 && bytes[0] != 5 ==> decode_greeting(bytes) == Err::<
            (Version, Seq<Method>),
            _,
        >(Error::UnsupportedVersion(bytes[0])),
        bytes.len() > 1 && bytes[0] == 5 && bytes[1] == 0 ==> decode_greeting(bytes) == Err::<
            (Version, Seq<Method>),
            _,
        >(Error::NoMethods),
        decode_greeting(bytes) is Ok <==> bytes.len() >= 3 && bytes[0] == 5 && bytes[1] > 0
            && bytes.len() >= 2 + bytes[1],
        decode_greeting(bytes) is Ok ==> decode_greeting(bytes)->Ok_0.1.len() == bytes[1]
            && forall|i: int|
            0 <= i < bytes[1] ==> (#[trigger] decode_greeting(bytes)->Ok_0.1[i]).0 == bytes[2 + i],
{
}

/// What an address on the wire is: its first byte tells the type, 1 for the four bytes of an IPv4
/// address, 4 for the sixteen of an IPv6 address, 3 for a host name behind its length; the port
/// comes last.
pub proof fn lemma_addr_bytes(bytes: Seq<u8>)
    ensures
        bytes.len() > 0 && bytes[0] == 1 && bytes.len() >= 7 ==> {
            &&& decode_addr(bytes) matches Ok(AddrView::V4(ip, port))
            &&& ip.len() == 4
            &&& forall|i: int| 0 <= i < 4 ==> #[trigger] ip[i] == bytes[1 + i]
            &&& port == bytes[5] * 256 + bytes[6]
        },
        bytes.len() > 0 && bytes[0] == 4 && bytes.len() >= 19 ==> {
            &&& decode_addr(bytes) matches Ok(AddrView::V6(ip, port, flowinfo, scope_id))
            &&& ip.len() == 16
            &&& forall|i: int| 0 <= i < 16 ==> #[trigger] ip[i] == bytes[1 + i]
            &&& port == bytes[17] * 256 + bytes[18]
            &&& flowinfo == 0 && scope_id == 0
        },
        bytes.len() > 1 && bytes[0] == 3 && bytes.len() >= 4 + bytes[1] ==> {
            &&& decode_addr(bytes) matches Ok(AddrView::Domain(host, port))
            &&& host.len() == bytes[1]
            &&& forall|i: int| 0 <= i < bytes[1] ==> #[trigger] host[i] == bytes[2 + i]
            &&& port == bytes[2 + bytes[1]] * 256 + bytes[3 + bytes[1]]
        },
{
}

/// An address cannot be read if its type is not 1, 3 or 4, and not if it ends early.
pub proof fn lemma_addr_refused(bytes: Seq<u8>)
    ensures
        bytes.len() == 0 ==> decode_addr(bytes) == Err::<AddrView, _>(Error::Incomplete),
        bytes.len() > 0 && bytes[0] != 1 && bytes[0] != 3 && bytes[0] != 4 ==> decode_addr(bytes)
            == Err::<AddrView, _>(Error::UnsupportedAddrType(bytes[0])),
        0 < bytes.len() < 7 && bytes[0] == 1 ==> decode_addr(bytes) == Err::<AddrView, _>(
            Error::Incomplete,
        ),
        0 < bytes.len() < 19 && bytes[0] == 4 ==> decode_addr(bytes) == Err::<AddrView, _>(
            Error::Incomplete,
        ),
        bytes.len() == 1 && bytes[0] == 3 ==> decode_addr(bytes) == Err::<AddrView, _>(
            Error::Incomplete,
        ),
        1 < bytes.len() < 4 + bytes[1] && bytes[0] == 3 ==> decode_addr(bytes) == Err::<
            AddrView,
            _,
        >(Error::Incomplete),
{
}

/// How an IPv4 address is written, byte by byte.
pub proof fn lemma_ipv4_written(ip: Seq<u8>, port: u16)
    requires
        ip.len() == 4,
    ensures
        ({
            let bytes = encode_addr(AddrView::V4(ip, port));
            &&& bytes.len() == 7
            &&& bytes[0] == 1
            &&& forall|i: int| 0 <= i < 4 ==> bytes[1 + i] == #[trigger] ip[i]
            &&& bytes[5] * 256 + bytes[6] == port
        }),
{
    assert(be16(port)[0] * 256 + be16(port)[1] == port);
}

/// How an IPv6 address is written, byte by byte. Flow information and scope id are not written.
pub proof fn lemma_ipv6_written(ip: Seq<u8>, port: u16, flowinfo: u32, scope_id: u32)
    requires
        ip.len() == 16,
    ensures
        ({
            let bytes = encode_addr(AddrView::V6(ip, port, flowinfo, scope_id));
            &&& bytes.len() == 19
            &&& bytes[0] == 4
            &&& forall|i: int| 0 <= i < 16 ==> bytes[1 + i] == #[trigger] ip[i]
            &&& bytes[17] * 256 + bytes[18] == port
        }),
{
    assert(be16(port)[0] * 256 + be16(port)[1] == port);
}

/// How a host name is written, byte by byte.
pub proof fn lemma_host_written(host: Seq<u8>, port: u16)
    requires
        host.len() <= 255,
    ensures
        ({
            let bytes = encode_addr(AddrView::Domain(host, port));
            &&& bytes.len() == host.len() + 4
            &&& bytes[0] == 3
            &&& bytes[1] == host.len()
            &&& forall|i: int| 0 <= i < host.len() ==> bytes[2 + i] == #[trigger] host[i]
            &&& bytes[bytes.len() - 2] * 256 + bytes[bytes.len() - 1] == port
        }),
{
    assert(be16(port)[0] * 256 + be16(port)[1] == port);
}

/// A request can be read if its version is 5, its command is 1, 2 or 3 and the address behind its
/// third byte can be read. The command is decided by the second byte alone and the address by the
/// bytes from the fourth on alone.
pub proof fn lemma_request_fields(bytes: Seq<u8>)
    ensures
        decode_request(bytes) is Ok <==> bytes.len() >= 3 && bytes[0] == 5 && 1 <= bytes[1] <= 3
            && decode_addr(bytes.skip(3)) is Ok,
        decode_request(bytes) matches Ok((version, command, addr)) ==> {
            &&& version is V5
            &&& bytes[1] == 1 <==> command is Connect
            &&& bytes[1] == 2 <==> command is Bind
            &&& bytes[1] == 3 <==> command is UdpAssociate
            &&& decode_addr(bytes.skip(3)) == Ok::<_, Error>(addr)
        },
{
}

/// Any version 5 request with a command of 1 to 3 can be read, whatever its third byte is and
/// whatever follows its address, and names that command and that address.
pub proof fn lemma_request_complete(code: u8, reserved: u8, addr: AddrView, rest: Seq<u8>)
    requires
        1 <= code <= 3,
        addr.wf(),
    ensures
        ({
            let request = decode_request(seq![5u8, code, reserved] + encode_addr(addr) + rest);
            &&& request is Ok
            &&& request->Ok_0.0 is V5
            &&& code == 1 <==> request->Ok_0.1 is Connect
            &&& code == 2 <==> request->Ok_0.1 is Bind
            &&& code == 3 <==> request->Ok_0.1 is UdpAssociate
            &&& request->Ok_0.2 == addr.sent()
        }),
{
    let bytes = seq![5u8, code, reserved] + encode_addr(addr) + rest;
    assert(bytes.skip(3) =~= encode_addr(addr) + rest);
    crate::proto::lemma_decode_encoded_addr(addr, rest);
}

/// A request that cannot be read is refused for the first thing that is wrong with it: its version,
/// its command, its address, or its end.
pub proof fn lemma_request_refused(bytes: Seq<u8>)
    ensures
        bytes.len() == 0 ==> decode_request(bytes) == Err::<(Version, Command, AddrView), _>(
            Error::Incomplete,
        ),
        bytes.len() > 0 && bytes[0] != 5 ==> decode_request(bytes) == Err::<
            (Version, Command, AddrView),
            _,
        >(Error::UnsupportedVersion(bytes[0])),
        bytes.len() == 1 && bytes[0] == 5 ==> decode_request(bytes) == Err::<
            (Version, Command, AddrView),
            _,
        >(Error::Incomplete),
        bytes.len() > 1 && bytes[0] == 5 && !(1 <= bytes[1] <= 3) ==> decode_request(bytes)
            == Err::<(Version, Command, AddrView), _>(Error::UnsupportedCommand(bytes[1])),
        bytes.len() == 2 && bytes[0] == 5 && 1 <= bytes[1] <= 3 ==> decode_request(bytes) == Err::<
            (Version, Command, AddrView),
            _,
        >(Error::Incomplete),
        bytes.len() > 2 && bytes[0] == 5 && 1 <= bytes[1] <= 3 ==> (decode_addr(
            bytes.skip(3),
        ) matches Err(err) ==> decode_request(bytes) == Err::<(Version, Command, AddrView), _>(
            err,
        )),
{
}

/// The message that selects a method is the version and the code of the method.
pub proof fn lemma_selection_bytes(version: Version, method: Method)
    ensures
        encode_method_select(version, method).len() == 2,
        encode_method_select(version, method)[0] == 5,
        encode_method_select(version, method)[1] == method.0,
{
}

/// A reply is the version, the code of the outcome, a zero and the address.
pub proof fn lemma_reply_bytes(version: Version, reply: Reply, addr: AddrView)
    ensures
        ({
            let bytes = encode_reply(version, reply, addr);
            &&& bytes.len() == 3 + encode_addr(addr).len()
            &&& bytes[0] == 5
            &&& reply is Succeeded ==> bytes[1] == 0
            &&& reply is GeneralFailure ==> bytes[1] == 1
            &&& reply is NotAllowed ==> bytes[1] == 2
            &&& reply is NetworkUnreachable ==> bytes[1] == 3
            &&& reply is HostUnreachable ==> bytes[1] == 4
            &&& reply is ConnectionRefused ==> bytes[1] == 5
            &&& reply is TtlExpired ==> bytes[1] == 6
            &&& reply is CommandNotSupported ==> bytes[1] == 7
            &&& reply is AddrTypeNotSupported ==> bytes[1] == 8
            &&& bytes[2] == 0
            &&& forall|i: int|
                0 <= i < encode_addr(addr).len() ==> bytes[3 + i] == #[trigger] encode_addr(addr)[i]
        }),
{
}

/// A message can hold an address if it has as many bytes as its type, a host name at most 255. What
/// is sent of it is all but the flow information and the scope id.
pub proof fn lemma_addr_limits(ip: Seq<u8>, port: u16, flowinfo: u32, scope_id: u32)
    ensures
        AddrView::V4(ip, port).wf() <==> ip.len() == 4,
        AddrView::V6(ip, port, flowinfo, scope_id).wf() <==> ip.len() == 16,
        AddrView::Domain(ip, port).wf() <==> ip.len() <= 255,
        AddrView::V4(ip, port).sent() == AddrView::V4(ip, port),
        AddrView::V6(ip, port, flowinfo, scope_id).sent() == AddrView::V6(ip, port, 0, 0),
        AddrView::Domain(ip, port).sent() == AddrView::Domain(ip, port),
{
}

// Models.

/// The model of an address has its very bytes, port, flow information and scope id.
pub proof fn lemma_addr_model(
    v4: [u8; 4],
    v6: [u8; 16],
    host: Vec<u8>,
    port: u16,
    flowinfo: u32,
    scope_id: u32,
)
    ensures
        Addr::SocketAddr(SocketAddr::V4(v4, port))@ == AddrView::V4(v4@, port),
        Addr::SocketAddr(SocketAddr::V6(v6, port, flowinfo, scope_id))@ == AddrView::V6(
            v6@,
            port,
            flowinfo,
            scope_id,
        ),
        Addr::DomainName(host, port)@ == AddrView::Domain(host@, port),
{
}

/// The model of a connection is made of what its fields hold, and its output is what the write
/// buffer holds.
pub proof fn lemma_conn_model<IO, R, F, C>(conn: Conn<IO, R, F, C>)
    ensures
        conn@.state == conn.state,
        conn@.awaiting == conn.awaiting,
        conn@.remote == conn.remote,
        conn@.remote_fut == conn.remote_fut,
        conn@.ver == conn.ver,
        conn@.addr is Some <==> conn.addr is Some,
        conn.addr matches Some(addr) ==> conn@.addr == Some(addr@),
        conn@.relayed == conn.relayed,
        conn@.out == bytes_of(conn.write_buf),
{
}

/// A connection that is as it should be has an empty read buffer, and what no step touches is the
/// client's stream, the connector and the read buffer.
pub proof fn lemma_conn_ends<IO, R, F, C>(conn: Conn<IO, R, F, C>, other: Conn<IO, R, F, C>)
    ensures
        conn.wf() ==> bytes_of(conn.read_buf).len() == 0 && conn@.inv(),
        conn.same_ends(&other) ==> conn.io == other.io && conn.connector == other.connector
            && conn.read_buf == other.read_buf,
{
}

/// What no step of an opening touches is the client's stream, the connector and the spare buffer; a
/// request gets a clone of the connector and keeps it.
pub proof fn lemma_connecting_ends<IO, C: Clone, O, F>(
    connecting: Connecting<IO, C, O, F>,
    other: Connecting<IO, C, O, F>,
)
    requires
        connecting.same_ends(&other),
    ensures
        connecting.io == other.io,
        connecting.o_buf == other.o_buf,
        connecting.connector == other.connector,
        connecting.state matches ConnectingState::OpenRemote(connect) ==> {
            &&& other.state matches ConnectingState::OpenRemote(before) ==> connect.connector
                == before.connector
            &&& !(other.state is OpenRemote) ==> cloned(other.connector, connect.connector)
        },
{
}

/// The model of an opening is made of what its fields hold.
pub proof fn lemma_connecting_model<IO, C, O, F>(connecting: Connecting<IO, C, O, F>)
    ensures
        connecting@.awaiting == connecting.awaiting,
        connecting@.o == connecting.o,
        connecting@.buf == bytes_of(connecting.buf),
        connecting@.state is Negotiation <==> connecting.state is Negotiation,
        connecting@.state is SubNegotiation <==> connecting.state is SubNegotiation,
        connecting.state matches ConnectingState::OpenRemote(connect)
            ==> connecting@.state == ConnectingStateView::OpenRemote(
            connect.ver,
            connect.addr@,
            connect.remote_fut,
        ),
{
}

/// The model of an action is the same action.
pub proof fn lemma_action_model<T>(action: Action<T>)
    ensures
        action@ is Read <==> action is Read,
        action@ is Write <==> action is Write,
        action@ is Flush <==> action is Flush,
        action@ is PollRemote <==> action is PollRemote,
        action@ is ToRemote <==> action is ToRemote,
        action@ is ToClient <==> action is ToClient,
        action@ is Connect <==> action is Connect,
        action@ is Unimplemented <==> action is Unimplemented,
        action@ is Return <==> action is Return,
        action matches Action::Connect(addr) ==> action@ == ActionView::<T>::Connect(addr@),
        action matches Action::Unimplemented(command) ==> action@ == ActionView::<
            T,
        >::Unimplemented(command),
        action matches Action::Return(progress) ==> action@ == ActionView::Return(progress),
{
}

/// Each thing to wait for is the outcome of one action, and is over with one kind of event.
pub proof fn lemma_waiting<B, R, F>(event: Event<B, R, F>)
    ensures
        Await::Start.expects(event) <==> event is Start,
        Await::Read.expects(event) <==> event is Read,
        Await::Write.expects(event) <==> event is Wrote,
        Await::Flush.expects(event) <==> event is Flushed,
        Await::Connect.expects(event) <==> event is Connecting,
        Await::Remote.expects(event) <==> event is Remote,
        Await::ToRemote.expects(event) <==> event is ToRemote,
        Await::ToClient.expects(event) <==> event is ToClient,
{
}

/// A buffer can grow as long as it stays below a quarter of the largest allocation.
pub proof fn lemma_growth(len: nat, extra: nat)
    ensures
        can_grow(len, extra) <==> 4 * (len + extra) <= isize::MAX,
{
}

// The relay of one direction.

/// What a relay does at each event. It reads only into an empty buffer. What was read is written,
/// even if it is nothing, and what was written is flushed, however much of it was taken. It does not
/// touch the buffer but to empty it after a flush.
pub proof fn lemma_proxy_events(filled: Seq<u8>, event: ProxyEvent)
    ensures
        event is Start && filled.len() == 0 ==> proxy_step(filled, event) == (
            filled,
            ProxyAction::Read,
        ),
        event is Start && filled.len() > 0 ==> proxy_step(filled, event) == (
            filled,
            ProxyAction::Write,
        ),
        event matches ProxyEvent::Read(Poll::Ready(Ok(_))) ==> proxy_step(filled, event) == (
            filled,
            ProxyAction::Write,
        ),
        event matches ProxyEvent::Wrote(Poll::Ready(Ok(_))) ==> proxy_step(filled, event) == (
            filled,
            ProxyAction::Flush,
        ),
        event matches ProxyEvent::Flushed(Poll::Ready(Ok(_))) ==> proxy_step(filled, event) == (
            Seq::<u8>::empty(),
            ProxyAction::Return(Poll::Ready(Ok(()))),
        ),
        (event matches ProxyEvent::Read(Poll::Pending)) || (event matches ProxyEvent::Wrote(
            Poll::Pending,
        )) || (event matches ProxyEvent::Flushed(Poll::Pending)) ==> proxy_step(filled, event) == (
            filled,
            ProxyAction::Return(Poll::Pending),
        ),
        event matches ProxyEvent::Read(Poll::Ready(Err(err))) ==> proxy_step(filled, event) == (
            filled,
            ProxyAction::Return(Poll::Ready(Err(Error::IoError(err)))),
        ),
        event matches ProxyEvent::Wrote(Poll::Ready(Err(err))) ==> proxy_step(filled, event) == (
            filled,
            ProxyAction::Return(Poll::Ready(Err(Error::IoError(err)))),
        ),
        event matches ProxyEvent::Flushed(Poll::Ready(Err(err))) ==> proxy_step(filled, event) == (
            filled,
            ProxyAction::Return(Poll::Ready(Err(Error::IoError(err)))),
        ),
{
}

/// A turn of a relay with an empty buffer succeeds if and only if the read, the write and the flush
/// do, and one with data in the buffer if and only if the write and the flush do. A turn is pending
/// or fails as the first of these operations that does not succeed.
pub proof fn lemma_proxy_outcome(filled: Seq<u8>, turn: ProxyTurn)
    ensures
        ({
            let progress = proxy_run(filled, ProxyEvent::Start, turn).1;
            let read_on = filled.len() > 0 || (turn.read matches Poll::Ready(Ok(_)));
            let wrote = turn.wrote matches Poll::Ready(Ok(_));
            let flushed = turn.flushed matches Poll::Ready(Ok(_));
            &&& (progress matches Poll::Ready(Ok(_))) <==> read_on && wrote && flushed
            &&& !read_on ==> match turn.read {
                Poll::Pending => progress is Pending,
                Poll::Ready(Err(err)) => progress == Poll::Ready(
                    Err::<(), Error>(Error::IoError(err)),
                ),
                _ => true,
            }
            &&& read_on && !wrote ==> match turn.wrote {
                Poll::Pending => progress is Pending,
                Poll::Ready(Err(err)) => progress == Poll::Ready(
                    Err::<(), Error>(Error::IoError(err)),
                ),
                _ => true,
            }
            &&& read_on && wrote && !flushed ==> match turn.flushed {
                Poll::Pending => progress is Pending,
                Poll::Ready(Err(err)) => progress == Poll::Ready(
                    Err::<(), Error>(Error::IoError(err)),
                ),
                _ => true,
            }
        }),
{
    reveal_with_fuel(proxy_run, 4);
}

// The connections of a server's clients.

/// A connection that has just been accepted has everything before it and nothing on record.
pub proof fn lemma_conn_fresh<R, F>()
    ensures
        ({
            let conn = ConnView::<R, F>::fresh();
            &&& conn.state is Negotiation
            &&& conn.awaiting is Start
            &&& conn.remote is None && conn.remote_fut is None
            &&& conn.ver is None && conn.addr is None && conn.relayed is None
            &&& conn.out.len() == 0
            &&& conn.inv()
        }),
{
}

/// What a greeting leads to, by its bytes. If it offers methods the answer is 5 and the first of
/// them, behind whatever the output held; nothing else about the connection changes.
pub proof fn lemma_conn_greeting<R, F>(conn: ConnView<R, F>, received: Vec<u8>)
    requires
        conn.state is Negotiation,
    ensures
        ({
            let (after, action) = conn.step(Event::Read(Poll::Ready(Ok(received))));
            let idle = ConnView { awaiting: Await::Start, ..conn };
            let refused = |err: Error| after == idle && action == ActionView::Return(
                Poll::Ready(Err::<(), _>(err)),
            );
            let bytes = received@;
            if bytes.len() == 0 {
                refused(Error::ConnectionClose)
            } else if bytes[0] != 5 {
                refused(Error::UnsupportedVersion(bytes[0]))
            } else if bytes.len() == 1 {
                refused(Error::Incomplete)
            } else if bytes[1] == 0 {
                refused(Error::NoMethods)
            } else if bytes.len() < 2 + bytes[1] {
                refused(Error::Incomplete)
            } else {
                &&& action is Write
                &&& after.out == conn.out.push(5).push(bytes[2])
                &&& after == ConnView { awaiting: Await::Write, out: after.out, ..conn }
            }
        }),
{
    let bytes = received@;
    if bytes.len() >= 3 && bytes[0] == 5 && bytes[1] > 0 && bytes.len() >= 2 + bytes[1] {
        let (after, _) = conn.step(Event::Read(Poll::Ready(Ok(received))));
        assert(after.out =~= conn.out.push(5).push(bytes[2]));
    }
}

/// What a request leads to. One for command 1 is put on record as it is read, and a connection to
/// its address is begun; one for command 2 or 3 is not carried out; one that cannot be read is
/// refused with the reason. The output stays as it is.
pub proof fn lemma_conn_request<R, F>(conn: ConnView<R, F>, received: Vec<u8>)
    requires
        conn.state is SubNegotiation,
        conn.remote_fut is None,
    ensures
        ({
            let (after, action) = conn.step(Event::Read(Poll::Ready(Ok(received))));
            let idle = ConnView { awaiting: Await::Start, ..conn };
            let bytes = received@;
            &&& bytes.len() == 0 ==> after == idle && action == ActionView::Return(
                Poll::Ready(Err::<(), _>(Error::ConnectionClose)),
            )
            &&& bytes.len() > 0 ==> (decode_request(bytes) matches Err(err) ==> after == idle
                && action == ActionView::Return(Poll::Ready(Err::<(), _>(err))))
            &&& decode_request(bytes) matches Ok((_, command, addr)) ==> {
                &&& bytes[1] == 1 ==> {
                    &&& action == ActionView::<()>::Connect(addr)
                    &&& after == ConnView {
                        state: State::OpenRemote,
                        awaiting: Await::Connect,
                        ver: Some(Version::V5),
                        addr: Some(addr),
                        ..conn
                    }
                }
                &&& bytes[1] == 2 ==> after == idle && action == ActionView::<()>::Unimplemented(
                    Command::Bind,
                )
                &&& bytes[1] == 3 ==> after == idle && action == ActionView::<()>::Unimplemented(
                    Command::UdpAssociate,
                )
            }
        }),
{
}

/// From when a request is on record, no step changes its version or its address, the attempt that
/// was begun for it, or the remote connection that came of it.
pub proof fn lemma_conn_record<R, F>(conn: ConnView<R, F>, event: ConnEvent<R, F>)
    requires
        conn.state is OpenRemote || conn.state is Connected,
    ensures
        ({
            let after = conn.step(event).0;
            &&& after.ver == conn.ver
            &&& after.addr == conn.addr
            &&& !(event is Connecting) ==> after.remote_fut == conn.remote_fut
            &&& !(event is Remote) ==> after.remote == conn.remote && after.out == conn.out
            &&& conn.state is Connected ==> after.state is Connected && after.remote
                == conn.remote && after.remote_fut == conn.remote_fut && after.out == conn.out
        }),
{
}

/// How a remote connection is opened: an attempt is begun, to the address on record, only if there
/// is none; there is one as soon as it has begun; and it is polled in every turn until it is over. It
/// succeeds with the remote connection and a reply of 5, 0, 0 and the address on record.
pub proof fn lemma_conn_opening<R, F>(conn: ConnView<R, F>, event: ConnEvent<R, F>)
    requires
        conn.state is OpenRemote,
        conn.addr is Some,
    ensures
        ({
            let (after, action) = conn.step(event);
            let idle = ConnView { awaiting: Await::Start, ..conn };
            match event {
                Event::Start => if conn.remote_fut is None {
                    &&& action == ActionView::<()>::Connect(conn.addr->0)
                    &&& after == ConnView { awaiting: Await::Connect, ..conn }
                } else {
                    &&& action is PollRemote
                    &&& after == ConnView { awaiting: Await::Remote, ..conn }
                },
                Event::Connecting(remote_fut) => {
                    &&& action is PollRemote
                    &&& after == ConnView {
                        awaiting: Await::Remote,
                        remote_fut: Some(remote_fut),
                        ..conn
                    }
                },
                Event::Remote(Poll::Pending) => after == idle && action == ActionView::Return(
                    Poll::<Result<(), Error>>::Pending,
                ),
                Event::Remote(Poll::Ready(Err(err))) => after == idle && action
                    == ActionView::Return(Poll::Ready(Err::<(), _>(Error::IoError(err)))),
                Event::Remote(Poll::Ready(Ok(remote))) => {
                    let sent = encode_addr(conn.addr->0);
                    &&& action is Write
                    &&& after.out.len() == 3 + sent.len()
                    &&& after.out[0] == 5 && after.out[1] == 0 && after.out[2] == 0
                    &&& forall|i: int|
                        0 <= i < sent.len() ==> after.out[3 + i] == #[trigger] sent[i]
                    &&& after == ConnView {
                        state: State::Connected,
                        awaiting: Await::Write,
                        remote: Some(remote),
                        out: after.out,
                        ..conn
                    }
                },
                _ => true,
            }
        }),
{
}

/// What follows a write or a flush to the client. A write is followed by a flush, however much was
/// taken. After the flush of a selection the request is read; after that of a reply data is passed
/// on. A write or a flush that is not finished ends the turn as pending, and one that fails ends it
/// with its error; then nothing changes.
pub proof fn lemma_conn_written<R, F>(conn: ConnView<R, F>, event: ConnEvent<R, F>)
    requires
        conn.state is Negotiation || conn.state is Connected,
    ensures
        ({
            let (after, action) = conn.step(event);
            let idle = ConnView { awaiting: Await::Start, ..conn };
            match event {
                Event::Wrote(Poll::Ready(Ok(_))) => {
                    &&& action is Flush
                    &&& after == ConnView { awaiting: Await::Flush, ..conn }
                },
                Event::Flushed(Poll::Ready(Ok(_))) => if conn.state is Negotiation {
                    &&& action is Read
                    &&& after == ConnView {
                        state: State::SubNegotiation,
                        awaiting: Await::Read,
                        ..conn
                    }
                } else {
                    &&& action is ToRemote
                    &&& after == ConnView { awaiting: Await::ToRemote, ..conn }
                },
                Event::Wrote(Poll::Pending) | Event::Flushed(Poll::Pending) => after == idle
                    && action == ActionView::Return(Poll::<Result<(), Error>>::Pending),
                Event::Wrote(Poll::Ready(Err(err))) | Event::Flushed(Poll::Ready(Err(err))) => after
                    == idle && action == ActionView::Return(
                    Poll::Ready(Err::<(), _>(Error::IoError(err))),
                ),
                _ => true,
            }
        }),
{
}

/// A turn starts with a read while a message is due. A read that is not finished ends the turn as
/// pending, and one that fails ends it with its error; then nothing changes.
pub proof fn lemma_conn_reading<R, F>(conn: ConnView<R, F>, event: ConnEvent<R, F>)
    requires
        conn.state is Negotiation || conn.state is SubNegotiation,
    ensures
        ({
            let (after, action) = conn.step(event);
            let idle = ConnView { awaiting: Await::Start, ..conn };
            match event {
                Event::Start => action is Read && after == ConnView {
                    awaiting: Await::Read,
                    ..conn
                },
                Event::Read(Poll::Pending) => after == idle && action == ActionView::Return(
                    Poll::<Result<(), Error>>::Pending,
                ),
                Event::Read(Poll::Ready(Err(err))) => after == idle && action
                    == ActionView::Return(Poll::Ready(Err::<(), _>(Error::IoError(err)))),
                _ => true,
            }
        }),
{
}

/// A go of both directions. The one to the remote host comes first and the one to the client after
/// it, whatever came of the first. If the first failed the turn ends with its error, else if the
/// second failed with its. If neither failed and at least one is pending the turn is pending. Only if
/// both succeeded they start over at once.
pub proof fn lemma_conn_relay<R, F>(
    conn: ConnView<R, F>,
    to_remote: Progress<()>,
    to_client: Progress<()>,
)
    requires
        conn.state is Connected,
    ensures
        ({
            let (first, a1) = conn.step(Event::Start);
            let (second, a2) = conn.step(Event::ToRemote(to_remote));
            let (after, a3) = second.step(Event::ToClient(to_client));
            let idle = ConnView { awaiting: Await::Start, relayed: None, ..conn };
            let starts_over = (to_remote matches Poll::Ready(Ok(_))) && (
            to_client matches Poll::Ready(Ok(_)));
            &&& a1 is ToRemote && first == ConnView { awaiting: Await::ToRemote, ..conn }
            &&& a2 is ToClient && second == ConnView {
                awaiting: Await::ToClient,
                relayed: Some(to_remote),
                ..conn
            }
            &&& to_remote matches Poll::Ready(Err(err)) ==> a3 == ActionView::Return(
                Poll::Ready(Err::<(), _>(err)),
            )
            &&& !(to_remote matches Poll::Ready(Err(_))) ==> (to_client matches Poll::Ready(
                Err(err),
            ) ==> a3 == ActionView::Return(Poll::Ready(Err::<(), _>(err))))
            &&& !(to_remote matches Poll::Ready(Err(_))) && !(to_client matches Poll::Ready(
                Err(_),
            )) && (to_remote is Pending || to_client is Pending) ==> a3 == ActionView::Return(
                Poll::<Result<(), Error>>::Pending,
            )
            &&& starts_over <==> a3 is ToRemote
            &&& starts_over ==> after == ConnView { awaiting: Await::ToRemote, ..idle }
            &&& !starts_over ==> after == idle
            &&& a3 matches ActionView::Return(Poll::Ready(Err(err))) ==> to_remote == Poll::Ready(
                Err::<(), _>(err),
            ) || to_client == Poll::Ready(Err::<(), _>(err))
        }),
{
}

/// A phase by itself does what the connection does, but stops with success where the connection goes
/// on to the next phase: when a selection or a reply is flushed, when a request to connect is on
/// record, and when both directions succeeded.
pub proof fn lemma_conn_phases<R, F>(conn: ConnView<R, F>, event: ConnEvent<R, F>)
    ensures
        ({
            let (after, action) = conn.phase_step(event);
            let done = action matches ActionView::Return(Poll::Ready(Ok(_)));
            let idle = ConnView { awaiting: Await::Start, ..conn };
            &&& conn.state is Negotiation ==> conn.negotiation_step(event) == (after, action)
            &&& conn.state is SubNegotiation ==> conn.subnegotiation_step(event) == (after, action)
            &&& conn.state is OpenRemote ==> conn.remote_step(event) == (after, action)
            &&& conn.state is Connected && (event is Wrote || event is Flushed)
                ==> conn.remote_step(event) == (after, action)
            &&& conn.state is Connected && (event is Start || event is ToRemote || event
                is ToClient) ==> conn.connected_step(event) == (after, action)
            &&& !done ==> conn.step(event) == (after, action)
            &&& done ==> conn.step(event) == after.step(Event::Start)
            &&& conn.state is Negotiation ==> (done <==> (event matches Event::Flushed(
                Poll::Ready(Ok(_)),
            )))
            &&& conn.state is Negotiation && done ==> after == ConnView {
                state: State::SubNegotiation,
                ..idle
            }
            &&& conn.state is SubNegotiation ==> (done <==> (event matches Event::Read(
                Poll::Ready(Ok(received)),
            ) && decode_request(received@) is Ok && received@[1] == 1))
            &&& conn.state is SubNegotiation && done ==> after == ConnView {
                state: State::OpenRemote,
                ver: after.ver,
                addr: after.addr,
                ..idle
            }
            &&& (conn.state is Connected && (event is Wrote || event is Flushed)) ==> (done <==> (
            event matches Event::Flushed(Poll::Ready(Ok(_)))))
            &&& (conn.state is Connected && event is ToClient && conn.relayed is Some) ==> (done
                <==> (conn.relayed->0 matches Poll::Ready(Ok(_))) && (
            event matches Event::ToClient(Poll::Ready(Ok(_)))))
            &&& conn.state is Connected && event is Flushed && done ==> after == idle
            &&& conn.state is Connected && event is ToClient && done ==> after == ConnView {
                relayed: None,
                ..idle
            }
        }),
{
}

/// Over any series of events, pending polls and retries among them: a connection that has a request
/// on record received it, in the phase for requests, as a message with 5 and 1 in front, and has its
/// address on record; and once it is connected its output is the reply 5, 0, 0 and then, byte for
/// byte, the address that the message had. The place of the message in the series is given back.
pub proof fn lemma_conn_reply<R, F>(events: Seq<ConnEvent<R, F>>) -> (at: int)
    requires
        ConnView::<R, F>::fresh().takes(events),
    ensures
        ({
            let after = ConnView::<R, F>::fresh().run(events);
            after.state is OpenRemote || after.state is Connected ==> {
                &&& 0 <= at < events.len()
                &&& ConnView::<R, F>::fresh().run(events.take(at)).state is SubNegotiation
                &&& events[at] matches Event::Read(Poll::Ready(Ok(request)))
                &&& request@.len() > 3 && request@[0] == 5 && request@[1] == 1
                &&& after.ver == Some(Version::V5)
                &&& after.addr is Some
                &&& decode_addr(request@.skip(3)) == Ok::<_, Error>(after.addr->0)
                &&& after.state is Connected ==> {
                    &&& after.out.len() <= request@.len()
                    &&& request@[3] == 1 ==> after.out.len() == 10
                    &&& request@[3] == 3 ==> after.out.len() == 7 + request@[4]
                    &&& request@[3] == 4 ==> after.out.len() == 22
                    &&& after.out[0] == 5 && after.out[1] == 0 && after.out[2] == 0
                    &&& forall|i: int|
                        3 <= i < after.out.len() ==> #[trigger] after.out[i] == request@[i]
                }
            }
        }),
    decreases events.len(),
{
    let start = ConnView::<R, F>::fresh();
    let after = start.run(events);
    if events.len() == 0 {
        0
    } else {
        let before = start.run(events.drop_last());
        let event = events.last();
        let found = lemma_conn_reply(events.drop_last());
        ConnView::<R, F>::lemma_run(events.drop_last());
        before.lemma_step_forward(event);
        if before.state is OpenRemote || before.state is Connected {
            assert(events.take(found) =~= events.drop_last().take(found));
            assert(events[found] == events.drop_last()[found]);
            lemma_conn_record(before, event);
            if after.state is Connected && before.state is OpenRemote {
                let request = events[found]->Read_0->Ready_0->Ok_0;
                let addr = after.addr->0;
                let tail = request@.skip(3);
                lemma_conn_opening(before, event);
                crate::proto::lemma_encode_decoded_addr(tail, addr);
                assert forall|i: int| 3 <= i < after.out.len() implies #[trigger] after.out[i]
                    == request@[i] by {
                    assert(after.out[3 + (i - 3)] == encode_addr(addr)[i - 3]);
                    assert(encode_addr(addr)[i - 3] == tail[i - 3]);
                }
                assert(tail[0] == request@[3]);
                if request@[3] == 3 {
                    assert(tail[1] == request@[4]);
                }
            }
            found
        } else {
            assert(events.take(events.len() - 1) =~= events.drop_last());
            events.len() - 1
        }
    }
}

// The opening of a connection.

/// An opening that has not begun has everything before it and nothing on record.
pub proof fn lemma_connecting_fresh<O, F>()
    ensures
        ({
            let opening = ConnectingView::<O, F>::fresh();
            &&& opening.state is Negotiation
            &&& opening.awaiting is Start
            &&& opening.o is None
            &&& opening.buf.len() == 0
            &&& opening.inv()
        }),
{
}

/// What a greeting in the buffer leads to, by its bytes. If it offers methods the answer is 5 and the
/// first of them, in place of the greeting. A read of no bytes means that the stream is closed.
pub proof fn lemma_connecting_greeting<O, F>(opening: ConnectingView<O, F>, n: usize)
    requires
        opening.state is Negotiation,
    ensures
        ({
            let (after, action) = opening.step(Event::Read(Poll::Ready(Ok(n))));
            let refused = |err: Error|
                after == ConnectingView { awaiting: Await::Start, o: None, ..opening } && action
                    == ActionView::Return(Poll::Ready(Err::<O, _>(err)));
            let bytes = opening.buf;
            if n == 0 {
                refused(Error::ConnectionClose)
            } else if bytes.len() == 0 {
                refused(Error::Incomplete)
            } else if bytes[0] != 5 {
                refused(Error::UnsupportedVersion(bytes[0]))
            } else if bytes.len() == 1 {
                refused(Error::Incomplete)
            } else if bytes[1] == 0 {
                refused(Error::NoMethods)
            } else if bytes.len() < 2 + bytes[1] {
                refused(Error::Incomplete)
            } else {
                &&& action is Write
                &&& after.buf == seq![5u8, bytes[2]]
                &&& after == ConnectingView { awaiting: Await::Write, buf: after.buf, ..opening }
            }
        }),
{
}

/// What a request in the buffer leads to. One for command 1 is put on record as it is read, and a
/// connection to its address is begun; one for command 2 or 3 is not carried out; one that cannot be
/// read is refused with the reason. A read of no bytes means that the stream is closed.
pub proof fn lemma_connecting_request<O, F>(opening: ConnectingView<O, F>, n: usize)
    requires
        opening.state is SubNegotiation,
        opening.o is None,
    ensures
        ({
            let (after, action) = opening.step(Event::Read(Poll::Ready(Ok(n))));
            let idle = ConnectingView { awaiting: Await::Start, ..opening };
            let bytes = opening.buf;
            &&& n == 0 ==> after == idle && action == ActionView::Return(
                Poll::Ready(Err::<O, _>(Error::ConnectionClose)),
            )
            &&& n > 0 ==> (decode_request(bytes) matches Err(err) ==> after == idle && action
                == ActionView::Return(Poll::Ready(Err::<O, _>(err))))
            &&& n > 0 ==> (decode_request(bytes) matches Ok((_, _, addr)) ==> {
                &&& bytes[1] == 1 ==> {
                    &&& action == ActionView::<O>::Connect(addr)
                    &&& after == ConnectingView {
                        state: ConnectingStateView::OpenRemote(Version::V5, addr, None),
                        awaiting: Await::Connect,
                        ..opening
                    }
                }
                &&& bytes[1] == 2 ==> after == idle && action == ActionView::<O>::Unimplemented(
                    Command::Bind,
                )
                &&& bytes[1] == 3 ==> after == idle && action == ActionView::<O>::Unimplemented(
                    Command::UdpAssociate,
                )
            })
        }),
{
}

/// How a remote connection is opened: an attempt is begun, to the address on record, only if there
/// is none; there is one as soon as it has begun; and it is polled in every turn until it is over. If
/// it succeeds the client is told, with a reply of 5, 0, 0 and the address on record.
pub proof fn lemma_connecting_opening<O, F>(
    opening: ConnectingView<O, F>,
    version: Version,
    addr: AddrView,
    remote_fut: Option<F>,
    event: ConnectingEvent<O, F>,
)
    requires
        opening.state == ConnectingStateView::OpenRemote(version, addr, remote_fut),
    ensures
        ({
            let (after, action) = opening.step(event);
            let idle = ConnectingView { awaiting: Await::Start, o: None, ..opening };
            match event {
                Event::Start => if remote_fut is None {
                    &&& action == ActionView::<O>::Connect(addr)
                    &&& after == ConnectingView { awaiting: Await::Connect, ..opening }
                } else {
                    &&& action is PollRemote
                    &&& after == ConnectingView { awaiting: Await::Remote, ..opening }
                },
                Event::Connecting(begun) => {
                    &&& action is PollRemote
                    &&& after == ConnectingView {
                        awaiting: Await::Remote,
                        state: ConnectingStateView::OpenRemote(version, addr, Some(begun)),
                        ..opening
                    }
                },
                Event::Remote(Poll::Pending) => after == idle && action == ActionView::Return(
                    Poll::<Result<O, Error>>::Pending,
                ),
                Event::Remote(Poll::Ready(Err(err))) => after == idle && action
                    == ActionView::Return(Poll::Ready(Err::<O, _>(Error::IoError(err)))),
                Event::Remote(Poll::Ready(Ok(remote))) => {
                    let sent = encode_addr(addr);
                    &&& action is Write
                    &&& after.buf.len() == 3 + sent.len()
                    &&& after.buf[0] == 5 && after.buf[1] == 0 && after.buf[2] == 0
                    &&& forall|i: int|
                        0 <= i < sent.len() ==> after.buf[3 + i] == #[trigger] sent[i]
                    &&& after == ConnectingView {
                        awaiting: Await::Write,
                        o: Some(remote),
                        buf: after.buf,
                        ..opening
                    }
                },
                _ => true,
            }
        }),
{
}

/// What follows a write or a flush to the client. A write that takes something is followed by a
/// flush, and one that takes nothing means that the stream is closed. After the flush of a selection
/// the request is read, into an empty buffer; that of a reply ends the opening with the remote
/// connection. A write or a flush that is not finished ends the turn as pending, and one that fails
/// ends it with its error; then the remote connection is dropped and nothing else changes.
pub proof fn lemma_connecting_written<O, F>(
    opening: ConnectingView<O, F>,
    event: ConnectingEvent<O, F>,
)
    requires
        opening.state is Negotiation || opening.state is OpenRemote,
    ensures
        ({
            let (after, action) = opening.step(event);
            let idle = ConnectingView { awaiting: Await::Start, o: None, ..opening };
            match event {
                Event::Wrote(Poll::Ready(Ok(n))) => if n > 0 {
                    &&& action is Flush
                    &&& after == ConnectingView { awaiting: Await::Flush, ..opening }
                } else {
                    &&& action == ActionView::Return(
                        Poll::Ready(Err::<O, _>(Error::ConnectionClose)),
                    )
                    &&& after == idle
                },
                Event::Flushed(Poll::Ready(Ok(_))) => if opening.state is Negotiation {
                    &&& action is Read
                    &&& after == ConnectingView {
                        state: ConnectingStateView::SubNegotiation,
                        awaiting: Await::Read,
                        buf: Seq::empty(),
                        ..opening
                    }
                } else {
                    &&& opening.o matches Some(remote) ==> action == ActionView::Return(
                        Poll::Ready(Ok::<O, Error>(remote)),
                    )
                    &&& after == idle
                },
                Event::Wrote(Poll::Pending) | Event::Flushed(Poll::Pending) => after == idle
                    && action == ActionView::Return(Poll::<Result<O, Error>>::Pending),
                Event::Wrote(Poll::Ready(Err(err))) | Event::Flushed(Poll::Ready(Err(err))) => after
                    == idle && action == ActionView::Return(
                    Poll::Ready(Err::<O, _>(Error::IoError(err))),
                ),
                _ => true,
            }
        }),
{
}

/// A turn starts with a read, into an empty buffer, while a message is due. A read that is not
/// finished ends the turn as pending, and one that fails ends it with its error.
pub proof fn lemma_connecting_reading<O, F>(
    opening: ConnectingView<O, F>,
    event: ConnectingEvent<O, F>,
)
    requires
        opening.state is Negotiation || opening.state is SubNegotiation,
    ensures
        ({
            let (after, action) = opening.step(event);
            let idle = ConnectingView { awaiting: Await::Start, o: None, ..opening };
            match event {
                Event::Start => action is Read && after == ConnectingView {
                    awaiting: Await::Read,
                    buf: Seq::empty(),
                    ..opening
                },
                Event::Read(Poll::Pending) => after == idle && action == ActionView::Return(
                    Poll::<Result<O, Error>>::Pending,
                ),
                Event::Read(Poll::Ready(Err(err))) => after == idle && action
                    == ActionView::Return(Poll::Ready(Err::<O, _>(Error::IoError(err)))),
                _ => true,
            }
        }),
{
}

/// Over any series of events, pending polls and retries among them: an opening that has a request on
/// record received it, in the phase for requests, as a message with 5 and 1 in front, and has the
/// address of that message on record. The place of the message in the series is given back.
pub proof fn lemma_connecting_record<O, F>(events: Seq<(Seq<u8>, ConnectingEvent<O, F>)>) -> (at: int)
    requires
        ConnectingView::<O, F>::fresh().takes(events),
    ensures
        ({
            let after = ConnectingView::<O, F>::fresh().run(events);
            after.state matches ConnectingStateView::OpenRemote(version, addr, _) ==> {
                let (request, event) = events[at];
                &&& 0 <= at < events.len()
                &&& ConnectingView::<O, F>::fresh().run(events.take(at)).state is SubNegotiation
                &&& event matches Event::Read(Poll::Ready(Ok(n)))
                &&& n > 0
                &&& request.len() > 3 && request[0] == 5 && request[1] == 1
                &&& version is V5
                &&& decode_addr(request.skip(3)) == Ok::<_, Error>(addr)
            }
        }),
    decreases events.len(),
{
    let start = ConnectingView::<O, F>::fresh();
    if events.len() == 0 {
        0
    } else {
        let before = start.run(events.drop_last());
        let (buf, event) = events.last();
        let found = lemma_connecting_record(events.drop_last());
        ConnectingView::<O, F>::lemma_run(events.drop_last());
        if before.state is OpenRemote {
            assert(events.take(found) =~= events.drop_last().take(found));
            assert(events[found] == events.drop_last()[found]);
            found
        } else {
            assert(events.take(events.len() - 1) =~= events.drop_last());
            events.len() - 1
        }
    }
}

} // verus!
