//! Opening remote connections.
use crate::proto::{Addr, SocketAddr};
use vstd::prelude::*;
use vstd::utf8::{decode_utf8, valid_utf8};

verus! {

/// Opens remote connections from the machine that the server runs on.
#[derive(Clone, Debug)]
pub struct LocalConnector;

/// What a remote connection is opened to.
#[derive(Debug)]
pub enum Target {
    /// A socket address.
    Socket(SocketAddr),
    /// A host name that is still to be resolved, and a port.
    Host(String, u16),
}

/// `String::from_utf8`: the string whose UTF-8 encoding the bytes are, if there is one.
#[verifier::external_body]
fn string_from_utf8(bytes: Vec<u8>) -> (string: Option<String>)
    ensures
        string is Some <==> valid_utf8(bytes@),
        string matches Some(string) ==> string@ == decode_utf8(bytes@),
{
    String::from_utf8(bytes).ok()
}

impl LocalConnector {
    /// What a request for the address `a` leads to. A host name has to be UTF-8.
    pub fn connect(&mut self, a: Addr) -> (target: Target)
        requires
            a matches Addr::DomainName(host, _) ==> valid_utf8(host@),
        ensures
            match a {
                Addr::SocketAddr(addr) => target == Target::Socket(addr),
                Addr::DomainName(host, port) => target matches Target::Host(name, to) && name@
                    == decode_utf8(host@) && to == port,
            },
    {
        self.try_connect(a).unwrap()
    }

    /// What a request for the address `a` leads to, or nothing if it has a host name that is not
    /// UTF-8.
    pub fn try_connect(&mut self, a: Addr) -> (target: Option<Target>)
        ensures
            match a {
                Addr::SocketAddr(addr) => target == Some(Target::Socket(addr)),
                Addr::DomainName(host, port) => if valid_utf8(host@) {
                    target matches Some(Target::Host(name, to)) && name@ == decode_utf8(host@)
                        && to == port
                } else {
                    target is None
                },
            },
    {
        match a {
            Addr::SocketAddr(addr) => Some(Target::Socket(addr)),
            Addr::DomainName(host, port) => match string_from_utf8(host) {
                Some(name) => Some(Target::Host(name, port)),
                None => None,
            },
        }
    }
}

} // verus!
