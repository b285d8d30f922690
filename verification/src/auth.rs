//! ZAP authentication domains.
use vstd::prelude::*;

use crate::sealed;
use crate::socket::codec::str_bytes;
use crate::socket::{writes, Socket, SocketOption, Sockopt};

verus! {

/// An RFC 27 authentication domain that a socket belongs to.
#[derive(Debug, Clone, PartialEq, Eq, Hash)]
pub struct ZapDomain {
    domain: String,
}

impl View for ZapDomain {
    type V = Seq<char>;

    closed spec fn view(&self) -> Seq<char> {
        self.domain@
    }
}

impl ZapDomain {
    /// Creates the domain of the given name.
    pub fn new(domain: String) -> (r: Self)
        ensures
            r@ == domain@,
    {
        ZapDomain { domain }
    }

    /// The name of the domain.
    pub fn as_str(&self) -> (r: &str)
        ensures
            r@ == self@,
    {
        self.domain.as_str()
    }

    /// The option write that puts this domain on a socket (`ZapDomain`).
    pub fn apply<T: sealed::SocketType>(&self, socket: &Socket<T>) -> (r: Sockopt)
        ensures
            writes(r, SocketOption::ZapDomain, str_bytes(self@)),
    {
        socket.set_sockopt_string(SocketOption::ZapDomain, self.domain.as_str())
    }
}

impl vstd::std_specs::convert::FromSpecImpl<&str> for ZapDomain {
    open spec fn obeys_from_spec() -> bool {
        false
    }

    open spec fn from_spec(v: &str) -> ZapDomain {
        arbitrary()
    }
}

impl From<&str> for ZapDomain {
    /// The domain of the given name.
    fn from(domain: &str) -> (r: Self)
        ensures
            r@ == domain@,
    {
        ZapDomain { domain: domain.to_owned() }
    }
}

} // verus!
