//! Verified core of the 0MQ bindings.
use vstd::prelude::*;

pub mod auth;
pub mod error;
pub mod message;
pub mod prelude;
pub mod sealed;
pub mod security;
pub mod socket;

pub use error::{ZmqError, ZmqResult};

verus! {

/// 0MQ capabilities, as `zmq_has` reports them.
#[derive(Debug, Clone, PartialEq, Eq, Structural)]
pub enum Capability {
    /// Whether the library supports the `ipc://` protocol.
    Ipc,
    /// Whether the library supports the `pgm://` protocol.
    Pgm,
    /// Whether the library supports the `tipc://` protocol.
    Tipc,
    /// Whether the library supports the `vmci://` protocol.
    Vmci,
    /// Whether the library supports the `norm://` protocol.
    Norm,
    /// Whether the library supports the CURVE security mechanism.
    Curve,
    /// Whether the library supports the GSSAPI security mechanism.
    GssApi,
    /// Whether the library is built with the draft API.
    Draft,
}

/// The name that `zmq_has` knows a capability by.
pub open spec fn capability_name(capability: Capability) -> Seq<char> {
    match capability {
        Capability::Ipc => "ipc"@,
        Capability::Pgm => "pgm"@,
        Capability::Tipc => "tipc"@,
        Capability::Vmci => "vmci"@,
        Capability::Norm => "norm"@,
        Capability::Curve => "curve"@,
        Capability::GssApi => "gssapi"@,
        Capability::Draft => "draft"@,
    }
}

impl Capability {
    /// The name that `zmq_has` knows this capability by.
    pub fn as_str(&self) -> (r: &'static str)
        ensures
            r@ == capability_name(*self),
    {
        match self {
            Capability::Ipc => "ipc",
            Capability::Pgm => "pgm",
            Capability::Tipc => "tipc",
            Capability::Vmci => "vmci",
            Capability::Norm => "norm",
            Capability::Curve => "curve",
            Capability::GssApi => "gssapi",
            Capability::Draft => "draft",
        }
    }

    /// The name that `zmq_has` knows this capability by, as a `String`.
    pub fn to_string(&self) -> (r: String)
        ensures
            r@ == capability_name(*self),
    {
        self.as_str().to_owned()
    }
}

} // verus!
