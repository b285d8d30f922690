//! Marker traits that tie socket kinds to what they can do.
use vstd::prelude::*;

verus! {

/// Socket kinds that can receive messages.
pub trait ReceiverFlag {}

/// Socket kinds that can send messages.
pub trait SenderFlag {}

/// Socket kinds, each with the 0MQ socket type it is created as.
pub trait SocketType {
    /// The 0MQ socket type of this kind.
    spec fn spec_socket_type() -> crate::socket::SocketType;

    /// The 0MQ socket type of this kind.
    fn raw_socket_type() -> (r: crate::socket::SocketType)
        ensures
            r == Self::spec_socket_type(),
    ;
}

} // verus!
