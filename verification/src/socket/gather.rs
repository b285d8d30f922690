//! Gather sockets.
use vstd::prelude::*;

use super::codec::{bool_bytes, i32_bytes, str_bytes};
use super::{read_bool, read_i32, read_string, string_result_is, writes, Socket, SocketAction, SocketOption, SocketType, Sockopt};
use crate::error::{ZmqError, ZmqResult};
use crate::sealed;

verus! {

/// Kind of the receiving sockets of the scatter-gather pattern.
pub struct Gather {}

/// A Gather socket.
pub type GatherSocket = Socket<Gather>;

impl sealed::SocketType for Gather {
    open spec fn spec_socket_type() -> SocketType {
        SocketType::Gather
    }

    fn raw_socket_type() -> (r: SocketType) {
        SocketType::Gather
    }
}

impl sealed::ReceiverFlag for Gather {}

/// Builder for [`GatherSocket`].
pub type GatherBuilder = super::builder::SocketBuilder;

} // verus!
