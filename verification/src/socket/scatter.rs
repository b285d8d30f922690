//! Scatter sockets.
use vstd::prelude::*;

use super::codec::{bool_bytes, i32_bytes, str_bytes};
use super::{read_bool, read_i32, read_string, string_result_is, writes, Socket, SocketAction, SocketOption, SocketType, Sockopt};
use crate::error::{ZmqError, ZmqResult};
use crate::sealed;

verus! {

/// Kind of the sending sockets of the scatter-gather pattern.
pub struct Scatter {}

/// A Scatter socket.
pub type ScatterSocket = Socket<Scatter>;

impl sealed::SocketType for Scatter {
    open spec fn spec_socket_type() -> SocketType {
        SocketType::Scatter
    }

    fn raw_socket_type() -> (r: SocketType) {
        SocketType::Scatter
    }
}

impl sealed::SenderFlag for Scatter {}

/// Builder for [`ScatterSocket`].
pub type ScatterBuilder = super::builder::SocketBuilder;

} // verus!
