//! Exclusive pair sockets.
use vstd::prelude::*;

use super::codec::{bool_bytes, i32_bytes, str_bytes};
use super::{read_bool, read_i32, read_string, string_result_is, writes, Socket, SocketAction, SocketOption, SocketType, Sockopt};
use crate::error::{ZmqError, ZmqResult};
use crate::sealed;

verus! {

/// Kind of the sockets of the exclusive pair pattern.
pub struct Pair {}

/// A Pair socket.
pub type PairSocket = Socket<Pair>;

impl sealed::SocketType for Pair {
    open spec fn spec_socket_type() -> SocketType {
        SocketType::Pair
    }

    fn raw_socket_type() -> (r: SocketType) {
        SocketType::Pair
    }
}

impl sealed::ReceiverFlag for Pair {}

impl sealed::SenderFlag for Pair {}

/// Builder for [`PairSocket`].
pub type PairBuilder = super::builder::SocketBuilder;

} // verus!
