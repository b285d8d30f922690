//! Channel sockets, the thread-safe exclusive pair.
use vstd::prelude::*;

use super::codec::{bool_bytes, i32_bytes, str_bytes};
use super::{read_bool, read_i32, read_string, string_result_is, writes, Socket, SocketAction, SocketOption, SocketType, Sockopt};
use crate::error::{ZmqError, ZmqResult};
use crate::sealed;

verus! {

/// Kind of the sockets of the channel pattern.
pub struct Channel {}

/// A Channel socket.
pub type ChannelSocket = Socket<Channel>;

impl sealed::SocketType for Channel {
    open spec fn spec_socket_type() -> SocketType {
        SocketType::Channel
    }

    fn raw_socket_type() -> (r: SocketType) {
        SocketType::Channel
    }
}

impl sealed::ReceiverFlag for Channel {}

impl sealed::SenderFlag for Channel {}

/// Builder for [`ChannelSocket`].
pub type ChannelBuilder = super::builder::SocketBuilder;

} // verus!
