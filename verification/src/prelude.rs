//! The items most programs need, for a glob import.
pub use crate::error::{ZmqError, ZmqResult};
pub use crate::message::{Message, MultipartMessage, Sendable};
pub use crate::socket::{
    ChannelBuilder, ChannelSocket, DishBuilder, DishSocket, GatherBuilder, GatherSocket,
    MonitorFlags, MonitorSocket, MonitorSocketEvent, PairBuilder, PairSocket, PeerBuilder,
    PeerSocket, PollEvents, PullBuilder, PullSocket, RecvFlags, RouterBuilder, RouterSocket,
    ScatterBuilder, ScatterSocket, SendFlags, Socket, SocketAction, SocketBuilder, SocketOption,
    Sockopt, SubscribeBuilder, SubscribeSocket, XSubscribeBuilder, XSubscribeSocket,
};
pub use crate::socket::monitor::MonitorReceiver;
