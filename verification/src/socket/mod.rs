//! 0MQ sockets.
//!
//! A [`Socket`] here decides what the operations on a 0MQ socket hand to `libzmq` and what
//! they make of its answers: which option number and which bytes a setter writes with
//! `zmq_setsockopt`, how a getter reads the bytes that `zmq_getsockopt` gave back, which
//! endpoint a monitor listens on, and so on. The calls into `libzmq` themselves are made by
//! the caller, which hands the answers back.
use std::marker::PhantomData;

use vstd::prelude::*;

use crate::auth::ZapDomain;
use crate::error::{ZmqError, ZmqResult};
use crate::message::Message;
use crate::sealed;
use crate::security::SecurityMechanism;

pub mod builder;
pub mod channel;
pub mod codec;
pub mod dish;
pub mod flags;
pub mod gather;
pub mod monitor;
pub mod pair;
pub mod peer;
pub mod pull;
pub mod router;
pub mod scatter;
pub mod subscribe;
pub mod xsubscribe;

pub use builder::SocketBuilder;
pub use channel::{Channel, ChannelBuilder, ChannelSocket};
pub use dish::{Dish, DishBuilder, DishSocket};
pub use flags::{MonitorFlags, PollEvents, ReconnectStop, RecvFlags, RouterNotify, SendFlags};
pub use gather::{Gather, GatherBuilder, GatherSocket};
pub use monitor::{HandshakeProtocolError, Monitor, MonitorSocket, MonitorSocketEvent};
pub use pair::{Pair, PairBuilder, PairSocket};
pub use peer::{Peer, PeerBuilder, PeerSocket};
pub use pull::{Pull, PullBuilder, PullSocket};
pub use router::{Router, RouterBuilder, RouterSocket};
pub use scatter::{Scatter, ScatterBuilder, ScatterSocket};
pub use subscribe::{Subscribe, SubscribeBuilder, SubscribeSocket};
pub use xsubscribe::{XSubscribe, XSubscribeBuilder, XSubscribeSocket};

use codec::{bool_bytes, decode_bool, decode_i32, decode_i64, decode_string, decode_u64, decoded_bool, decoded_i32, decoded_i64, decoded_string, decoded_u64, encode_bool, encode_i32, encode_i64, encode_str, encode_u64, i32_bytes, i64_bytes, lemma_bool_round_trip, lemma_i32_round_trip, lemma_i64_round_trip, lemma_string_round_trip, lemma_u64_round_trip, str_bytes, u64_bytes};

verus! {

/// Socket type.
#[derive(Debug, Clone, Copy, PartialEq, Eq, Structural)]
pub enum SocketType {
    /// `ZMQ_PAIR`
    Pair,
    /// `ZMQ_PUB`
    Publish,
    /// `ZMQ_SUB`
    Subscribe,
    /// `ZMQ_REQ`
    Request,
    /// `ZMQ_REP`
    Reply,
    /// `ZMQ_DEALER`
    Dealer,
    /// `ZMQ_ROUTER`
    Router,
    /// `ZMQ_PULL`
    Pull,
    /// `ZMQ_PUSH`
    Push,
    /// `ZMQ_XPUB`
    XPublish,
    /// `ZMQ_XSUB`
    XSubscribe,
    /// `ZMQ_STREAM`
    Stream,
    /// `ZMQ_SERVER`
    Server,
    /// `ZMQ_CLIENT`
    Client,
    /// `ZMQ_RADIO`
    Radio,
    /// `ZMQ_DISH`
    Dish,
    /// `ZMQ_GATHER`
    Gather,
    /// `ZMQ_SCATTER`
    Scatter,
    /// `ZMQ_DGRAM`
    Datagram,
    /// `ZMQ_PEER`
    Peer,
    /// `ZMQ_CHANNEL`
    Channel,
}

impl SocketType {
    /// The number by which 0MQ knows this socket type.
    pub open spec fn spec_raw(self) -> i32 {
        match self {
            SocketType::Pair => 0,
            SocketType::Publish => 1,
            SocketType::Subscribe => 2,
            SocketType::Request => 3,
            SocketType::Reply => 4,
            SocketType::Dealer => 5,
            SocketType::Router => 6,
            SocketType::Pull => 7,
            SocketType::Push => 8,
            SocketType::XPublish => 9,
            SocketType::XSubscribe => 10,
            SocketType::Stream => 11,
            SocketType::Server => 12,
            SocketType::Client => 13,
            SocketType::Radio => 14,
            SocketType::Dish => 15,
            SocketType::Gather => 16,
            SocketType::Scatter => 17,
            SocketType::Datagram => 18,
            SocketType::Peer => 19,
            SocketType::Channel => 20,
        }
    }

    /// The number by which 0MQ knows this socket type.
    pub fn raw(&self) -> (r: i32)
        ensures
            r == self.spec_raw(),
    {
        match self {
            SocketType::Pair => 0,
            SocketType::Publish => 1,
            SocketType::Subscribe => 2,
            SocketType::Request => 3,
            SocketType::Reply => 4,
            SocketType::Dealer => 5,
            SocketType::Router => 6,
            SocketType::Pull => 7,
            SocketType::Push => 8,
            SocketType::XPublish => 9,
            SocketType::XSubscribe => 10,
            SocketType::Stream => 11,
            SocketType::Server => 12,
            SocketType::Client => 13,
            SocketType::Radio => 14,
            SocketType::Dish => 15,
            SocketType::Gather => 16,
            SocketType::Scatter => 17,
            SocketType::Datagram => 18,
            SocketType::Peer => 19,
            SocketType::Channel => 20,
        }
    }
}

/// Options that can be set or retrieved on a 0MQ socket.
#[derive(Debug, Clone, Copy, PartialEq, Eq, Hash, Structural)]
pub enum SocketOption {
    /// I/O thread affinity
    Affinity,
    /// Socket routing id
    RoutingId,
    /// Establish message filter
    Subscribe,
    /// Remove message filter
    Unsubscribe,
    /// Multicast data rate
    Rate,
    /// Multicast recovery interval
    RecoveryInterval,
    /// Kernel transmit buffer size
    SendBuffer,
    /// Kernel receive buffer size
    ReceiveBuffer,
    /// more message data to follow
    ReceiveMore,
    /// File descriptor associated with the socket
    FileDescriptor,
    /// Socket event state
    Events,
    /// Socket type
    Type,
    /// Linger period for socket shutdown
    Linger,
    /// Reconnection interval
    ReconnectInterval,
    /// Maximum length of the queue of outstanding connections
    Backlog,
    /// Maximum reconnection interval
    ReconnectIntervalMax,
    /// Maximum acceptable inbound message size
    MaxMessageSize,
    /// High water mark for outbound messages
    SendHighWatermark,
    /// High water mark for inbound messages
    ReceiveHighWatermark,
    /// Maximum network hops for multicast packets
    MulticastHops,
    /// Maximum time before a socket operation returns with [`Again`](crate::ZmqError::Again)
    ReceiveTimeout,
    /// Maximum time before a socket operation returns with [`Again`](crate::ZmqError::Again)
    SendTimeout,
    /// Last endpoint set
    LastEndpoint,
    /// Accept only routable messages on [`Rocker`](RouterSocket) sockets
    RouterMandatory,
    /// Overrides SO_KEEPALIVE socket option
    TcpKeepalive,
    /// Override TCP_KEEPCNT sockt option
    TcpKeepaliveCount,
    /// Override TCP_KEEPIDLE sockt option
    TcpKeepaliveIdle,
    /// Override TCP_KEEPINTVL sockt option
    TcpKeepaliveInterval,
    /// Assign filters to allow new TCP connections
    TcpAcceptFilter,
    /// Queue messages only to completed connections
    Immediate,
    /// Pass duplicate subscribe messages on [`XPublish`](XPublishSocket) sockets
    XpubVerbose,
    /// IPv6 setting
    IPv6,
    /// Current security mechanism
    Mechanism,
    /// Current PLAIN server role
    PlainServer,
    /// Current PLAIN username
    PlainUsername,
    /// Current PLAIN password
    PlainPassword,
    /// Current CURVE public key
    CurvePublicKey,
    /// Current CURVE secret key
    CurveSecretKey,
    /// Current CURVE server role
    CurveServer,
    /// Current CURVE server key
    CurveServerKey,
    /// Bootstrap connections to [`Router`](RouterSocket) sockets
    ProbeRouter,
    /// Match replies with requests on [`Request`](RequestSocket) sockets
    RequestCorrelate,
    /// Relax strict alternation between reques and reply
    RequestRelaxed,
    /// Keep only last message
    Conflate,
    /// RFC27 authentifcation domain
    ZapDomain,
    /// Handle duplicate client routing ids on [`Router`](RouterSocket) sockets
    RouterHandover,
    /// Type-of-service on the underlying socket
    TypeOfService,
    /// Process ID filters to allow new IPC connections
    IpcFilterProcessId,
    /// User ID filters to allow new IPC connections
    IpcFilterUserId,
    /// Group ID filters to allow new IPC connections
    IpcFilterGroupId,
    /// Next outbound routing id
    ConnectRoutingId,
    /// Maximum handshake interval
    HandshakeInterval,
    /// SOCKS5 proxy address
    SocksProxy,
    /// Do not silently drop message if SendHighWatermark is reached on [`XPublish`](XPublishSocket)
    /// sockets
    XpubNoDrop,
    /// Change the subscription handling to manual
    XpubManual,
    /// Welcome message that will be received by [`Subscribe`](SubscribeSocket) when connecting to a
    /// [`XPublish`](XPublishSocket) socket.
    XpubWelcomeMessage,
    /// Send connect and disconnect notifications
    StreamNotify,
    /// Invert message filtering
    InvertMatching,
    /// Interval between sending ZMTP heartbeats
    HeartbeatInterval,
    /// Time-to-live for ZMTP heartbeats
    HeartbeatTimeToLive,
    /// Timeout for ZMTP heartbeats
    HeartbeatTimeout,
    /// Pass duplicate subscribe and unsubscribe message on [`XPublish`](XPublishSocket) sockets
    XpubVerboser,
    /// Connect timeout
    ConnectTimeout,
    /// TCP maximum retransmit timeout
    MaxTcpRetransmitTimeout,
    /// Maximum transport data unit size for multicast packets
    MulticastMaxTransportDataUnitSize,
    /// Retrieve socket thread-safety
    ThreadSafe,
    /// Buffer size of the VMCI socket
    VmciBufferSize,
    /// Minimum buffer size of the VMCI socket
    VmciBufferMinSize,
    /// Maximum buffer size of the VMCI socket
    VmciBufferMaxSize,
    /// Connection timeout of the VMCI socket
    VmciConntectTimeout,
    /// Retrive the pre-allocated socket file descriptor
    UseFd,
    /// Name of the devive to bind the socket to
    BindToDevice,
    /// Strict ZAP domain handling
    ZapEnforceDomain,
    /// Application metadata properties on the socket
    Metadata,
    /// Control multicast local loopback
    MulticastLoop,
    /// Send connect and disconnect notifications
    RouterNotify,
    /// Change the subscription handling to manual
    XpubManualLastValue,
    /// SOCKS username and select basic authentification
    SocksUsername,
    /// SOCKS basic authentification password
    SocksPassword,
    /// Maximum receive batch size
    InBatchSize,
    /// Maximum send batch size
    OutBatchSize,
    /// Process only first subscribe/unsubscribe in a multipart message
    OnlyFirstSubscribe,
    /// Set condition when reconnection will stop
    ReconnectStop,
    /// Set a hello message that will be sent when a new peer connects
    HelloMessage,
    /// Set a disconnect message that the socket will generate when accepted peer disconnect
    DisconnectMessage,
    /// Set the priority on the socket
    Priority,
    /// This removes delays caused by the interrupt and the resultant context switch
    BusyPoll,
    /// Set a hiccup message that the socket will generate when connected peer temprarily
    /// disconnects
    HiccupMessage,
    /// Pass duplicate unsubscribe messages on [`XSubscribe`](XSubscribeSocket) sockets
    XsubVerboseUnsubscribe,
    /// Number of topic subscriptions received
    TopicsCount,
    /// NORM sender mode
    NormMode,
    /// NORM unicast NACK mode
    NormUnicastNack,
    /// NORM buffer size
    NormBufferSize,
    /// NORM segment size
    NormSegmentSize,
    /// NORM block size
    NormBlockSize,
    /// NORM parity segment setting
    NormNumnParity,
    /// Proactive NORM parity segment setting
    NormNumnAutoParity,
    /// NORM push mode
    NormPush,
}

impl SocketOption {
    /// The number by which 0MQ knows this option.
    pub open spec fn spec_raw(self) -> i32 {
        match self {
            SocketOption::Affinity => 4,
            SocketOption::RoutingId => 5,
            SocketOption::Subscribe => 6,
            SocketOption::Unsubscribe => 7,
            SocketOption::Rate => 8,
            SocketOption::RecoveryInterval => 9,
            SocketOption::SendBuffer => 11,
            SocketOption::ReceiveBuffer => 12,
            SocketOption::ReceiveMore => 13,
            SocketOption::FileDescriptor => 14,
            SocketOption::Events => 15,
            SocketOption::Type => 16,
            SocketOption::Linger => 17,
            SocketOption::ReconnectInterval => 18,
            SocketOption::Backlog => 19,
            SocketOption::ReconnectIntervalMax => 21,
            SocketOption::MaxMessageSize => 22,
            SocketOption::SendHighWatermark => 23,
            SocketOption::ReceiveHighWatermark => 24,
            SocketOption::MulticastHops => 25,
            SocketOption::ReceiveTimeout => 27,
            SocketOption::SendTimeout => 28,
            SocketOption::LastEndpoint => 32,
            SocketOption::RouterMandatory => 33,
            SocketOption::TcpKeepalive => 34,
            SocketOption::TcpKeepaliveCount => 35,
            SocketOption::TcpKeepaliveIdle => 36,
            SocketOption::TcpKeepaliveInterval => 37,
            SocketOption::TcpAcceptFilter => 38,
            SocketOption::Immediate => 39,
            SocketOption::XpubVerbose => 40,
            SocketOption::IPv6 => 42,
            SocketOption::Mechanism => 43,
            SocketOption::PlainServer => 44,
            SocketOption::PlainUsername => 45,
            SocketOption::PlainPassword => 46,
            SocketOption::CurvePublicKey => 48,
            SocketOption::CurveSecretKey => 49,
            SocketOption::CurveServer => 47,
            SocketOption::CurveServerKey => 50,
            SocketOption::ProbeRouter => 51,
            SocketOption::RequestCorrelate => 52,
            SocketOption::RequestRelaxed => 53,
            SocketOption::Conflate => 54,
            SocketOption::ZapDomain => 55,
            SocketOption::RouterHandover => 56,
            SocketOption::TypeOfService => 57,
            SocketOption::IpcFilterProcessId => 58,
            SocketOption::IpcFilterUserId => 59,
            SocketOption::IpcFilterGroupId => 60,
            SocketOption::ConnectRoutingId => 61,
            SocketOption::HandshakeInterval => 66,
            SocketOption::SocksProxy => 68,
            SocketOption::XpubNoDrop => 69,
            SocketOption::XpubManual => 71,
            SocketOption::XpubWelcomeMessage => 72,
            SocketOption::StreamNotify => 73,
            SocketOption::InvertMatching => 74,
            SocketOption::HeartbeatInterval => 75,
            SocketOption::HeartbeatTimeToLive => 76,
            SocketOption::HeartbeatTimeout => 77,
            SocketOption::XpubVerboser => 78,
            SocketOption::ConnectTimeout => 79,
            SocketOption::MaxTcpRetransmitTimeout => 80,
            SocketOption::MulticastMaxTransportDataUnitSize => 84,
            SocketOption::ThreadSafe => 81,
            SocketOption::VmciBufferSize => 85,
            SocketOption::VmciBufferMinSize => 86,
            SocketOption::VmciBufferMaxSize => 87,
            SocketOption::VmciConntectTimeout => 88,
            SocketOption::UseFd => 89,
            SocketOption::BindToDevice => 92,
            SocketOption::ZapEnforceDomain => 93,
            SocketOption::Metadata => 95,
            SocketOption::MulticastLoop => 96,
            SocketOption::RouterNotify => 97,
            SocketOption::XpubManualLastValue => 98,
            SocketOption::SocksUsername => 99,
            SocketOption::SocksPassword => 100,
            SocketOption::InBatchSize => 101,
            SocketOption::OutBatchSize => 102,
            SocketOption::OnlyFirstSubscribe => 108,
            SocketOption::ReconnectStop => 109,
            SocketOption::HelloMessage => 110,
            SocketOption::DisconnectMessage => 111,
            SocketOption::Priority => 112,
            SocketOption::BusyPoll => 113,
            SocketOption::HiccupMessage => 114,
            SocketOption::XsubVerboseUnsubscribe => 115,
            SocketOption::TopicsCount => 116,
            SocketOption::NormMode => 117,
            SocketOption::NormUnicastNack => 118,
            SocketOption::NormBufferSize => 119,
            SocketOption::NormSegmentSize => 120,
            SocketOption::NormBlockSize => 121,
            SocketOption::NormNumnParity => 122,
            SocketOption::NormNumnAutoParity => 123,
            SocketOption::NormPush => 124,
        }
    }

    /// The number by which 0MQ knows this option.
    pub fn raw(&self) -> (r: i32)
        ensures
            r == self.spec_raw(),
    {
        match self {
            SocketOption::Affinity => 4,
            SocketOption::RoutingId => 5,
            SocketOption::Subscribe => 6,
            SocketOption::Unsubscribe => 7,
            SocketOption::Rate => 8,
            SocketOption::RecoveryInterval => 9,
            SocketOption::SendBuffer => 11,
            SocketOption::ReceiveBuffer => 12,
            SocketOption::ReceiveMore => 13,
            SocketOption::FileDescriptor => 14,
            SocketOption::Events => 15,
            SocketOption::Type => 16,
            SocketOption::Linger => 17,
            SocketOption::ReconnectInterval => 18,
            SocketOption::Backlog => 19,
            SocketOption::ReconnectIntervalMax => 21,
            SocketOption::MaxMessageSize => 22,
            SocketOption::SendHighWatermark => 23,
            SocketOption::ReceiveHighWatermark => 24,
            SocketOption::MulticastHops => 25,
            SocketOption::ReceiveTimeout => 27,
            SocketOption::SendTimeout => 28,
            SocketOption::LastEndpoint => 32,
            SocketOption::RouterMandatory => 33,
            SocketOption::TcpKeepalive => 34,
            SocketOption::TcpKeepaliveCount => 35,
            SocketOption::TcpKeepaliveIdle => 36,
            SocketOption::TcpKeepaliveInterval => 37,
            SocketOption::TcpAcceptFilter => 38,
            SocketOption::Immediate => 39,
            SocketOption::XpubVerbose => 40,
            SocketOption::IPv6 => 42,
            SocketOption::Mechanism => 43,
            SocketOption::PlainServer => 44,
            SocketOption::PlainUsername => 45,
            SocketOption::PlainPassword => 46,
            SocketOption::CurvePublicKey => 48,
            SocketOption::CurveSecretKey => 49,
            SocketOption::CurveServer => 47,
            SocketOption::CurveServerKey => 50,
            SocketOption::ProbeRouter => 51,
            SocketOption::RequestCorrelate => 52,
            SocketOption::RequestRelaxed => 53,
            SocketOption::Conflate => 54,
            SocketOption::ZapDomain => 55,
            SocketOption::RouterHandover => 56,
            SocketOption::TypeOfService => 57,
            SocketOption::IpcFilterProcessId => 58,
            SocketOption::IpcFilterUserId => 59,
            SocketOption::IpcFilterGroupId => 60,
            SocketOption::ConnectRoutingId => 61,
            SocketOption::HandshakeInterval => 66,
            SocketOption::SocksProxy => 68,
            SocketOption::XpubNoDrop => 69,
            SocketOption::XpubManual => 71,
            SocketOption::XpubWelcomeMessage => 72,
            SocketOption::StreamNotify => 73,
            SocketOption::InvertMatching => 74,
            SocketOption::HeartbeatInterval => 75,
            SocketOption::HeartbeatTimeToLive => 76,
            SocketOption::HeartbeatTimeout => 77,
            SocketOption::XpubVerboser => 78,
            SocketOption::ConnectTimeout => 79,
            SocketOption::MaxTcpRetransmitTimeout => 80,
            SocketOption::MulticastMaxTransportDataUnitSize => 84,
            SocketOption::ThreadSafe => 81,
            SocketOption::VmciBufferSize => 85,
            SocketOption::VmciBufferMinSize => 86,
            SocketOption::VmciBufferMaxSize => 87,
            SocketOption::VmciConntectTimeout => 88,
            SocketOption::UseFd => 89,
            SocketOption::BindToDevice => 92,
            SocketOption::ZapEnforceDomain => 93,
            SocketOption::Metadata => 95,
            SocketOption::MulticastLoop => 96,
            SocketOption::RouterNotify => 97,
            SocketOption::XpubManualLastValue => 98,
            SocketOption::SocksUsername => 99,
            SocketOption::SocksPassword => 100,
            SocketOption::InBatchSize => 101,
            SocketOption::OutBatchSize => 102,
            SocketOption::OnlyFirstSubscribe => 108,
            SocketOption::ReconnectStop => 109,
            SocketOption::HelloMessage => 110,
            SocketOption::DisconnectMessage => 111,
            SocketOption::Priority => 112,
            SocketOption::BusyPoll => 113,
            SocketOption::HiccupMessage => 114,
            SocketOption::XsubVerboseUnsubscribe => 115,
            SocketOption::TopicsCount => 116,
            SocketOption::NormMode => 117,
            SocketOption::NormUnicastNack => 118,
            SocketOption::NormBufferSize => 119,
            SocketOption::NormSegmentSize => 120,
            SocketOption::NormBlockSize => 121,
            SocketOption::NormNumnParity => 122,
            SocketOption::NormNumnAutoParity => 123,
            SocketOption::NormPush => 124,
        }
    }
}


impl vstd::std_specs::convert::FromSpecImpl<SocketType> for i32 {
    open spec fn obeys_from_spec() -> bool {
        true
    }

    open spec fn from_spec(v: SocketType) -> i32 {
        v.spec_raw()
    }
}

impl From<SocketType> for i32 {
    /// The number of the socket type in `zmq.h`.
    fn from(value: SocketType) -> i32 {
        value.raw()
    }
}

impl vstd::std_specs::convert::FromSpecImpl<SocketOption> for i32 {
    open spec fn obeys_from_spec() -> bool {
        true
    }

    open spec fn from_spec(v: SocketOption) -> i32 {
        v.spec_raw()
    }
}

impl From<SocketOption> for i32 {
    /// The number of the option in `zmq.h`.
    fn from(value: SocketOption) -> i32 {
        value.raw()
    }
}

/// Each socket type opens the `zmq_socket` type that `zmq.h` defines for it: `ZMQ_PAIR` 0,
/// `ZMQ_PUB` 1, `ZMQ_SUB` 2, and so on for every type.
pub proof fn lemma_socket_type_numbers()
    ensures
        SocketType::Pair.spec_raw() == 0,
        SocketType::Publish.spec_raw() == 1,
        SocketType::Subscribe.spec_raw() == 2,
        SocketType::Request.spec_raw() == 3,
        SocketType::Reply.spec_raw() == 4,
        SocketType::Dealer.spec_raw() == 5,
        SocketType::Router.spec_raw() == 6,
        SocketType::Pull.spec_raw() == 7,
        SocketType::Push.spec_raw() == 8,
        SocketType::XPublish.spec_raw() == 9,
        SocketType::XSubscribe.spec_raw() == 10,
        SocketType::Stream.spec_raw() == 11,
        SocketType::Server.spec_raw() == 12,
        SocketType::Client.spec_raw() == 13,
        SocketType::Radio.spec_raw() == 14,
        SocketType::Dish.spec_raw() == 15,
        SocketType::Gather.spec_raw() == 16,
        SocketType::Scatter.spec_raw() == 17,
        SocketType::Datagram.spec_raw() == 18,
        SocketType::Peer.spec_raw() == 19,
        SocketType::Channel.spec_raw() == 20,
{
}

/// Each option is written and read under the option number that `zmq.h` defines for it:
/// `ZMQ_AFFINITY` 4, `ZMQ_SNDHWM` 23, `ZMQ_RCVHWM` 24, and so on for every option.
pub proof fn lemma_option_numbers()
    ensures
        SocketOption::Affinity.spec_raw() == 4,
        SocketOption::RoutingId.spec_raw() == 5,
        SocketOption::Subscribe.spec_raw() == 6,
        SocketOption::Unsubscribe.spec_raw() == 7,
        SocketOption::Rate.spec_raw() == 8,
        SocketOption::RecoveryInterval.spec_raw() == 9,
        SocketOption::SendBuffer.spec_raw() == 11,
        SocketOption::ReceiveBuffer.spec_raw() == 12,
        SocketOption::ReceiveMore.spec_raw() == 13,
        SocketOption::FileDescriptor.spec_raw() == 14,
        SocketOption::Events.spec_raw() == 15,
        SocketOption::Type.spec_raw() == 16,
        SocketOption::Linger.spec_raw() == 17,
        SocketOption::ReconnectInterval.spec_raw() == 18,
        SocketOption::Backlog.spec_raw() == 19,
        SocketOption::ReconnectIntervalMax.spec_raw() == 21,
        SocketOption::MaxMessageSize.spec_raw() == 22,
        SocketOption::SendHighWatermark.spec_raw() == 23,
        SocketOption::ReceiveHighWatermark.spec_raw() == 24,
        SocketOption::MulticastHops.spec_raw() == 25,
        SocketOption::ReceiveTimeout.spec_raw() == 27,
        SocketOption::SendTimeout.spec_raw() == 28,
        SocketOption::LastEndpoint.spec_raw() == 32,
        SocketOption::RouterMandatory.spec_raw() == 33,
        SocketOption::TcpKeepalive.spec_raw() == 34,
        SocketOption::TcpKeepaliveCount.spec_raw() == 35,
        SocketOption::TcpKeepaliveIdle.spec_raw() == 36,
        SocketOption::TcpKeepaliveInterval.spec_raw() == 37,
        SocketOption::TcpAcceptFilter.spec_raw() == 38,
        SocketOption::Immediate.spec_raw() == 39,
        SocketOption::XpubVerbose.spec_raw() == 40,
        SocketOption::IPv6.spec_raw() == 42,
        SocketOption::Mechanism.spec_raw() == 43,
        SocketOption::PlainServer.spec_raw() == 44,
        SocketOption::PlainUsername.spec_raw() == 45,
        SocketOption::PlainPassword.spec_raw() == 46,
        SocketOption::CurvePublicKey.spec_raw() == 48,
        SocketOption::CurveSecretKey.spec_raw() == 49,
        SocketOption::CurveServer.spec_raw() == 47,
        SocketOption::CurveServerKey.spec_raw() == 50,
        SocketOption::ProbeRouter.spec_raw() == 51,
        SocketOption::RequestCorrelate.spec_raw() == 52,
        SocketOption::RequestRelaxed.spec_raw() == 53,
        SocketOption::Conflate.spec_raw() == 54,
        SocketOption::ZapDomain.spec_raw() == 55,
        SocketOption::RouterHandover.spec_raw() == 56,
        SocketOption::TypeOfService.spec_raw() == 57,
        SocketOption::IpcFilterProcessId.spec_raw() == 58,
        SocketOption::IpcFilterUserId.spec_raw() == 59,
        SocketOption::IpcFilterGroupId.spec_raw() == 60,
        SocketOption::ConnectRoutingId.spec_raw() == 61,
        SocketOption::HandshakeInterval.spec_raw() == 66,
        SocketOption::SocksProxy.spec_raw() == 68,
        SocketOption::XpubNoDrop.spec_raw() == 69,
        SocketOption::XpubManual.spec_raw() == 71,
        SocketOption::XpubWelcomeMessage.spec_raw() == 72,
        SocketOption::StreamNotify.spec_raw() == 73,
        SocketOption::InvertMatching.spec_raw() == 74,
        SocketOption::HeartbeatInterval.spec_raw() == 75,
        SocketOption::HeartbeatTimeToLive.spec_raw() == 76,
        SocketOption::HeartbeatTimeout.spec_raw() == 77,
        SocketOption::XpubVerboser.spec_raw() == 78,
        SocketOption::ConnectTimeout.spec_raw() == 79,
        SocketOption::MaxTcpRetransmitTimeout.spec_raw() == 80,
        SocketOption::MulticastMaxTransportDataUnitSize.spec_raw() == 84,
        SocketOption::ThreadSafe.spec_raw() == 81,
        SocketOption::VmciBufferSize.spec_raw() == 85,
        SocketOption::VmciBufferMinSize.spec_raw() == 86,
        SocketOption::VmciBufferMaxSize.spec_raw() == 87,
        SocketOption::VmciConntectTimeout.spec_raw() == 88,
        SocketOption::UseFd.spec_raw() == 89,
        SocketOption::BindToDevice.spec_raw() == 92,
        SocketOption::ZapEnforceDomain.spec_raw() == 93,
        SocketOption::Metadata.spec_raw() == 95,
        SocketOption::MulticastLoop.spec_raw() == 96,
        SocketOption::RouterNotify.spec_raw() == 97,
        SocketOption::XpubManualLastValue.spec_raw() == 98,
        SocketOption::SocksUsername.spec_raw() == 99,
        SocketOption::SocksPassword.spec_raw() == 100,
        SocketOption::InBatchSize.spec_raw() == 101,
        SocketOption::OutBatchSize.spec_raw() == 102,
        SocketOption::OnlyFirstSubscribe.spec_raw() == 108,
        SocketOption::ReconnectStop.spec_raw() == 109,
        SocketOption::HelloMessage.spec_raw() == 110,
        SocketOption::DisconnectMessage.spec_raw() == 111,
        SocketOption::Priority.spec_raw() == 112,
        SocketOption::BusyPoll.spec_raw() == 113,
        SocketOption::HiccupMessage.spec_raw() == 114,
        SocketOption::XsubVerboseUnsubscribe.spec_raw() == 115,
        SocketOption::TopicsCount.spec_raw() == 116,
        SocketOption::NormMode.spec_raw() == 117,
        SocketOption::NormUnicastNack.spec_raw() == 118,
        SocketOption::NormBufferSize.spec_raw() == 119,
        SocketOption::NormSegmentSize.spec_raw() == 120,
        SocketOption::NormBlockSize.spec_raw() == 121,
        SocketOption::NormNumnParity.spec_raw() == 122,
        SocketOption::NormNumnAutoParity.spec_raw() == 123,
        SocketOption::NormPush.spec_raw() == 124,
{
}

/// Different socket types have different numbers.
pub proof fn lemma_socket_type_numbers_distinct(a: SocketType, b: SocketType)
    requires
        a.spec_raw() == b.spec_raw(),
    ensures
        a == b,
{
}

/// Different socket options have different numbers.
pub proof fn lemma_option_numbers_distinct(a: SocketOption, b: SocketOption)
    requires
        a.spec_raw() == b.spec_raw(),
    ensures
        a == b,
{
}

/// A socket option together with its value as raw bytes: what `zmq_setsockopt` is handed,
/// or what `zmq_getsockopt` gave back.
#[derive(Debug, Clone, PartialEq, Eq, Hash)]
pub struct Sockopt {
    /// The option.
    pub option: SocketOption,
    /// The option's value, encoded as 0MQ stores it.
    pub value: Vec<u8>,
}

/// Something to be done on a 0MQ socket.
#[derive(Debug, PartialEq, Eq)]
pub enum SocketAction {
    /// Set an option (`zmq_setsockopt`).
    SetOption(Sockopt),
    /// Send a message (`zmq_msg_send`).
    Send(Message, SendFlags),
    /// Join a group (`zmq_join`).
    Join(String),
    /// Leave a group (`zmq_leave`).
    Leave(String),
    /// Bind to an endpoint (`zmq_bind`).
    Bind(String),
    /// Stop accepting connections on an endpoint (`zmq_unbind`).
    Unbind(String),
    /// Connect to an endpoint (`zmq_connect`).
    Connect(String),
    /// Disconnect from an endpoint (`zmq_disconnect`).
    Disconnect(String),
    /// Connect a peer socket to an endpoint (`zmq_connect_peer`).
    ConnectPeer(String),
}

impl View for Sockopt {
    type V = (SocketOption, Seq<u8>);

    /// The option and its value bytes.
    open spec fn view(&self) -> (SocketOption, Seq<u8>) {
        (self.option, self.value@)
    }
}

/// A [`SocketAction`] as a mathematical value.
pub enum ActionView {
    /// Set an option to these bytes.
    SetOption(SocketOption, Seq<u8>),
    /// Send the message (data, more flag, routing id, group bytes) with these flags.
    Send((Seq<u8>, bool, u32, Seq<u8>), i32),
    /// Join a group.
    Join(Seq<char>),
    /// Leave a group.
    Leave(Seq<char>),
    /// Bind to an endpoint.
    Bind(Seq<char>),
    /// Unbind from an endpoint.
    Unbind(Seq<char>),
    /// Connect to an endpoint.
    Connect(Seq<char>),
    /// Disconnect from an endpoint.
    Disconnect(Seq<char>),
    /// Connect a peer to an endpoint.
    ConnectPeer(Seq<char>),
}

impl View for SocketAction {
    type V = ActionView;

    open spec fn view(&self) -> ActionView {
        match self {
            SocketAction::SetOption(w) => ActionView::SetOption(w.option, w.value@),
            SocketAction::Send(m, f) => ActionView::Send(m@, f.spec_bits()),
            SocketAction::Join(g) => ActionView::Join(g@),
            SocketAction::Leave(g) => ActionView::Leave(g@),
            SocketAction::Bind(e) => ActionView::Bind(e@),
            SocketAction::Unbind(e) => ActionView::Unbind(e@),
            SocketAction::Connect(e) => ActionView::Connect(e@),
            SocketAction::Disconnect(e) => ActionView::Disconnect(e@),
            SocketAction::ConnectPeer(e) => ActionView::ConnectPeer(e@),
        }
    }
}

/// The actions of a sequence, as mathematical values.
pub open spec fn actions_view(actions: Seq<SocketAction>) -> Seq<ActionView> {
    actions.map_values(|a: SocketAction| a@)
}

/// Option writes as actions.
pub open spec fn set_all(w: Seq<(SocketOption, Seq<u8>)>) -> Seq<ActionView> {
    w.map_values(|x: (SocketOption, Seq<u8>)| ActionView::SetOption(x.0, x.1))
}

/// The outcome of reading an option: the value where the reply is for `option`, else
/// `InvalidArgument`.
pub open spec fn read_as<T>(reply_option: SocketOption, option: SocketOption, value: ZmqResult<T>) -> ZmqResult<T> {
    if reply_option == option {
        value
    } else {
        Err(ZmqError::InvalidArgument)
    }
}

/// Reading an `i32` option.
pub open spec fn read_i32(reply_option: SocketOption, bytes: Seq<u8>, option: SocketOption) -> ZmqResult<i32> {
    read_as(reply_option, option, decoded_i32(bytes))
}

/// Reading an `i64` option.
pub open spec fn read_i64(reply_option: SocketOption, bytes: Seq<u8>, option: SocketOption) -> ZmqResult<i64> {
    read_as(reply_option, option, decoded_i64(bytes))
}

/// Reading a `u64` option.
pub open spec fn read_u64(reply_option: SocketOption, bytes: Seq<u8>, option: SocketOption) -> ZmqResult<u64> {
    read_as(reply_option, option, decoded_u64(bytes))
}

/// Reading a boolean option.
pub open spec fn read_bool(reply_option: SocketOption, bytes: Seq<u8>, option: SocketOption) -> ZmqResult<bool> {
    read_as(reply_option, option, decoded_bool(bytes))
}

/// Reading a string option.
pub open spec fn read_string(reply_option: SocketOption, bytes: Seq<u8>, option: SocketOption) -> ZmqResult<Seq<char>> {
    read_as(reply_option, option, decoded_string(bytes))
}

/// Whether a string result is the spec result `expected`.
pub open spec fn string_result_is(r: ZmqResult<String>, expected: ZmqResult<Seq<char>>) -> bool {
    match r {
        Ok(s) => expected == Ok::<Seq<char>, ZmqError>(s@),
        Err(e) => expected == Err::<Seq<char>, ZmqError>(e),
    }
}

/// Whether an option write carries `option` and `bytes`.
pub open spec fn writes(w: Sockopt, option: SocketOption, bytes: Seq<u8>) -> bool {
    w.option == option && w.value@ == bytes
}

/// Reading an integer option back from the bytes that were written for it gives the value.
pub proof fn lemma_read_written_i32(option: SocketOption, v: i32)
    ensures
        read_i32(option, i32_bytes(v), option) == Ok::<i32, ZmqError>(v),
{
    lemma_i32_round_trip(v);
}

/// Reading an `i64` option back from the bytes that were written for it gives the value.
pub proof fn lemma_read_written_i64(option: SocketOption, v: i64)
    ensures
        read_i64(option, i64_bytes(v), option) == Ok::<i64, ZmqError>(v),
{
    lemma_i64_round_trip(v);
}

/// Reading a `u64` option back from the bytes that were written for it gives the value.
pub proof fn lemma_read_written_u64(option: SocketOption, v: u64)
    ensures
        read_u64(option, u64_bytes(v), option) == Ok::<u64, ZmqError>(v),
{
    lemma_u64_round_trip(v);
}

/// Reading a boolean option back from the bytes that were written for it gives the value.
pub proof fn lemma_read_written_bool(option: SocketOption, v: bool)
    ensures
        read_bool(option, bool_bytes(v), option) == Ok::<bool, ZmqError>(v),
{
    lemma_bool_round_trip(v);
}

/// Reading a string option back from the bytes that were written for it, with the
/// terminating NUL that 0MQ appends, gives the string.
pub proof fn lemma_read_written_string(option: SocketOption, v: Seq<char>)
    ensures
        read_string(option, str_bytes(v).push(0u8), option) == Ok::<Seq<char>, ZmqError>(v),
{
    lemma_string_round_trip(v);
}

/// A 0MQ socket of the kind `T`.
pub struct Socket<T: sealed::SocketType> {
    marker: PhantomData<T>,
}

impl<T: sealed::SocketType> Socket<T> {
    /// Creates a socket of the kind `T`; it stands for the socket that `zmq_socket` opens in
    /// a context with the type [`raw_socket_type`](Self::raw_socket_type).
    pub fn from_context() -> (r: Self) {
        Socket { marker: PhantomData }
    }

    /// The number of the 0MQ socket type to open this socket with.
    pub fn raw_socket_type(&self) -> (r: i32)
        ensures
            r == T::spec_socket_type().spec_raw(),
    {
        T::raw_socket_type().raw()
    }

    /// Sets an option to raw bytes.
    pub fn set_sockopt_bytes(&self, option: SocketOption, value: &[u8]) -> (r: Sockopt)
        ensures
            writes(r, option, value@),
    {
        Sockopt { option, value: vstd::slice::slice_to_vec(value) }
    }

    /// Sets an option to a string.
    pub fn set_sockopt_string(&self, option: SocketOption, value: &str) -> (r: Sockopt)
        ensures
            writes(r, option, str_bytes(value@)),
    {
        Sockopt { option, value: encode_str(value) }
    }

    /// Sets a 0/1 integer option.
    pub fn set_sockopt_bool(&self, option: SocketOption, value: bool) -> (r: Sockopt)
        ensures
            writes(r, option, bool_bytes(value)),
    {
        Sockopt { option, value: encode_bool(value) }
    }

    /// Sets an `i32` option.
    fn set_sockopt_i32(&self, option: SocketOption, value: i32) -> (r: Sockopt)
        ensures
            writes(r, option, i32_bytes(value)),
    {
        Sockopt { option, value: encode_i32(value) }
    }

    /// Sets an `i64` option.
    fn set_sockopt_i64(&self, option: SocketOption, value: i64) -> (r: Sockopt)
        ensures
            writes(r, option, i64_bytes(value)),
    {
        Sockopt { option, value: encode_i64(value) }
    }

    /// Sets a `u64` option.
    fn set_sockopt_u64(&self, option: SocketOption, value: u64) -> (r: Sockopt)
        ensures
            writes(r, option, u64_bytes(value)),
    {
        Sockopt { option, value: encode_u64(value) }
    }

    /// Reads an option as raw bytes from the reply to `zmq_getsockopt`.
    pub fn get_sockopt_bytes(&self, option: SocketOption, reply: &Sockopt) -> (r: ZmqResult<Vec<u8>>)
        ensures
            reply.option == option ==> (r matches Ok(v) && v@ == reply.value@),
            reply.option != option ==> r == Err::<Vec<u8>, ZmqError>(ZmqError::InvalidArgument),
    {
        if reply.option == option {
            Ok(vstd::slice::slice_to_vec(reply.value.as_slice()))
        } else {
            Err(ZmqError::InvalidArgument)
        }
    }

    /// Reads a string option from the reply to `zmq_getsockopt`.
    pub fn get_sockopt_string(&self, option: SocketOption, reply: &Sockopt) -> (r: ZmqResult<String>)
        ensures
            string_result_is(r, read_string(reply.option, reply.value@, option)),
    {
        if reply.option == option {
            decode_string(reply.value.as_slice())
        } else {
            Err(ZmqError::InvalidArgument)
        }
    }

    /// Reads a 0/1 integer option from the reply to `zmq_getsockopt`.
    pub fn get_sockopt_bool(&self, option: SocketOption, reply: &Sockopt) -> (r: ZmqResult<bool>)
        ensures
            r == read_bool(reply.option, reply.value@, option),
    {
        if reply.option == option {
            decode_bool(reply.value.as_slice())
        } else {
            Err(ZmqError::InvalidArgument)
        }
    }

    /// Reads an `i32` option from the reply to `zmq_getsockopt`.
    fn get_sockopt_i32(&self, option: SocketOption, reply: &Sockopt) -> (r: ZmqResult<i32>)
        ensures
            r == read_i32(reply.option, reply.value@, option),
    {
        if reply.option == option {
            decode_i32(reply.value.as_slice())
        } else {
            Err(ZmqError::InvalidArgument)
        }
    }

    /// Reads an `i64` option from the reply to `zmq_getsockopt`.
    fn get_sockopt_i64(&self, option: SocketOption, reply: &Sockopt) -> (r: ZmqResult<i64>)
        ensures
            r == read_i64(reply.option, reply.value@, option),
    {
        if reply.option == option {
            decode_i64(reply.value.as_slice())
        } else {
            Err(ZmqError::InvalidArgument)
        }
    }

    /// Reads a `u64` option from the reply to `zmq_getsockopt`.
    fn get_sockopt_u64(&self, option: SocketOption, reply: &Sockopt) -> (r: ZmqResult<u64>)
        ensures
            r == read_u64(reply.option, reply.value@, option),
    {
        if reply.option == option {
            decode_u64(reply.value.as_slice())
        } else {
            Err(ZmqError::InvalidArgument)
        }
    }
    /// Sets the I/O thread affinity of new connections (`Affinity`).
    pub fn set_affinity(&self, value: u64) -> (r: Sockopt)
        ensures
            writes(r, SocketOption::Affinity, u64_bytes(value)),
    {
        self.set_sockopt_u64(SocketOption::Affinity, value)
    }

    /// Reads the I/O thread affinity of new connections (`Affinity`) from the reply to `zmq_getsockopt`.
    pub fn affinity(&self, reply: &Sockopt) -> (r: ZmqResult<u64>)
        ensures
            r == read_u64(reply.option, reply.value@, SocketOption::Affinity),
    {
        self.get_sockopt_u64(SocketOption::Affinity, reply)
    }

    /// Sets the length of the queue of outstanding connections (`Backlog`).
    pub fn set_backlog(&self, value: i32) -> (r: Sockopt)
        ensures
            writes(r, SocketOption::Backlog, i32_bytes(value)),
    {
        self.set_sockopt_i32(SocketOption::Backlog, value)
    }

    /// Reads the length of the queue of outstanding connections (`Backlog`) from the reply to `zmq_getsockopt`.
    pub fn backlog(&self, reply: &Sockopt) -> (r: ZmqResult<i32>)
        ensures
            r == read_i32(reply.option, reply.value@, SocketOption::Backlog),
    {
        self.get_sockopt_i32(SocketOption::Backlog, reply)
    }

    /// Sets busy polling (`BusyPoll`).
    pub fn set_busy_poll(&self, value: bool) -> (r: Sockopt)
        ensures
            writes(r, SocketOption::BusyPoll, bool_bytes(value)),
    {
        self.set_sockopt_bool(SocketOption::BusyPoll, value)
    }

    /// Sets the connect timeout in milliseconds (`ConnectTimeout`).
    pub fn set_connect_timeout(&self, value: i32) -> (r: Sockopt)
        ensures
            writes(r, SocketOption::ConnectTimeout, i32_bytes(value)),
    {
        self.set_sockopt_i32(SocketOption::ConnectTimeout, value)
    }

    /// Reads the connect timeout in milliseconds (`ConnectTimeout`) from the reply to `zmq_getsockopt`.
    pub fn connect_timeout(&self, reply: &Sockopt) -> (r: ZmqResult<i32>)
        ensures
            r == read_i32(reply.option, reply.value@, SocketOption::ConnectTimeout),
    {
        self.get_sockopt_i32(SocketOption::ConnectTimeout, reply)
    }

    /// Sets the maximum handshake interval in milliseconds (`HandshakeInterval`).
    pub fn set_handshake_interval(&self, value: i32) -> (r: Sockopt)
        ensures
            writes(r, SocketOption::HandshakeInterval, i32_bytes(value)),
    {
        self.set_sockopt_i32(SocketOption::HandshakeInterval, value)
    }

    /// Reads the maximum handshake interval in milliseconds (`HandshakeInterval`) from the reply to `zmq_getsockopt`.
    pub fn handshake_interval(&self, reply: &Sockopt) -> (r: ZmqResult<i32>)
        ensures
            r == read_i32(reply.option, reply.value@, SocketOption::HandshakeInterval),
    {
        self.get_sockopt_i32(SocketOption::HandshakeInterval, reply)
    }

    /// Sets the interval between ZMTP heartbeats in milliseconds (`HeartbeatInterval`).
    pub fn set_heartbeat_interval(&self, value: i32) -> (r: Sockopt)
        ensures
            writes(r, SocketOption::HeartbeatInterval, i32_bytes(value)),
    {
        self.set_sockopt_i32(SocketOption::HeartbeatInterval, value)
    }

    /// Reads the interval between ZMTP heartbeats in milliseconds (`HeartbeatInterval`) from the reply to `zmq_getsockopt`.
    pub fn heartbeat_interval(&self, reply: &Sockopt) -> (r: ZmqResult<i32>)
        ensures
            r == read_i32(reply.option, reply.value@, SocketOption::HeartbeatInterval),
    {
        self.get_sockopt_i32(SocketOption::HeartbeatInterval, reply)
    }

    /// Sets the timeout for ZMTP heartbeats in milliseconds (`HeartbeatTimeout`).
    pub fn set_heartbeat_timeout(&self, value: i32) -> (r: Sockopt)
        ensures
            writes(r, SocketOption::HeartbeatTimeout, i32_bytes(value)),
    {
        self.set_sockopt_i32(SocketOption::HeartbeatTimeout, value)
    }

    /// Reads the timeout for ZMTP heartbeats in milliseconds (`HeartbeatTimeout`) from the reply to `zmq_getsockopt`.
    pub fn heartbeat_timeout(&self, reply: &Sockopt) -> (r: ZmqResult<i32>)
        ensures
            r == read_i32(reply.option, reply.value@, SocketOption::HeartbeatTimeout),
    {
        self.get_sockopt_i32(SocketOption::HeartbeatTimeout, reply)
    }

    /// Sets the time-to-live for ZMTP heartbeats in milliseconds (`HeartbeatTimeToLive`).
    pub fn set_heartbeat_timetolive(&self, value: i32) -> (r: Sockopt)
        ensures
            writes(r, SocketOption::HeartbeatTimeToLive, i32_bytes(value)),
    {
        self.set_sockopt_i32(SocketOption::HeartbeatTimeToLive, value)
    }

    /// Reads the time-to-live for ZMTP heartbeats in milliseconds (`HeartbeatTimeToLive`) from the reply to `zmq_getsockopt`.
    pub fn heartbeat_timetolive(&self, reply: &Sockopt) -> (r: ZmqResult<i32>)
        ensures
            r == read_i32(reply.option, reply.value@, SocketOption::HeartbeatTimeToLive),
    {
        self.get_sockopt_i32(SocketOption::HeartbeatTimeToLive, reply)
    }

    /// Sets whether messages are queued only to completed connections (`Immediate`).
    pub fn set_immediate(&self, value: bool) -> (r: Sockopt)
        ensures
            writes(r, SocketOption::Immediate, bool_bytes(value)),
    {
        self.set_sockopt_bool(SocketOption::Immediate, value)
    }

    /// Reads whether messages are queued only to completed connections (`Immediate`) from the reply to `zmq_getsockopt`.
    pub fn immediate(&self, reply: &Sockopt) -> (r: ZmqResult<bool>)
        ensures
            r == read_bool(reply.option, reply.value@, SocketOption::Immediate),
    {
        self.get_sockopt_bool(SocketOption::Immediate, reply)
    }

    /// Sets whether IPv6 is used (`IPv6`).
    pub fn set_ipv6(&self, value: bool) -> (r: Sockopt)
        ensures
            writes(r, SocketOption::IPv6, bool_bytes(value)),
    {
        self.set_sockopt_bool(SocketOption::IPv6, value)
    }

    /// Reads whether IPv6 is used (`IPv6`) from the reply to `zmq_getsockopt`.
    pub fn ipv6(&self, reply: &Sockopt) -> (r: ZmqResult<bool>)
        ensures
            r == read_bool(reply.option, reply.value@, SocketOption::IPv6),
    {
        self.get_sockopt_bool(SocketOption::IPv6, reply)
    }

    /// Sets the linger period for socket shutdown in milliseconds (`Linger`).
    pub fn set_linger(&self, value: i32) -> (r: Sockopt)
        ensures
            writes(r, SocketOption::Linger, i32_bytes(value)),
    {
        self.set_sockopt_i32(SocketOption::Linger, value)
    }

    /// Reads the linger period for socket shutdown in milliseconds (`Linger`) from the reply to `zmq_getsockopt`.
    pub fn linger(&self, reply: &Sockopt) -> (r: ZmqResult<i32>)
        ensures
            r == read_i32(reply.option, reply.value@, SocketOption::Linger),
    {
        self.get_sockopt_i32(SocketOption::Linger, reply)
    }

    /// Reads the last endpoint bound or connected (`LastEndpoint`) from the reply to `zmq_getsockopt`.
    pub fn last_endpoint(&self, reply: &Sockopt) -> (r: ZmqResult<String>)
        ensures
            string_result_is(r, read_string(reply.option, reply.value@, SocketOption::LastEndpoint)),
    {
        self.get_sockopt_string(SocketOption::LastEndpoint, reply)
    }

    /// Sets the maximum size of an inbound message (`MaxMessageSize`).
    pub fn set_max_message_size(&self, value: i64) -> (r: Sockopt)
        ensures
            writes(r, SocketOption::MaxMessageSize, i64_bytes(value)),
    {
        self.set_sockopt_i64(SocketOption::MaxMessageSize, value)
    }

    /// Reads the maximum size of an inbound message (`MaxMessageSize`) from the reply to `zmq_getsockopt`.
    pub fn max_message_size(&self, reply: &Sockopt) -> (r: ZmqResult<i64>)
        ensures
            r == read_i64(reply.option, reply.value@, SocketOption::MaxMessageSize),
    {
        self.get_sockopt_i64(SocketOption::MaxMessageSize, reply)
    }

    /// Sets the maximum number of network hops of multicast packets (`MulticastHops`).
    pub fn set_multicast_hops(&self, value: i32) -> (r: Sockopt)
        ensures
            writes(r, SocketOption::MulticastHops, i32_bytes(value)),
    {
        self.set_sockopt_i32(SocketOption::MulticastHops, value)
    }

    /// Reads the maximum number of network hops of multicast packets (`MulticastHops`) from the reply to `zmq_getsockopt`.
    pub fn multicast_hops(&self, reply: &Sockopt) -> (r: ZmqResult<i32>)
        ensures
            r == read_i32(reply.option, reply.value@, SocketOption::MulticastHops),
    {
        self.get_sockopt_i32(SocketOption::MulticastHops, reply)
    }

    /// Sets the multicast data rate in kilobits per second (`Rate`).
    pub fn set_rate(&self, value: i32) -> (r: Sockopt)
        ensures
            writes(r, SocketOption::Rate, i32_bytes(value)),
    {
        self.set_sockopt_i32(SocketOption::Rate, value)
    }

    /// Reads the multicast data rate in kilobits per second (`Rate`) from the reply to `zmq_getsockopt`.
    pub fn rate(&self, reply: &Sockopt) -> (r: ZmqResult<i32>)
        ensures
            r == read_i32(reply.option, reply.value@, SocketOption::Rate),
    {
        self.get_sockopt_i32(SocketOption::Rate, reply)
    }

    /// Sets the kernel receive buffer size (`ReceiveBuffer`).
    pub fn set_receive_buffer(&self, value: i32) -> (r: Sockopt)
        ensures
            writes(r, SocketOption::ReceiveBuffer, i32_bytes(value)),
    {
        self.set_sockopt_i32(SocketOption::ReceiveBuffer, value)
    }

    /// Reads the kernel receive buffer size (`ReceiveBuffer`) from the reply to `zmq_getsockopt`.
    pub fn receive_buffer(&self, reply: &Sockopt) -> (r: ZmqResult<i32>)
        ensures
            r == read_i32(reply.option, reply.value@, SocketOption::ReceiveBuffer),
    {
        self.get_sockopt_i32(SocketOption::ReceiveBuffer, reply)
    }

    /// Sets the high water mark for inbound messages (`ReceiveHighWatermark`).
    pub fn set_receive_highwater_mark(&self, value: i32) -> (r: Sockopt)
        ensures
            writes(r, SocketOption::ReceiveHighWatermark, i32_bytes(value)),
    {
        self.set_sockopt_i32(SocketOption::ReceiveHighWatermark, value)
    }

    /// Reads the high water mark for inbound messages (`ReceiveHighWatermark`) from the reply to `zmq_getsockopt`.
    pub fn receive_highwater_mark(&self, reply: &Sockopt) -> (r: ZmqResult<i32>)
        ensures
            r == read_i32(reply.option, reply.value@, SocketOption::ReceiveHighWatermark),
    {
        self.get_sockopt_i32(SocketOption::ReceiveHighWatermark, reply)
    }

    /// Sets the receive timeout in milliseconds (`ReceiveTimeout`).
    pub fn set_receive_timeout(&self, value: i32) -> (r: Sockopt)
        ensures
            writes(r, SocketOption::ReceiveTimeout, i32_bytes(value)),
    {
        self.set_sockopt_i32(SocketOption::ReceiveTimeout, value)
    }

    /// Reads the receive timeout in milliseconds (`ReceiveTimeout`) from the reply to `zmq_getsockopt`.
    pub fn receive_timeout(&self, reply: &Sockopt) -> (r: ZmqResult<i32>)
        ensures
            r == read_i32(reply.option, reply.value@, SocketOption::ReceiveTimeout),
    {
        self.get_sockopt_i32(SocketOption::ReceiveTimeout, reply)
    }

    /// Sets the reconnection interval in milliseconds (`ReconnectInterval`).
    pub fn set_reconnect_interval(&self, value: i32) -> (r: Sockopt)
        ensures
            writes(r, SocketOption::ReconnectInterval, i32_bytes(value)),
    {
        self.set_sockopt_i32(SocketOption::ReconnectInterval, value)
    }

    /// Reads the reconnection interval in milliseconds (`ReconnectInterval`) from the reply to `zmq_getsockopt`.
    pub fn reconnect_interval(&self, reply: &Sockopt) -> (r: ZmqResult<i32>)
        ensures
            r == read_i32(reply.option, reply.value@, SocketOption::ReconnectInterval),
    {
        self.get_sockopt_i32(SocketOption::ReconnectInterval, reply)
    }

    /// Sets the maximum reconnection interval in milliseconds (`ReconnectIntervalMax`).
    pub fn set_reconnect_interval_max(&self, value: i32) -> (r: Sockopt)
        ensures
            writes(r, SocketOption::ReconnectIntervalMax, i32_bytes(value)),
    {
        self.set_sockopt_i32(SocketOption::ReconnectIntervalMax, value)
    }

    /// Reads the maximum reconnection interval in milliseconds (`ReconnectIntervalMax`) from the reply to `zmq_getsockopt`.
    pub fn reconnect_interval_max(&self, reply: &Sockopt) -> (r: ZmqResult<i32>)
        ensures
            r == read_i32(reply.option, reply.value@, SocketOption::ReconnectIntervalMax),
    {
        self.get_sockopt_i32(SocketOption::ReconnectIntervalMax, reply)
    }

    /// Sets the multicast recovery interval in milliseconds (`RecoveryInterval`).
    pub fn set_recovery_interval(&self, value: i32) -> (r: Sockopt)
        ensures
            writes(r, SocketOption::RecoveryInterval, i32_bytes(value)),
    {
        self.set_sockopt_i32(SocketOption::RecoveryInterval, value)
    }

    /// Reads the multicast recovery interval in milliseconds (`RecoveryInterval`) from the reply to `zmq_getsockopt`.
    pub fn recovery_interval(&self, reply: &Sockopt) -> (r: ZmqResult<i32>)
        ensures
            r == read_i32(reply.option, reply.value@, SocketOption::RecoveryInterval),
    {
        self.get_sockopt_i32(SocketOption::RecoveryInterval, reply)
    }

    /// Sets the kernel transmit buffer size (`SendBuffer`).
    pub fn set_send_buffer(&self, value: i32) -> (r: Sockopt)
        ensures
            writes(r, SocketOption::SendBuffer, i32_bytes(value)),
    {
        self.set_sockopt_i32(SocketOption::SendBuffer, value)
    }

    /// Reads the kernel transmit buffer size (`SendBuffer`) from the reply to `zmq_getsockopt`.
    pub fn send_buffer(&self, reply: &Sockopt) -> (r: ZmqResult<i32>)
        ensures
            r == read_i32(reply.option, reply.value@, SocketOption::SendBuffer),
    {
        self.get_sockopt_i32(SocketOption::SendBuffer, reply)
    }

    /// Sets the high water mark for outbound messages (`SendHighWatermark`).
    pub fn set_send_highwater_mark(&self, value: i32) -> (r: Sockopt)
        ensures
            writes(r, SocketOption::SendHighWatermark, i32_bytes(value)),
    {
        self.set_sockopt_i32(SocketOption::SendHighWatermark, value)
    }

    /// Reads the high water mark for outbound messages (`SendHighWatermark`) from the reply to `zmq_getsockopt`.
    pub fn send_highwater_mark(&self, reply: &Sockopt) -> (r: ZmqResult<i32>)
        ensures
            r == read_i32(reply.option, reply.value@, SocketOption::SendHighWatermark),
    {
        self.get_sockopt_i32(SocketOption::SendHighWatermark, reply)
    }

    /// Sets the send timeout in milliseconds (`SendTimeout`).
    pub fn set_send_timeout(&self, value: i32) -> (r: Sockopt)
        ensures
            writes(r, SocketOption::SendTimeout, i32_bytes(value)),
    {
        self.set_sockopt_i32(SocketOption::SendTimeout, value)
    }

    /// Reads the send timeout in milliseconds (`SendTimeout`) from the reply to `zmq_getsockopt`.
    pub fn send_timeout(&self, reply: &Sockopt) -> (r: ZmqResult<i32>)
        ensures
            r == read_i32(reply.option, reply.value@, SocketOption::SendTimeout),
    {
        self.get_sockopt_i32(SocketOption::SendTimeout, reply)
    }

    /// Reads the SOCKS5 proxy address (`SocksProxy`) from the reply to `zmq_getsockopt`.
    pub fn socks_proxy(&self, reply: &Sockopt) -> (r: ZmqResult<String>)
        ensures
            string_result_is(r, read_string(reply.option, reply.value@, SocketOption::SocksProxy)),
    {
        self.get_sockopt_string(SocketOption::SocksProxy, reply)
    }

    /// Sets the SOCKS5 username (`SocksUsername`).
    pub fn set_socks_username(&self, value: &str) -> (r: Sockopt)
        ensures
            writes(r, SocketOption::SocksUsername, str_bytes(value@)),
    {
        self.set_sockopt_string(SocketOption::SocksUsername, value)
    }

    /// Reads the SOCKS5 username (`SocksUsername`) from the reply to `zmq_getsockopt`.
    pub fn socks_username(&self, reply: &Sockopt) -> (r: ZmqResult<String>)
        ensures
            string_result_is(r, read_string(reply.option, reply.value@, SocketOption::SocksUsername)),
    {
        self.get_sockopt_string(SocketOption::SocksUsername, reply)
    }

    /// Sets the SOCKS5 password (`SocksPassword`).
    pub fn set_socks_password(&self, value: &str) -> (r: Sockopt)
        ensures
            writes(r, SocketOption::SocksPassword, str_bytes(value@)),
    {
        self.set_sockopt_string(SocketOption::SocksPassword, value)
    }

    /// Reads the SOCKS5 password (`SocksPassword`) from the reply to `zmq_getsockopt`.
    pub fn socks_password(&self, reply: &Sockopt) -> (r: ZmqResult<String>)
        ensures
            string_result_is(r, read_string(reply.option, reply.value@, SocketOption::SocksPassword)),
    {
        self.get_sockopt_string(SocketOption::SocksPassword, reply)
    }

    /// Sets the `SO_KEEPALIVE` override (`TcpKeepalive`).
    pub fn set_tcp_keepalive(&self, value: i32) -> (r: Sockopt)
        ensures
            writes(r, SocketOption::TcpKeepalive, i32_bytes(value)),
    {
        self.set_sockopt_i32(SocketOption::TcpKeepalive, value)
    }

    /// Reads the `SO_KEEPALIVE` override (`TcpKeepalive`) from the reply to `zmq_getsockopt`.
    pub fn tcp_keepalive(&self, reply: &Sockopt) -> (r: ZmqResult<i32>)
        ensures
            r == read_i32(reply.option, reply.value@, SocketOption::TcpKeepalive),
    {
        self.get_sockopt_i32(SocketOption::TcpKeepalive, reply)
    }

    /// Sets the `TCP_KEEPCNT` override (`TcpKeepaliveCount`).
    pub fn set_tcp_keepalive_count(&self, value: i32) -> (r: Sockopt)
        ensures
            writes(r, SocketOption::TcpKeepaliveCount, i32_bytes(value)),
    {
        self.set_sockopt_i32(SocketOption::TcpKeepaliveCount, value)
    }

    /// Reads the `TCP_KEEPCNT` override (`TcpKeepaliveCount`) from the reply to `zmq_getsockopt`.
    pub fn tcp_keepalive_count(&self, reply: &Sockopt) -> (r: ZmqResult<i32>)
        ensures
            r == read_i32(reply.option, reply.value@, SocketOption::TcpKeepaliveCount),
    {
        self.get_sockopt_i32(SocketOption::TcpKeepaliveCount, reply)
    }

    /// Sets the `TCP_KEEPIDLE` override (`TcpKeepaliveIdle`).
    pub fn set_tcp_keepalive_idle(&self, value: i32) -> (r: Sockopt)
        ensures
            writes(r, SocketOption::TcpKeepaliveIdle, i32_bytes(value)),
    {
        self.set_sockopt_i32(SocketOption::TcpKeepaliveIdle, value)
    }

    /// Reads the `TCP_KEEPIDLE` override (`TcpKeepaliveIdle`) from the reply to `zmq_getsockopt`.
    pub fn tcp_keepalive_idle(&self, reply: &Sockopt) -> (r: ZmqResult<i32>)
        ensures
            r == read_i32(reply.option, reply.value@, SocketOption::TcpKeepaliveIdle),
    {
        self.get_sockopt_i32(SocketOption::TcpKeepaliveIdle, reply)
    }

    /// Sets the `TCP_KEEPINTVL` override (`TcpKeepaliveInterval`).
    pub fn set_tcp_keepalive_interval(&self, value: i32) -> (r: Sockopt)
        ensures
            writes(r, SocketOption::TcpKeepaliveInterval, i32_bytes(value)),
    {
        self.set_sockopt_i32(SocketOption::TcpKeepaliveInterval, value)
    }

    /// Reads the `TCP_KEEPINTVL` override (`TcpKeepaliveInterval`) from the reply to `zmq_getsockopt`.
    pub fn tcp_keepalive_interval(&self, reply: &Sockopt) -> (r: ZmqResult<i32>)
        ensures
            r == read_i32(reply.option, reply.value@, SocketOption::TcpKeepaliveInterval),
    {
        self.get_sockopt_i32(SocketOption::TcpKeepaliveInterval, reply)
    }

    /// Sets the TCP maximum retransmit timeout in milliseconds (`MaxTcpRetransmitTimeout`).
    pub fn set_tcp_max_retransmit_timeout(&self, value: i32) -> (r: Sockopt)
        ensures
            writes(r, SocketOption::MaxTcpRetransmitTimeout, i32_bytes(value)),
    {
        self.set_sockopt_i32(SocketOption::MaxTcpRetransmitTimeout, value)
    }

    /// Reads the TCP maximum retransmit timeout in milliseconds (`MaxTcpRetransmitTimeout`) from the reply to `zmq_getsockopt`.
    pub fn tcp_max_retransmit_timeout(&self, reply: &Sockopt) -> (r: ZmqResult<i32>)
        ensures
            r == read_i32(reply.option, reply.value@, SocketOption::MaxTcpRetransmitTimeout),
    {
        self.get_sockopt_i32(SocketOption::MaxTcpRetransmitTimeout, reply)
    }

    /// Sets the type-of-service of the underlying socket (`TypeOfService`).
    pub fn set_type_of_service(&self, value: i32) -> (r: Sockopt)
        ensures
            writes(r, SocketOption::TypeOfService, i32_bytes(value)),
    {
        self.set_sockopt_i32(SocketOption::TypeOfService, value)
    }

    /// Reads the type-of-service of the underlying socket (`TypeOfService`) from the reply to `zmq_getsockopt`.
    pub fn type_of_service(&self, reply: &Sockopt) -> (r: ZmqResult<i32>)
        ensures
            r == read_i32(reply.option, reply.value@, SocketOption::TypeOfService),
    {
        self.get_sockopt_i32(SocketOption::TypeOfService, reply)
    }


    /// Sets the conditions on which reconnecting stops (`ReconnectStop`).
    pub fn set_reconnect_stop(&self, value: ReconnectStop) -> (r: Sockopt)
        ensures
            writes(r, SocketOption::ReconnectStop, i32_bytes(value.spec_bits())),
    {
        self.set_sockopt_i32(SocketOption::ReconnectStop, value.bits())
    }

    /// Reads the conditions on which reconnecting stops (`ReconnectStop`) from the reply to
    /// `zmq_getsockopt`; unknown bits are dropped.
    pub fn reconnect_stop(&self, reply: &Sockopt) -> (r: ZmqResult<ReconnectStop>)
        ensures
            match read_i32(reply.option, reply.value@, SocketOption::ReconnectStop) {
                Ok(v) => r matches Ok(s) && s.spec_bits() == v & ReconnectStop::spec_all(),
                Err(e) => r == Err::<ReconnectStop, ZmqError>(e),
            },
    {
        match self.get_sockopt_i32(SocketOption::ReconnectStop, reply) {
            Ok(v) => Ok(ReconnectStop::from_bits_truncate(v)),
            Err(e) => Err(e),
        }
    }

    /// Sets the SOCKS5 proxy address (`SocksProxy`). Where no address is given, the SOCKS5
    /// username (`SocksUsername`) is set to the empty string instead.
    pub fn set_socks_proxy(&self, value: Option<&str>) -> (r: Sockopt)
        ensures
            value matches Some(v) ==> writes(r, SocketOption::SocksProxy, str_bytes(v@)),
            value is None ==> writes(r, SocketOption::SocksUsername, Seq::<u8>::empty()),
    {
        match value {
            None => {
                let r = self.set_sockopt_bytes(SocketOption::SocksUsername, &[]);
                proof {
                    assert(r.value@ =~= Seq::<u8>::empty());
                }
                r
            },
            Some(v) => self.set_sockopt_string(SocketOption::SocksProxy, v),
        }
    }

    /// Reads the events the socket is ready for (`Events`) from the reply to
    /// `zmq_getsockopt`: values outside the range of `i16` are refused with
    /// `InvalidArgument`, unknown bits are dropped.
    pub fn events(&self, reply: &Sockopt) -> (r: ZmqResult<PollEvents>)
        ensures
            match read_i32(reply.option, reply.value@, SocketOption::Events) {
                Ok(v) => r == poll_events_of(v),
                Err(e) => r == Err::<PollEvents, ZmqError>(e),
            },
    {
        match self.get_sockopt_i32(SocketOption::Events, reply) {
            Ok(v) => poll_events_from_raw(v),
            Err(e) => Err(e),
        }
    }

    /// The events that `zmq_poll` reported for the socket: values outside the range of
    /// `i16` are refused with `InvalidArgument`, unknown bits are dropped.
    pub fn poll(&self, revents: i32) -> (r: ZmqResult<PollEvents>)
        ensures
            r == poll_events_of(revents),
    {
        poll_events_from_raw(revents)
    }

    /// The option writes that put a security mechanism in place.
    pub fn set_security_mechanism(&self, security: &SecurityMechanism) -> (r: Vec<Sockopt>)
        ensures
            crate::security::applies(*security, r@),
    {
        security.apply(self)
    }

    /// The security mechanism of the socket, from the replies to the option reads made so
    /// far; see [`SecurityMechanism::from_replies`].
    pub fn security_mechanism(&self, replies: &Vec<Sockopt>) -> (r: crate::security::SecurityQuery)
        ensures
            crate::security::security_query_is(r, replies@),
    {
        SecurityMechanism::from_replies(replies)
    }

    /// Sets the ZAP domain (`ZapDomain`).
    pub fn set_zap_domain(&self, domain: &ZapDomain) -> (r: Sockopt)
        ensures
            writes(r, SocketOption::ZapDomain, str_bytes(domain@)),
    {
        domain.apply(self)
    }

    /// Reads the ZAP domain (`ZapDomain`) from the reply to `zmq_getsockopt`.
    pub fn zap_domain(&self, reply: &Sockopt) -> (r: ZmqResult<ZapDomain>)
        ensures
            match read_string(reply.option, reply.value@, SocketOption::ZapDomain) {
                Ok(s) => r matches Ok(d) && d@ == s,
                Err(e) => r == Err::<ZapDomain, ZmqError>(e),
            },
    {
        match self.get_sockopt_string(SocketOption::ZapDomain, reply) {
            Ok(s) => Ok(ZapDomain::new(s)),
            Err(e) => Err(e),
        }
    }

    /// Binds the socket to an endpoint.
    pub fn bind(&self, endpoint: &str) -> (r: SocketAction)
        ensures
            r matches SocketAction::Bind(e) && e@ == endpoint@,
    {
        SocketAction::Bind(endpoint.to_owned())
    }

    /// Stops accepting connections on an endpoint.
    pub fn unbind(&self, endpoint: &str) -> (r: SocketAction)
        ensures
            r matches SocketAction::Unbind(e) && e@ == endpoint@,
    {
        SocketAction::Unbind(endpoint.to_owned())
    }

    /// Connects the socket to an endpoint.
    pub fn connect(&self, endpoint: &str) -> (r: SocketAction)
        ensures
            r matches SocketAction::Connect(e) && e@ == endpoint@,
    {
        SocketAction::Connect(endpoint.to_owned())
    }

    /// Disconnects the socket from an endpoint.
    pub fn disconnect(&self, endpoint: &str) -> (r: SocketAction)
        ensures
            r matches SocketAction::Disconnect(e) && e@ == endpoint@,
    {
        SocketAction::Disconnect(endpoint.to_owned())
    }

    /// Where and for which events the socket is monitored, from the reply to the read of its
    /// file descriptor (`FileDescriptor`): the monitor publishes on the endpoint
    /// `inproc://monitor.s-<descriptor>`, and a pair socket connects there.
    pub fn monitor(&self, fd_reply: &Sockopt, events: MonitorFlags) -> (r: ZmqResult<MonitorSetup>)
        ensures
            match read_u64(fd_reply.option, fd_reply.value@, SocketOption::FileDescriptor) {
                Ok(fd) => r matches Ok(setup) && setup.endpoint@ == monitor_endpoint_of(fd)
                    && setup.events == events.spec_bits() as i32,
                Err(e) => r == Err::<MonitorSetup, ZmqError>(e),
            },
    {
        match self.get_sockopt_u64(SocketOption::FileDescriptor, fd_reply) {
            Ok(fd) => Ok(MonitorSetup { endpoint: monitor_endpoint(fd), events: events.bits() as i32 }),
            Err(e) => Err(e),
        }
    }
}

/// The events that a raw poll result stands for: values outside the range of `i16` are
/// refused with `InvalidArgument`, unknown bits are dropped.
pub open spec fn poll_events_of(v: i32) -> ZmqResult<PollEvents> {
    if i16::MIN <= v <= i16::MAX {
        Ok(PollEvents::from_bits_truncate_spec(v as i16))
    } else {
        Err(ZmqError::InvalidArgument)
    }
}

/// The events that a raw poll result stands for.
fn poll_events_from_raw(v: i32) -> (r: ZmqResult<PollEvents>)
    ensures
        r == poll_events_of(v),
{
    if i16::MIN as i32 <= v && v <= i16::MAX as i32 {
        Ok(PollEvents::from_bits_truncate(v as i16))
    } else {
        Err(ZmqError::InvalidArgument)
    }
}

/// Where a socket's monitor publishes its events, and which events it publishes.
#[derive(Debug, PartialEq, Eq)]
pub struct MonitorSetup {
    /// The `inproc` endpoint the monitor publishes on.
    pub endpoint: String,
    /// The bits of the events to publish, as `zmq_socket_monitor` takes them.
    pub events: i32,
}

/// The decimal digits of a number.
pub open spec fn decimal(n: nat) -> Seq<char>
    decreases n,
{
    if n < 10 {
        seq![digit_char(n)]
    } else {
        decimal(n / 10).push(digit_char(n % 10))
    }
}

/// The character of a decimal digit.
pub open spec fn digit_char(d: nat) -> char {
    if d == 0 { '0' } else if d == 1 { '1' } else if d == 2 { '2' } else if d == 3 { '3' }
    else if d == 4 { '4' } else if d == 5 { '5' } else if d == 6 { '6' } else if d == 7 { '7' }
    else if d == 8 { '8' } else { '9' }
}

/// The endpoint on which the monitor of the socket with file descriptor `fd` publishes.
pub open spec fn monitor_endpoint_of(fd: u64) -> Seq<char> {
    seq!['i', 'n', 'p', 'r', 'o', 'c', ':', '/', '/', 'm', 'o', 'n', 'i', 't', 'o', 'r', '.', 's', '-'] + decimal(fd as nat)
}

/// Appends the decimal digits of `n`, as ASCII bytes.
fn push_decimal(out: &mut Vec<u8>, n: u64)
    ensures
        final(out)@.len() == old(out)@.len() + decimal(n as nat).len(),
        forall|i: int| 0 <= i < old(out)@.len() ==> final(out)@[i] == old(out)@[i],
        forall|i: int|
            0 <= i < decimal(n as nat).len() ==> (#[trigger] final(out)@[old(out)@.len() + i]) < 128
                && final(out)@[old(out)@.len() + i] as char == decimal(n as nat)[i],
    decreases n,
{
    let ghost start = out@;
    if n >= 10 {
        push_decimal(out, n / 10);
    }
    let ghost mid = out@;
    let d = (n % 10) as u8;
    out.push(48 + d);
    proof {
        assert((48 + d) as u8 as char == digit_char((n % 10) as nat));
        if n >= 10 {
            assert forall|i: int| 0 <= i < decimal(n as nat).len() implies (#[trigger] out@[start.len() + i]) < 128
                && out@[start.len() + i] as char == decimal(n as nat)[i] by {
                if i < decimal((n / 10) as nat).len() {
                    assert(out@[start.len() + i] == mid[start.len() + i]);
                }
            }
        }
    }
}

/// The `inproc` endpoint that the monitor of the socket with file descriptor `fd` publishes
/// on.
fn monitor_endpoint(fd: u64) -> (r: String)
    ensures
        r@ == monitor_endpoint_of(fd),
{
    let prefix: [u8; 19] = [105, 110, 112, 114, 111, 99, 58, 47, 47, 109, 111, 110, 105, 116, 111, 114, 46, 115, 45];
    let mut bytes: Vec<u8> = Vec::new();
    let mut i: usize = 0;
    while i < 19
        invariant
            i <= 19,
            bytes@ == prefix@.subrange(0, i as int),
        decreases 19 - i,
    {
        bytes.push(prefix[i]);
        i = i + 1;
        proof {
            assert(bytes@ =~= prefix@.subrange(0, i as int));
        }
    }
    push_decimal(&mut bytes, fd);
    let ghost text = monitor_endpoint_of(fd);
    proof {
        assert(prefix@.subrange(0, 19) =~= prefix@);
        assert(bytes@.len() == text.len());
        assert forall|j: int| 0 <= j < text.len() implies bytes@[j] < 128 && bytes@[j] as char == #[trigger] text[j] by {
            if j >= 19 {
                assert(bytes@[19 + (j - 19)] == bytes@[j]);
            }
        }
        assert(vstd::utf8::is_ascii_chars(text));
        vstd::utf8::is_ascii_chars_encode_utf8(text);
        assert(bytes@ =~= vstd::utf8::encode_utf8(text));
        vstd::utf8::encode_utf8_valid_utf8(text);
        vstd::utf8::encode_utf8_decode_utf8(text);
    }
    match codec::string_from_utf8(bytes) {
        Some(s) => s,
        None => String::new(),
    }
}

} // verus!
