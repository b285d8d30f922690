//! Socket monitors and the events they report.
use vstd::bytes::*;
use vstd::prelude::*;

use super::flags::MonitorFlags;
use super::{Socket, SocketType};
use crate::error::{error_of, ZmqError, ZmqResult};
use crate::message::MultipartMessage;
use crate::sealed;

verus! {

/// Why a ZMTP or ZAP handshake failed.
#[derive(Debug, Clone, Copy, PartialEq, Eq, Structural)]
pub enum HandshakeProtocolError {
    /// Unspecified ZMTP error.
    ZmtpUnspecified,
    /// Unexpected ZMTP command.
    ZmtpUnexpectedCommand,
    /// Invalid ZMTP command sequence.
    ZmtpInvalidSequence,
    /// ZMTP key exchange failed.
    ZmtpKeyEchange,
    /// Malformed ZMTP command.
    ZmtpMalformedCommandUnspecified,
    /// Malformed ZMTP MESSAGE command.
    ZmtpMalformedCommandMessage,
    /// Malformed ZMTP HELLO command.
    ZmtpMalformedCommandHello,
    /// Malformed ZMTP INITIATE command.
    ZmtpMalformedCommandInitiate,
    /// Malformed ZMTP ERROR command.
    ZmtpMalformedCommandError,
    /// Malformed ZMTP READY command.
    ZmtpMalformedCommandReady,
    /// Malformed ZMTP WELCOME command.
    ZmtpMalformedCommandWelcome,
    /// Invalid ZMTP metadata.
    ZmtpInvalidMetadata,
    /// ZMTP cryptographic error.
    ZmtpCryptographic,
    /// ZMTP security mechanisms do not match.
    ZmtpMechanismMismatch,
    /// Unspecified ZAP error.
    ZapUnspecified,
    /// Malformed ZAP reply.
    ZapMalformedReply,
    /// Bad ZAP request id.
    ZapBadRequestId,
    /// Bad ZAP version.
    ZapBadVersion,
    /// Invalid ZAP status code.
    ZapInvalidStatusCode,
    /// Invalid ZAP metadata.
    ZapInvalidMetadata,
    /// Any other error number.
    UnsupportedError(u32),
}

/// The handshake error that 0MQ reports with `value`. Note that 0MQ's invalid ZMTP
/// metadata (`0x10000018`) is reported as `ZapInvalidMetadata`.
pub open spec fn handshake_error_of(value: u32) -> HandshakeProtocolError {
    if value == 0x10000000 {
        HandshakeProtocolError::ZmtpUnspecified
    } else if value == 0x10000001 {
        HandshakeProtocolError::ZmtpUnexpectedCommand
    } else if value == 0x10000002 {
        HandshakeProtocolError::ZmtpInvalidSequence
    } else if value == 0x10000003 {
        HandshakeProtocolError::ZmtpKeyEchange
    } else if value == 0x10000011 {
        HandshakeProtocolError::ZmtpMalformedCommandUnspecified
    } else if value == 0x10000012 {
        HandshakeProtocolError::ZmtpMalformedCommandMessage
    } else if value == 0x10000013 {
        HandshakeProtocolError::ZmtpMalformedCommandHello
    } else if value == 0x10000014 {
        HandshakeProtocolError::ZmtpMalformedCommandInitiate
    } else if value == 0x10000015 {
        HandshakeProtocolError::ZmtpMalformedCommandError
    } else if value == 0x10000016 {
        HandshakeProtocolError::ZmtpMalformedCommandReady
    } else if value == 0x10000017 {
        HandshakeProtocolError::ZmtpMalformedCommandWelcome
    } else if value == 0x10000018 {
        HandshakeProtocolError::ZapInvalidMetadata
    } else if value == 0x11000001 {
        HandshakeProtocolError::ZmtpCryptographic
    } else if value == 0x11000002 {
        HandshakeProtocolError::ZmtpMechanismMismatch
    } else if value == 0x20000000 {
        HandshakeProtocolError::ZapUnspecified
    } else if value == 0x20000001 {
        HandshakeProtocolError::ZapMalformedReply
    } else if value == 0x20000002 {
        HandshakeProtocolError::ZapBadRequestId
    } else if value == 0x20000003 {
        HandshakeProtocolError::ZapBadVersion
    } else if value == 0x20000004 {
        HandshakeProtocolError::ZapInvalidStatusCode
    } else if value == 0x20000005 {
        HandshakeProtocolError::ZapInvalidMetadata
    } else {
        HandshakeProtocolError::UnsupportedError(value)
    }
}

/// Each handshake protocol error value of `zmq.h` maps to the error named after it, and every
/// other value is kept as `UnsupportedError`.
pub proof fn lemma_handshake_errors()
    ensures
        handshake_error_of(0x10000000u32) == HandshakeProtocolError::ZmtpUnspecified,
        handshake_error_of(0x10000001u32) == HandshakeProtocolError::ZmtpUnexpectedCommand,
        handshake_error_of(0x10000002u32) == HandshakeProtocolError::ZmtpInvalidSequence,
        handshake_error_of(0x10000003u32) == HandshakeProtocolError::ZmtpKeyEchange,
        handshake_error_of(0x10000011u32) == HandshakeProtocolError::ZmtpMalformedCommandUnspecified,
        handshake_error_of(0x10000012u32) == HandshakeProtocolError::ZmtpMalformedCommandMessage,
        handshake_error_of(0x10000013u32) == HandshakeProtocolError::ZmtpMalformedCommandHello,
        handshake_error_of(0x10000014u32) == HandshakeProtocolError::ZmtpMalformedCommandInitiate,
        handshake_error_of(0x10000015u32) == HandshakeProtocolError::ZmtpMalformedCommandError,
        handshake_error_of(0x10000016u32) == HandshakeProtocolError::ZmtpMalformedCommandReady,
        handshake_error_of(0x10000017u32) == HandshakeProtocolError::ZmtpMalformedCommandWelcome,
        handshake_error_of(0x10000018u32) == HandshakeProtocolError::ZapInvalidMetadata,
        handshake_error_of(0x11000001u32) == HandshakeProtocolError::ZmtpCryptographic,
        handshake_error_of(0x11000002u32) == HandshakeProtocolError::ZmtpMechanismMismatch,
        handshake_error_of(0x20000000u32) == HandshakeProtocolError::ZapUnspecified,
        handshake_error_of(0x20000001u32) == HandshakeProtocolError::ZapMalformedReply,
        handshake_error_of(0x20000002u32) == HandshakeProtocolError::ZapBadRequestId,
        handshake_error_of(0x20000003u32) == HandshakeProtocolError::ZapBadVersion,
        handshake_error_of(0x20000004u32) == HandshakeProtocolError::ZapInvalidStatusCode,
        handshake_error_of(0x20000005u32) == HandshakeProtocolError::ZapInvalidMetadata,
        forall|v: u32|
            v != 0x10000000u32 && v != 0x10000001u32 && v != 0x10000002u32 && v != 0x10000003u32 && v != 0x10000011u32 && v != 0x10000012u32 && v != 0x10000013u32 && v != 0x10000014u32 && v != 0x10000015u32 && v != 0x10000016u32 && v != 0x10000017u32 && v != 0x10000018u32 && v != 0x11000001u32 && v != 0x11000002u32 && v != 0x20000000u32 && v != 0x20000001u32 && v != 0x20000002u32 && v != 0x20000003u32 && v != 0x20000004u32 && v != 0x20000005u32 ==> #[trigger] handshake_error_of(v)
                == HandshakeProtocolError::UnsupportedError(v),
{
}

impl vstd::std_specs::convert::FromSpecImpl<u32> for HandshakeProtocolError {
    open spec fn obeys_from_spec() -> bool {
        true
    }

    open spec fn from_spec(value: u32) -> HandshakeProtocolError {
        handshake_error_of(value)
    }
}

impl From<u32> for HandshakeProtocolError {
    fn from(value: u32) -> (r: Self) {
        match value {
            0x10000000 => HandshakeProtocolError::ZmtpUnspecified,
            0x10000001 => HandshakeProtocolError::ZmtpUnexpectedCommand,
            0x10000002 => HandshakeProtocolError::ZmtpInvalidSequence,
            0x10000003 => HandshakeProtocolError::ZmtpKeyEchange,
            0x10000011 => HandshakeProtocolError::ZmtpMalformedCommandUnspecified,
            0x10000012 => HandshakeProtocolError::ZmtpMalformedCommandMessage,
            0x10000013 => HandshakeProtocolError::ZmtpMalformedCommandHello,
            0x10000014 => HandshakeProtocolError::ZmtpMalformedCommandInitiate,
            0x10000015 => HandshakeProtocolError::ZmtpMalformedCommandError,
            0x10000016 => HandshakeProtocolError::ZmtpMalformedCommandReady,
            0x10000017 => HandshakeProtocolError::ZmtpMalformedCommandWelcome,
            0x10000018 => HandshakeProtocolError::ZapInvalidMetadata,
            0x11000001 => HandshakeProtocolError::ZmtpCryptographic,
            0x11000002 => HandshakeProtocolError::ZmtpMechanismMismatch,
            0x20000000 => HandshakeProtocolError::ZapUnspecified,
            0x20000001 => HandshakeProtocolError::ZapMalformedReply,
            0x20000002 => HandshakeProtocolError::ZapBadRequestId,
            0x20000003 => HandshakeProtocolError::ZapBadVersion,
            0x20000004 => HandshakeProtocolError::ZapInvalidStatusCode,
            0x20000005 => HandshakeProtocolError::ZapInvalidMetadata,
            other => HandshakeProtocolError::UnsupportedError(other),
        }
    }
}

/// An event that a socket monitor reports.
#[derive(Debug, Clone, Copy, PartialEq, Eq, Structural)]
pub enum MonitorSocketEvent {
    /// The socket has connected to a remote peer.
    Connected,
    /// A connect request is pending.
    ConnectDelayed,
    /// A connect request failed and is retried after the given interval in milliseconds.
    ConnectRetried(u32),
    /// The socket was bound to a network interface.
    Listening,
    /// The socket could not bind to a network interface.
    BindFailed,
    /// The socket accepted a connection from a remote peer.
    Accepted,
    /// The socket rejected a connection from a remote peer.
    AcceptFailed(ZmqError),
    /// The socket was closed.
    Closed,
    /// Closing the socket failed.
    CloseFailed(ZmqError),
    /// The socket was disconnected unexpectedly.
    Disconnected,
    /// Monitoring of the socket ended.
    MonitorStopped,
    /// A handshake failed for an unspecified reason.
    HandshakeFailedNoDetail(ZmqError),
    /// A handshake succeeded.
    HandshakeSucceeded,
    /// A handshake failed on a protocol error.
    HandshakeFailedProtocol(HandshakeProtocolError),
    /// A handshake failed on authentication, with the ZAP status code.
    HandshakeFailedAuth(u32),
    /// Any other event, with its event bits and value.
    UnSupported(MonitorFlags, u32),
}

/// The event that a monitor reports with the event bits `id` and the value `value`.
pub open spec fn event_of(id: u16, value: u32) -> MonitorSocketEvent {
    if id == 0x1 {
        MonitorSocketEvent::Connected
    } else if id == 0x2 {
        MonitorSocketEvent::ConnectDelayed
    } else if id == 0x4 {
        MonitorSocketEvent::ConnectRetried(value)
    } else if id == 0x8 {
        MonitorSocketEvent::Listening
    } else if id == 0x20 {
        MonitorSocketEvent::Accepted
    } else if id == 0x40 {
        MonitorSocketEvent::AcceptFailed(error_of(value as i32))
    } else if id == 0x80 {
        MonitorSocketEvent::Closed
    } else if id == 0x100 {
        MonitorSocketEvent::CloseFailed(error_of(value as i32))
    } else if id == 0x200 {
        MonitorSocketEvent::Disconnected
    } else if id == 0x400 {
        MonitorSocketEvent::MonitorStopped
    } else if id == 0x800 {
        MonitorSocketEvent::HandshakeFailedNoDetail(error_of(value as i32))
    } else if id == 0x1000 {
        MonitorSocketEvent::HandshakeSucceeded
    } else if id == 0x2000 {
        MonitorSocketEvent::HandshakeFailedProtocol(handshake_error_of(value))
    } else if id == 0x4000 {
        MonitorSocketEvent::HandshakeFailedAuth(value)
    } else {
        MonitorSocketEvent::UnSupported(MonitorFlags::from_bits_retain_spec(id), value)
    }
}

/// The event that a monitor's two-part message reports: the first part holds six bytes,
/// the event bits as a little-endian `u16` and the value as a little-endian `u32`. Any
/// other shape is refused with `InvalidArgument`.
pub open spec fn event_of_parts(parts: Seq<crate::message::Message>) -> ZmqResult<MonitorSocketEvent> {
    if parts.len() != 2 || parts[0].data().len() != 6 {
        Err(ZmqError::InvalidArgument)
    } else {
        Ok(
            event_of(
                spec_u16_from_le_bytes(parts[0].data().subrange(0, 2)),
                spec_u32_from_le_bytes(parts[0].data().subrange(2, 6)),
            ),
        )
    }
}

/// Reading a monitor's event message gives the event it was written for: a two-part message
/// whose first part is the event bits and the value in little-endian order stands for
/// exactly that event.
pub proof fn lemma_event_message_read_back(id: u16, value: u32, parts: Seq<crate::message::Message>)
    requires
        parts.len() == 2,
        parts[0].data() == spec_u16_to_le_bytes(id) + spec_u32_to_le_bytes(value),
    ensures
        event_of_parts(parts) == Ok::<MonitorSocketEvent, ZmqError>(event_of(id, value)),
{
    lemma_auto_spec_u16_to_from_le_bytes();
    lemma_auto_spec_u32_to_from_le_bytes();
    let d = parts[0].data();
    assert(d.subrange(0, 2) =~= spec_u16_to_le_bytes(id));
    assert(d.subrange(2, 6) =~= spec_u32_to_le_bytes(value));
}

impl vstd::std_specs::convert::TryFromSpecImpl<MultipartMessage> for MonitorSocketEvent {
    open spec fn obeys_try_from_spec() -> bool {
        true
    }

    open spec fn try_from_spec(parts: MultipartMessage) -> ZmqResult<MonitorSocketEvent> {
        event_of_parts(parts@)
    }
}

impl TryFrom<MultipartMessage> for MonitorSocketEvent {
    type Error = ZmqError;

    fn try_from(zmq_msgs: MultipartMessage) -> (r: Result<Self, Self::Error>) {
        if zmq_msgs.len() != 2 {
            return Err(ZmqError::InvalidArgument);
        }
        let first = match zmq_msgs.get(0) {
            Some(m) => m,
            None => return Err(ZmqError::InvalidArgument),
        };
        if first.len() != 6 {
            return Err(ZmqError::InvalidArgument);
        }
        let bytes = first.bytes();
        let event_id = u16_from_le_bytes(vstd::slice::slice_subrange(bytes.as_slice(), 0, 2));
        let event_value = u32_from_le_bytes(vstd::slice::slice_subrange(bytes.as_slice(), 2, 6));
        let event = match event_id {
            0x1 => MonitorSocketEvent::Connected,
            0x2 => MonitorSocketEvent::ConnectDelayed,
            0x4 => MonitorSocketEvent::ConnectRetried(event_value),
            0x8 => MonitorSocketEvent::Listening,
            0x20 => MonitorSocketEvent::Accepted,
            0x40 => MonitorSocketEvent::AcceptFailed(ZmqError::from_errno(event_value as i32)),
            0x80 => MonitorSocketEvent::Closed,
            0x100 => MonitorSocketEvent::CloseFailed(ZmqError::from_errno(event_value as i32)),
            0x200 => MonitorSocketEvent::Disconnected,
            0x400 => MonitorSocketEvent::MonitorStopped,
            0x800 => MonitorSocketEvent::HandshakeFailedNoDetail(
                ZmqError::from_errno(event_value as i32),
            ),
            0x1000 => MonitorSocketEvent::HandshakeSucceeded,
            0x2000 => MonitorSocketEvent::HandshakeFailedProtocol(
                HandshakeProtocolError::from(event_value),
            ),
            0x4000 => MonitorSocketEvent::HandshakeFailedAuth(event_value),
            other => MonitorSocketEvent::UnSupported(
                MonitorFlags::from_bits_retain(other),
                event_value,
            ),
        };
        Ok(event)
    }
}

/// Kind of the sockets that receive a monitor's events: pair sockets.
pub struct Monitor {}

/// A socket that receives a monitor's events.
pub type MonitorSocket = Socket<Monitor>;

impl sealed::SocketType for Monitor {
    open spec fn spec_socket_type() -> SocketType {
        SocketType::Pair
    }

    fn raw_socket_type() -> (r: SocketType) {
        SocketType::Pair
    }
}

impl sealed::ReceiverFlag for Monitor {}

/// Sockets that receive monitor events.
pub trait MonitorReceiver {
    /// The event that the multipart message received with `DONT_WAIT` reports, or the error
    /// of receiving it.
    fn recv_monitor_event(&self, received: ZmqResult<MultipartMessage>) -> (r: ZmqResult<
        MonitorSocketEvent,
    >)
        ensures
            match received {
                Ok(parts) => r == event_of_parts(parts@),
                Err(e) => r == Err::<MonitorSocketEvent, ZmqError>(e),
            },
    ;
}

impl MonitorReceiver for MonitorSocket {
    fn recv_monitor_event(&self, received: ZmqResult<MultipartMessage>) -> (r: ZmqResult<
        MonitorSocketEvent,
    >) {
        match received {
            Ok(parts) => MonitorSocketEvent::try_from(parts),
            Err(e) => Err(e),
        }
    }
}

} // verus!
