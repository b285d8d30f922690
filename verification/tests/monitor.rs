use arzmq::message::{Message, MultipartMessage};
use arzmq::socket::{HandshakeProtocolError, MonitorFlags, MonitorSocketEvent};
use arzmq::ZmqError;

fn event_message(bits: u16, value: u32) -> MultipartMessage {
    let mut first = bits.to_le_bytes().to_vec();
    first.extend(value.to_le_bytes());
    let parts: Vec<Message> = vec![first.into(), vec![].into()];
    parts.into()
}

#[test]
fn try_from_mutipart_with_too_few_parts() {
    let multipart: MultipartMessage = vec!["asdf".into()].into();
    let result = MonitorSocketEvent::try_from(multipart);
    assert!(result.is_err_and(|err| err == ZmqError::InvalidArgument));
}

#[test]
fn try_from_mutipart_with_too_many_parts() {
    let multipart: MultipartMessage = vec!["asdf".into(), "asdf".into(), "asdf".into()].into();
    let result = MonitorSocketEvent::try_from(multipart);
    assert!(result.is_err_and(|err| err == ZmqError::InvalidArgument));
}

#[test]
fn try_from_mutipart_with_too_short_first_part() {
    let multipart: MultipartMessage = vec!["asdf".into(), "asdf".into()].into();
    let result = MonitorSocketEvent::try_from(multipart);
    assert!(result.is_err_and(|err| err == ZmqError::InvalidArgument));
}

#[test]
fn try_from_mutipart_with_too_long_first_part() {
    let multipart: MultipartMessage = vec!["asdfasdf".into(), "asdf".into()].into();
    let result = MonitorSocketEvent::try_from(multipart);
    assert!(result.is_err_and(|err| err == ZmqError::InvalidArgument));
}

#[test]
fn try_from_multipart_succeeds() {
    let cases: Vec<(MonitorFlags, u32, MonitorSocketEvent)> = vec![
        (MonitorFlags::Connected(), 0, MonitorSocketEvent::Connected),
        (MonitorFlags::ConnectDelayed(), 0, MonitorSocketEvent::ConnectDelayed),
        (MonitorFlags::ConnectRetried(), 42, MonitorSocketEvent::ConnectRetried(42)),
        (MonitorFlags::Listening(), 0, MonitorSocketEvent::Listening),
        (MonitorFlags::Accepted(), 0, MonitorSocketEvent::Accepted),
        (
            MonitorFlags::AcceptFailed(),
            14,
            MonitorSocketEvent::AcceptFailed(ZmqError::ContextInvalid),
        ),
        (MonitorFlags::Closed(), 0, MonitorSocketEvent::Closed),
        (
            MonitorFlags::CloseFailed(),
            14,
            MonitorSocketEvent::CloseFailed(ZmqError::ContextInvalid),
        ),
        (MonitorFlags::Disconnected(), 0, MonitorSocketEvent::Disconnected),
        (MonitorFlags::MonitorStopped(), 0, MonitorSocketEvent::MonitorStopped),
        (
            MonitorFlags::HandshakeFailedNoDetail(),
            14,
            MonitorSocketEvent::HandshakeFailedNoDetail(ZmqError::ContextInvalid),
        ),
        (MonitorFlags::HandshakeSucceeded(), 0, MonitorSocketEvent::HandshakeSucceeded),
        (
            MonitorFlags::HandshakeFailedProtocol(),
            0x10000000,
            MonitorSocketEvent::HandshakeFailedProtocol(HandshakeProtocolError::ZmtpUnspecified),
        ),
        (MonitorFlags::HandshakeFailedAuth(), 404, MonitorSocketEvent::HandshakeFailedAuth(404)),
        (
            MonitorFlags::HandshakeFailedAuth().union(MonitorFlags::Connected()),
            42,
            MonitorSocketEvent::UnSupported(
                MonitorFlags::HandshakeFailedAuth().union(MonitorFlags::Connected()),
                42,
            ),
        ),
    ];
    for (flags, value, expected) in cases {
        assert_eq!(MonitorSocketEvent::try_from(event_message(flags.bits(), value)), Ok(expected));
    }
}

#[test]
fn bind_failed_event_is_not_told_apart() {
    assert_eq!(
        MonitorSocketEvent::try_from(event_message(MonitorFlags::BindFailed().bits(), 98)),
        Ok(MonitorSocketEvent::UnSupported(MonitorFlags::BindFailed(), 98))
    );
}

#[test]
fn handshake_protocol_errors_are_mapped() {
    assert_eq!(HandshakeProtocolError::from(0x10000000), HandshakeProtocolError::ZmtpUnspecified);
    assert_eq!(HandshakeProtocolError::from(0x20000005), HandshakeProtocolError::ZapInvalidMetadata);
    assert_eq!(HandshakeProtocolError::from(7), HandshakeProtocolError::UnsupportedError(7));
}
