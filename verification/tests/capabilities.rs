use arzmq::error::ZmqError;
use arzmq::socket::{PollEvents, ReconnectStop, RecvFlags, SendFlags};
use arzmq::Capability;

#[test]
fn capability_names() {
    assert_eq!(Capability::Ipc.to_string(), "ipc");
    assert_eq!(Capability::Pgm.to_string(), "pgm");
    assert_eq!(Capability::Tipc.to_string(), "tipc");
    assert_eq!(Capability::Vmci.to_string(), "vmci");
    assert_eq!(Capability::Norm.to_string(), "norm");
    assert_eq!(Capability::Curve.as_str(), "curve");
    assert_eq!(Capability::GssApi.as_str(), "gssapi");
    assert_eq!(Capability::Draft.as_str(), "draft");
}

#[test]
fn errno_maps_to_error_and_back() {
    for code in [2, 4, 11, 13, 14, 22, 95, 110, 113, 156384763, 156384765] {
        let e = ZmqError::from_errno(code);
        assert!(!matches!(e, ZmqError::Other(_)));
        assert_eq!(e.errno(), code);
        assert_eq!(ZmqError::from(code), e);
    }
    assert_eq!(ZmqError::from_errno(22), ZmqError::InvalidArgument);
    assert_eq!(ZmqError::from_errno(156384765), ZmqError::ContextTerminated);
}

#[test]
fn unknown_errno_is_kept() {
    assert_eq!(ZmqError::from_errno(-7), ZmqError::Other(-7));
    assert_eq!(ZmqError::Other(-7).errno(), -7);
}

#[test]
fn flag_sets_combine() {
    let more = SendFlags::DONT_WAIT().union(SendFlags::SEND_MORE());
    assert_eq!(more.bits(), 3);
    assert!(more.contains(SendFlags::SEND_MORE()));
    assert_eq!(more.intersection(SendFlags::SEND_MORE()), SendFlags::SEND_MORE());
    assert!(SendFlags::empty().is_empty());
    assert_eq!(SendFlags::all(), more);
    assert_eq!(RecvFlags::DONT_WAIT().bits(), 1);
    assert_eq!(PollEvents::from_bits_truncate(0x7f).bits(), 0xf);
    assert_eq!(PollEvents::from_bits_retain(0x7f).bits(), 0x7f);
    assert_eq!(
        ReconnectStop::CONNECTION_REFUSED()
            .union(ReconnectStop::HANDSHAKE_FAILED())
            .union(ReconnectStop::AFTER_DISCONNECT()),
        ReconnectStop::all()
    );
}
