//! Errors reported by 0MQ operations, and their mapping from `errno` codes.
use vstd::prelude::*;

verus! {

/// Base of the error codes that 0MQ defines itself.
pub const ZMQ_HAUSNUMERO: i32 = 156384712;

/// Errors that 0MQ operations report, each for one `errno` value.
#[derive(Debug, Clone, Copy, PartialEq, Eq, Structural)]
pub enum ZmqError {
    /// `EACCES`
    PermissionDenied,
    /// `EADDRINUSE`
    AddressInUse,
    /// `EAGAIN`: the operation would block
    Again,
    /// `EBUSY`
    ResourceBusy,
    /// `ECONNREFUSED`
    ConnectionRefused,
    /// `EFAULT`: the context or socket was invalid
    ContextInvalid,
    /// `EINTR`
    Interrupted,
    /// `EHOSTUNREACH`
    HostUnreachable,
    /// `ENETRESET`
    NetworkReset,
    /// `EINPROGRESS`
    InProgress,
    /// `EINVAL`
    InvalidArgument,
    /// `EMFILE`
    SocketLimitReached,
    /// `EMSGSIZE`
    MessageTooLong,
    /// `EAFNOSUPPORT`
    AddressFamilyNotSupported,
    /// `ENETUNREACH`
    NetworkUnreachable,
    /// `ECONNABORTED`
    ConnectionAborted,
    /// `ECONNRESET`
    ConnectionReset,
    /// `ENAMETOOLONG`
    NameTooLong,
    /// `ENODEV`
    NoSuchDevice,
    /// `ENOENT`
    EndpointNotFound,
    /// `ENOMEM`
    OutOfMemory,
    /// `ENOTCONN`
    NotConnected,
    /// `ETIMEDOUT`
    Timeout,
    /// `ENOTSOCK`
    NotASocket,
    /// `EPROTO`
    ProtocolError,
    /// `EPROTONOSUPPORT`
    ProtocolNotSupported,
    /// `ENOTSUP`
    Unsupported,
    /// `ENOBUFS`
    NoBufferSpace,
    /// `ENETDOWN`
    NetworkDown,
    /// `EADDRNOTAVAIL`
    AddressNotAvailable,
    /// `EFSM`: the operation is not possible in the socket's current state
    OperationNotPossible,
    /// `ENOCOMPATPROTO`
    IncompatibleProtocol,
    /// `ETERM`: the context was terminated
    ContextTerminated,
    /// `EMTHREAD`
    NoThreadAvailable,
    /// Any other `errno` value
    Other(i32),
}

/// Result type of 0MQ operations.
pub type ZmqResult<T> = Result<T, ZmqError>;

/// The `errno` value (Linux numbering) that an error stands for.
pub open spec fn system_errno(e: ZmqError) -> int {
    match e {
        ZmqError::PermissionDenied => 13,
        ZmqError::AddressInUse => 98,
        ZmqError::Again => 11,
        ZmqError::ResourceBusy => 16,
        ZmqError::ConnectionRefused => 111,
        ZmqError::ContextInvalid => 14,
        ZmqError::Interrupted => 4,
        ZmqError::HostUnreachable => 113,
        ZmqError::NetworkReset => 102,
        ZmqError::InProgress => 115,
        ZmqError::InvalidArgument => 22,
        ZmqError::SocketLimitReached => 24,
        ZmqError::MessageTooLong => 90,
        ZmqError::AddressFamilyNotSupported => 97,
        ZmqError::NetworkUnreachable => 101,
        ZmqError::ConnectionAborted => 103,
        ZmqError::ConnectionReset => 104,
        ZmqError::NameTooLong => 36,
        ZmqError::NoSuchDevice => 19,
        ZmqError::EndpointNotFound => 2,
        ZmqError::OutOfMemory => 12,
        ZmqError::NotConnected => 107,
        ZmqError::Timeout => 110,
        ZmqError::NotASocket => 88,
        ZmqError::ProtocolError => 71,
        ZmqError::ProtocolNotSupported => 93,
        ZmqError::Unsupported => 95,
        ZmqError::NoBufferSpace => 105,
        ZmqError::NetworkDown => 100,
        ZmqError::AddressNotAvailable => 99,
        ZmqError::OperationNotPossible => ZMQ_HAUSNUMERO + 51,
        ZmqError::IncompatibleProtocol => ZMQ_HAUSNUMERO + 52,
        ZmqError::ContextTerminated => ZMQ_HAUSNUMERO + 53,
        ZmqError::NoThreadAvailable => ZMQ_HAUSNUMERO + 54,
        ZmqError::Other(code) => code as int,
    }
}

/// The replacement code that 0MQ uses for an error on platforms that lack the system
/// `errno` value; `None` where 0MQ defines none.
pub open spec fn fallback_errno(e: ZmqError) -> Option<int> {
    match e {
        ZmqError::Unsupported => Some(ZMQ_HAUSNUMERO + 1),
        ZmqError::ProtocolNotSupported => Some(ZMQ_HAUSNUMERO + 2),
        ZmqError::NoBufferSpace => Some(ZMQ_HAUSNUMERO + 3),
        ZmqError::NetworkDown => Some(ZMQ_HAUSNUMERO + 4),
        ZmqError::AddressInUse => Some(ZMQ_HAUSNUMERO + 5),
        ZmqError::AddressNotAvailable => Some(ZMQ_HAUSNUMERO + 6),
        ZmqError::ConnectionRefused => Some(ZMQ_HAUSNUMERO + 7),
        ZmqError::InProgress => Some(ZMQ_HAUSNUMERO + 8),
        ZmqError::NotASocket => Some(ZMQ_HAUSNUMERO + 9),
        ZmqError::MessageTooLong => Some(ZMQ_HAUSNUMERO + 10),
        ZmqError::AddressFamilyNotSupported => Some(ZMQ_HAUSNUMERO + 11),
        ZmqError::NetworkUnreachable => Some(ZMQ_HAUSNUMERO + 12),
        ZmqError::ConnectionAborted => Some(ZMQ_HAUSNUMERO + 13),
        ZmqError::ConnectionReset => Some(ZMQ_HAUSNUMERO + 14),
        ZmqError::NotConnected => Some(ZMQ_HAUSNUMERO + 15),
        ZmqError::Timeout => Some(ZMQ_HAUSNUMERO + 16),
        ZmqError::HostUnreachable => Some(ZMQ_HAUSNUMERO + 17),
        ZmqError::NetworkReset => Some(ZMQ_HAUSNUMERO + 18),
        _ => None,
    }
}

/// Whether `code` is one of the codes that an error stands for.
pub open spec fn denotes(e: ZmqError, code: i32) -> bool {
    system_errno(e) == code as int || fallback_errno(e) == Some(code as int)
}

/// Whether some named error (not `Other`) stands for `code`.
pub open spec fn is_known_errno(code: i32) -> bool {
    exists|e: ZmqError| !(e is Other) && #[trigger] denotes(e, code)
}

/// The error that an `errno` value stands for: the named error that denotes it, or
/// `Other(code)` where there is none.
pub open spec fn error_of(code: i32) -> ZmqError {
    if is_known_errno(code) {
        choose|e: ZmqError| !(e is Other) && #[trigger] denotes(e, code)
    } else {
        ZmqError::Other(code)
    }
}

impl ZmqError {
    /// Maps an `errno` value to the error it stands for; codes that no named error stands for
    /// become `Other(code)`.
    pub fn from_errno(errno: i32) -> (r: ZmqError)
        ensures
            denotes(r, errno),
            r is Other <==> !is_known_errno(errno),
            r == error_of(errno),
    {
        let r = match errno {
            13 => ZmqError::PermissionDenied,
            98 => ZmqError::AddressInUse,
            11 => ZmqError::Again,
            16 => ZmqError::ResourceBusy,
            111 => ZmqError::ConnectionRefused,
            14 => ZmqError::ContextInvalid,
            4 => ZmqError::Interrupted,
            113 => ZmqError::HostUnreachable,
            102 => ZmqError::NetworkReset,
            115 => ZmqError::InProgress,
            22 => ZmqError::InvalidArgument,
            24 => ZmqError::SocketLimitReached,
            90 => ZmqError::MessageTooLong,
            97 => ZmqError::AddressFamilyNotSupported,
            101 => ZmqError::NetworkUnreachable,
            103 => ZmqError::ConnectionAborted,
            104 => ZmqError::ConnectionReset,
            36 => ZmqError::NameTooLong,
            19 => ZmqError::NoSuchDevice,
            2 => ZmqError::EndpointNotFound,
            12 => ZmqError::OutOfMemory,
            107 => ZmqError::NotConnected,
            110 => ZmqError::Timeout,
            88 => ZmqError::NotASocket,
            71 => ZmqError::ProtocolError,
            93 => ZmqError::ProtocolNotSupported,
            95 => ZmqError::Unsupported,
            105 => ZmqError::NoBufferSpace,
            100 => ZmqError::NetworkDown,
            99 => ZmqError::AddressNotAvailable,
            156384763 => ZmqError::OperationNotPossible,
            156384764 => ZmqError::IncompatibleProtocol,
            156384765 => ZmqError::ContextTerminated,
            156384766 => ZmqError::NoThreadAvailable,
            156384713 => ZmqError::Unsupported,
            156384714 => ZmqError::ProtocolNotSupported,
            156384715 => ZmqError::NoBufferSpace,
            156384716 => ZmqError::NetworkDown,
            156384717 => ZmqError::AddressInUse,
            156384718 => ZmqError::AddressNotAvailable,
            156384719 => ZmqError::ConnectionRefused,
            156384720 => ZmqError::InProgress,
            156384721 => ZmqError::NotASocket,
            156384722 => ZmqError::MessageTooLong,
            156384723 => ZmqError::AddressFamilyNotSupported,
            156384724 => ZmqError::NetworkUnreachable,
            156384725 => ZmqError::ConnectionAborted,
            156384726 => ZmqError::ConnectionReset,
            156384727 => ZmqError::NotConnected,
            156384728 => ZmqError::Timeout,
            156384729 => ZmqError::HostUnreachable,
            156384730 => ZmqError::NetworkReset,
            other => ZmqError::Other(other),
        };
        proof {
            if r is Other {
                assert forall|e: ZmqError| !(e is Other) implies !#[trigger] denotes(e, errno) by {
                    match e {
                        ZmqError::Other(_) => {},
                        _ => {},
                    }
                }
            } else {
                assert(denotes(r, errno));
                let c = choose|e: ZmqError| !(e is Other) && #[trigger] denotes(e, errno);
                lemma_denotes_unique(r, c, errno);
            }
        }
        r
    }

    /// The `errno` value this error stands for.
    pub fn errno(&self) -> (r: i32)
        ensures
            r == system_errno(*self),
    {
        match self {
            ZmqError::PermissionDenied => 13,
            ZmqError::AddressInUse => 98,
            ZmqError::Again => 11,
            ZmqError::ResourceBusy => 16,
            ZmqError::ConnectionRefused => 111,
            ZmqError::ContextInvalid => 14,
            ZmqError::Interrupted => 4,
            ZmqError::HostUnreachable => 113,
            ZmqError::NetworkReset => 102,
            ZmqError::InProgress => 115,
            ZmqError::InvalidArgument => 22,
            ZmqError::SocketLimitReached => 24,
            ZmqError::MessageTooLong => 90,
            ZmqError::AddressFamilyNotSupported => 97,
            ZmqError::NetworkUnreachable => 101,
            ZmqError::ConnectionAborted => 103,
            ZmqError::ConnectionReset => 104,
            ZmqError::NameTooLong => 36,
            ZmqError::NoSuchDevice => 19,
            ZmqError::EndpointNotFound => 2,
            ZmqError::OutOfMemory => 12,
            ZmqError::NotConnected => 107,
            ZmqError::Timeout => 110,
            ZmqError::NotASocket => 88,
            ZmqError::ProtocolError => 71,
            ZmqError::ProtocolNotSupported => 93,
            ZmqError::Unsupported => 95,
            ZmqError::NoBufferSpace => 105,
            ZmqError::NetworkDown => 100,
            ZmqError::AddressNotAvailable => 99,
            ZmqError::OperationNotPossible => 156384763,
            ZmqError::IncompatibleProtocol => 156384764,
            ZmqError::ContextTerminated => 156384765,
            ZmqError::NoThreadAvailable => 156384766,
            ZmqError::Other(code) => *code,
        }
    }
}

impl vstd::std_specs::convert::FromSpecImpl<i32> for ZmqError {
    open spec fn obeys_from_spec() -> bool {
        true
    }

    open spec fn from_spec(errno: i32) -> ZmqError {
        error_of(errno)
    }
}

impl From<i32> for ZmqError {
    fn from(errno: i32) -> (r: ZmqError) {
        ZmqError::from_errno(errno)
    }
}

/// No two named errors stand for the same code, so `from_errno` gives back the error whose
/// code it was handed.
pub proof fn lemma_denotes_unique(e1: ZmqError, e2: ZmqError, code: i32)
    requires
        !(e1 is Other),
        !(e2 is Other),
        denotes(e1, code),
        denotes(e2, code),
    ensures
        e1 == e2,
{
}

/// Mapping the `errno` value of an error back gives that error: for each named error, and
/// for `Other(code)` where no named error stands for `code`.
pub proof fn lemma_errno_round_trip(e: ZmqError)
    requires
        e matches ZmqError::Other(code) ==> !is_known_errno(code),
    ensures
        error_of(system_errno(e) as i32) == e,
{
    let code = system_errno(e) as i32;
    if !(e is Other) {
        assert(system_errno(e) == code as int);
        assert(denotes(e, code));
        let c = choose|x: ZmqError| !(x is Other) && #[trigger] denotes(x, code);
        lemma_denotes_unique(c, e, code);
    }
}

} // verus!
