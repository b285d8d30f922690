//! Bit flag sets used by socket operations.
use vstd::prelude::*;

verus! {

/// Events that a socket monitor reports.
#[derive(Debug, Clone, Copy, PartialEq, Eq, Hash, Structural)]
pub struct MonitorFlags {
    bits: u16,
}

impl MonitorFlags {
    /// The raw bits of the set.
    pub closed spec fn spec_bits(self) -> u16 {
        self.bits
    }

    /// The bits of all flags this set knows.
    pub open spec fn spec_all() -> u16 {
        0x7fff
    }

    /// The raw bits of the set.
    pub fn bits(&self) -> (r: u16)
        ensures
            r == self.spec_bits(),
    {
        self.bits
    }

    /// The set of no flags.
    pub fn empty() -> (r: Self)
        ensures
            r.spec_bits() == 0,
    {
        MonitorFlags { bits: 0 }
    }

    /// The set of all flags this set knows.
    pub fn all() -> (r: Self)
        ensures
            r.spec_bits() == Self::spec_all(),
    {
        MonitorFlags { bits: 0x7fff }
    }

    /// The set of the known flags among `bits`, as a spec value.
    pub closed spec fn from_bits_truncate_spec(bits: u16) -> Self {
        MonitorFlags { bits: bits & 0x7fff }
    }

    /// The set of the known flags among `bits`; unknown bits are dropped.
    pub fn from_bits_truncate(bits: u16) -> (r: Self)
        ensures
            r.spec_bits() == bits & Self::spec_all(),
            r == Self::from_bits_truncate_spec(bits),
    {
        MonitorFlags { bits: bits & 0x7fff }
    }

    /// The set with exactly the given bits, as a spec value.
    pub closed spec fn from_bits_retain_spec(bits: u16) -> Self {
        MonitorFlags { bits }
    }

    /// The set with exactly the given bits, known or not.
    pub fn from_bits_retain(bits: u16) -> (r: Self)
        ensures
            r.spec_bits() == bits,
            r == Self::from_bits_retain_spec(bits),
    {
        MonitorFlags { bits }
    }

    /// Whether the set holds no flag.
    pub fn is_empty(&self) -> (r: bool)
        ensures
            r == (self.spec_bits() == 0),
    {
        self.bits == 0
    }

    /// Whether every flag of `other` is in this set.
    pub fn contains(&self, other: Self) -> (r: bool)
        ensures
            r == (self.spec_bits() & other.spec_bits() == other.spec_bits()),
    {
        self.bits & other.bits == other.bits
    }

    /// The flags that are in either set.
    pub fn union(self, other: Self) -> (r: Self)
        ensures
            r.spec_bits() == self.spec_bits() | other.spec_bits(),
    {
        MonitorFlags { bits: self.bits | other.bits }
    }

    /// The flags that are in both sets.
    pub fn intersection(self, other: Self) -> (r: Self)
        ensures
            r.spec_bits() == self.spec_bits() & other.spec_bits(),
    {
        MonitorFlags { bits: self.bits & other.bits }
    }

    /// The socket has successfully connected to a remote peer.
    #[allow(non_snake_case)]
    pub fn Connected() -> (r: Self)
        ensures
            r.spec_bits() == 0x1,
    {
        MonitorFlags { bits: 0x1 }
    }

    /// A connect request on the socket is pending.
    #[allow(non_snake_case)]
    pub fn ConnectDelayed() -> (r: Self)
        ensures
            r.spec_bits() == 0x2,
    {
        MonitorFlags { bits: 0x2 }
    }

    /// A connect request failed, and is now being retried.
    #[allow(non_snake_case)]
    pub fn ConnectRetried() -> (r: Self)
        ensures
            r.spec_bits() == 0x4,
    {
        MonitorFlags { bits: 0x4 }
    }

    /// The socket was successfully bound to a network interface.
    #[allow(non_snake_case)]
    pub fn Listening() -> (r: Self)
        ensures
            r.spec_bits() == 0x8,
    {
        MonitorFlags { bits: 0x8 }
    }

    /// The socket could not bind to a given interface.
    #[allow(non_snake_case)]
    pub fn BindFailed() -> (r: Self)
        ensures
            r.spec_bits() == 0x10,
    {
        MonitorFlags { bits: 0x10 }
    }

    /// The socket has accepted a connection from a remote peer.
    #[allow(non_snake_case)]
    pub fn Accepted() -> (r: Self)
        ensures
            r.spec_bits() == 0x20,
    {
        MonitorFlags { bits: 0x20 }
    }

    /// The socket has rejected a connection from a remote peer.
    #[allow(non_snake_case)]
    pub fn AcceptFailed() -> (r: Self)
        ensures
            r.spec_bits() == 0x40,
    {
        MonitorFlags { bits: 0x40 }
    }

    /// The socket was closed.
    #[allow(non_snake_case)]
    pub fn Closed() -> (r: Self)
        ensures
            r.spec_bits() == 0x80,
    {
        MonitorFlags { bits: 0x80 }
    }

    /// The socket close failed.
    #[allow(non_snake_case)]
    pub fn CloseFailed() -> (r: Self)
        ensures
            r.spec_bits() == 0x100,
    {
        MonitorFlags { bits: 0x100 }
    }

    /// The socket was disconnected unexpectedly.
    #[allow(non_snake_case)]
    pub fn Disconnected() -> (r: Self)
        ensures
            r.spec_bits() == 0x200,
    {
        MonitorFlags { bits: 0x200 }
    }

    /// Monitoring on this socket ended.
    #[allow(non_snake_case)]
    pub fn MonitorStopped() -> (r: Self)
        ensures
            r.spec_bits() == 0x400,
    {
        MonitorFlags { bits: 0x400 }
    }

    /// Unspecified error during handshake.
    #[allow(non_snake_case)]
    pub fn HandshakeFailedNoDetail() -> (r: Self)
        ensures
            r.spec_bits() == 0x800,
    {
        MonitorFlags { bits: 0x800 }
    }

    /// The ZMTP security mechanism handshake succeeded.
    #[allow(non_snake_case)]
    pub fn HandshakeSucceeded() -> (r: Self)
        ensures
            r.spec_bits() == 0x1000,
    {
        MonitorFlags { bits: 0x1000 }
    }

    /// The ZMTP security mechanism handshake failed due to some mechanism protocol error.
    #[allow(non_snake_case)]
    pub fn HandshakeFailedProtocol() -> (r: Self)
        ensures
            r.spec_bits() == 0x2000,
    {
        MonitorFlags { bits: 0x2000 }
    }

    /// The ZMTP security mechanism handshake failed due to an authentication failure.
    #[allow(non_snake_case)]
    pub fn HandshakeFailedAuth() -> (r: Self)
        ensures
            r.spec_bits() == 0x4000,
    {
        MonitorFlags { bits: 0x4000 }
    }

}


/// Flags for receiving messages.
#[derive(Debug, Clone, Copy, PartialEq, Eq, Hash, Structural)]
pub struct RecvFlags {
    bits: i32,
}

impl RecvFlags {
    /// The raw bits of the set.
    pub closed spec fn spec_bits(self) -> i32 {
        self.bits
    }

    /// The bits of all flags this set knows.
    pub open spec fn spec_all() -> i32 {
        0x1
    }

    /// The raw bits of the set.
    pub fn bits(&self) -> (r: i32)
        ensures
            r == self.spec_bits(),
    {
        self.bits
    }

    /// The set of no flags.
    pub fn empty() -> (r: Self)
        ensures
            r.spec_bits() == 0,
    {
        RecvFlags { bits: 0 }
    }

    /// The set of all flags this set knows.
    pub fn all() -> (r: Self)
        ensures
            r.spec_bits() == Self::spec_all(),
    {
        RecvFlags { bits: 0x1 }
    }

    /// The set of the known flags among `bits`, as a spec value.
    pub closed spec fn from_bits_truncate_spec(bits: i32) -> Self {
        RecvFlags { bits: bits & 0x1 }
    }

    /// The set of the known flags among `bits`; unknown bits are dropped.
    pub fn from_bits_truncate(bits: i32) -> (r: Self)
        ensures
            r.spec_bits() == bits & Self::spec_all(),
            r == Self::from_bits_truncate_spec(bits),
    {
        RecvFlags { bits: bits & 0x1 }
    }

    /// The set with exactly the given bits, as a spec value.
    pub closed spec fn from_bits_retain_spec(bits: i32) -> Self {
        RecvFlags { bits }
    }

    /// The set with exactly the given bits, known or not.
    pub fn from_bits_retain(bits: i32) -> (r: Self)
        ensures
            r.spec_bits() == bits,
            r == Self::from_bits_retain_spec(bits),
    {
        RecvFlags { bits }
    }

    /// Whether the set holds no flag.
    pub fn is_empty(&self) -> (r: bool)
        ensures
            r == (self.spec_bits() == 0),
    {
        self.bits == 0
    }

    /// Whether every flag of `other` is in this set.
    pub fn contains(&self, other: Self) -> (r: bool)
        ensures
            r == (self.spec_bits() & other.spec_bits() == other.spec_bits()),
    {
        self.bits & other.bits == other.bits
    }

    /// The flags that are in either set.
    pub fn union(self, other: Self) -> (r: Self)
        ensures
            r.spec_bits() == self.spec_bits() | other.spec_bits(),
    {
        RecvFlags { bits: self.bits | other.bits }
    }

    /// The flags that are in both sets.
    pub fn intersection(self, other: Self) -> (r: Self)
        ensures
            r.spec_bits() == self.spec_bits() & other.spec_bits(),
    {
        RecvFlags { bits: self.bits & other.bits }
    }

    /// Return at once where no message is available.
    #[allow(non_snake_case)]
    pub fn DONT_WAIT() -> (r: Self)
        ensures
            r.spec_bits() == 0x1,
    {
        RecvFlags { bits: 0x1 }
    }

}


/// Flags for sending messages.
#[derive(Debug, Clone, Copy, PartialEq, Eq, Hash, Structural)]
pub struct SendFlags {
    bits: i32,
}

impl SendFlags {
    /// The raw bits of the set.
    pub closed spec fn spec_bits(self) -> i32 {
        self.bits
    }

    /// The bits of all flags this set knows.
    pub open spec fn spec_all() -> i32 {
        0x3
    }

    /// The raw bits of the set.
    pub fn bits(&self) -> (r: i32)
        ensures
            r == self.spec_bits(),
    {
        self.bits
    }

    /// The set of no flags.
    pub fn empty() -> (r: Self)
        ensures
            r.spec_bits() == 0,
    {
        SendFlags { bits: 0 }
    }

    /// The set of all flags this set knows.
    pub fn all() -> (r: Self)
        ensures
            r.spec_bits() == Self::spec_all(),
    {
        SendFlags { bits: 0x3 }
    }

    /// The set of the known flags among `bits`, as a spec value.
    pub closed spec fn from_bits_truncate_spec(bits: i32) -> Self {
        SendFlags { bits: bits & 0x3 }
    }

    /// The set of the known flags among `bits`; unknown bits are dropped.
    pub fn from_bits_truncate(bits: i32) -> (r: Self)
        ensures
            r.spec_bits() == bits & Self::spec_all(),
            r == Self::from_bits_truncate_spec(bits),
    {
        SendFlags { bits: bits & 0x3 }
    }

    /// The set with exactly the given bits, as a spec value.
    pub closed spec fn from_bits_retain_spec(bits: i32) -> Self {
        SendFlags { bits }
    }

    /// The set with exactly the given bits, known or not.
    pub fn from_bits_retain(bits: i32) -> (r: Self)
        ensures
            r.spec_bits() == bits,
            r == Self::from_bits_retain_spec(bits),
    {
        SendFlags { bits }
    }

    /// Whether the set holds no flag.
    pub fn is_empty(&self) -> (r: bool)
        ensures
            r == (self.spec_bits() == 0),
    {
        self.bits == 0
    }

    /// Whether every flag of `other` is in this set.
    pub fn contains(&self, other: Self) -> (r: bool)
        ensures
            r == (self.spec_bits() & other.spec_bits() == other.spec_bits()),
    {
        self.bits & other.bits == other.bits
    }

    /// The flags that are in either set.
    pub fn union(self, other: Self) -> (r: Self)
        ensures
            r.spec_bits() == self.spec_bits() | other.spec_bits(),
    {
        SendFlags { bits: self.bits | other.bits }
    }

    /// The flags that are in both sets.
    pub fn intersection(self, other: Self) -> (r: Self)
        ensures
            r.spec_bits() == self.spec_bits() & other.spec_bits(),
    {
        SendFlags { bits: self.bits & other.bits }
    }

    /// Return at once where the message cannot be queued.
    #[allow(non_snake_case)]
    pub fn DONT_WAIT() -> (r: Self)
        ensures
            r.spec_bits() == 0x1,
    {
        SendFlags { bits: 0x1 }
    }

    /// The message is a part of a multipart message and more parts follow.
    #[allow(non_snake_case)]
    pub fn SEND_MORE() -> (r: Self)
        ensures
            r.spec_bits() == 0x2,
    {
        SendFlags { bits: 0x2 }
    }

}


/// Events that a socket can be polled for.
#[derive(Debug, Clone, Copy, PartialEq, Eq, Hash, Structural)]
pub struct PollEvents {
    bits: i16,
}

impl PollEvents {
    /// The raw bits of the set.
    pub closed spec fn spec_bits(self) -> i16 {
        self.bits
    }

    /// The bits of all flags this set knows.
    pub open spec fn spec_all() -> i16 {
        0xf
    }

    /// The raw bits of the set.
    pub fn bits(&self) -> (r: i16)
        ensures
            r == self.spec_bits(),
    {
        self.bits
    }

    /// The set of no flags.
    pub fn empty() -> (r: Self)
        ensures
            r.spec_bits() == 0,
    {
        PollEvents { bits: 0 }
    }

    /// The set of all flags this set knows.
    pub fn all() -> (r: Self)
        ensures
            r.spec_bits() == Self::spec_all(),
    {
        PollEvents { bits: 0xf }
    }

    /// The set of the known flags among `bits`, as a spec value.
    pub closed spec fn from_bits_truncate_spec(bits: i16) -> Self {
        PollEvents { bits: bits & 0xf }
    }

    /// The set of the known flags among `bits`; unknown bits are dropped.
    pub fn from_bits_truncate(bits: i16) -> (r: Self)
        ensures
            r.spec_bits() == bits & Self::spec_all(),
            r == Self::from_bits_truncate_spec(bits),
    {
        PollEvents { bits: bits & 0xf }
    }

    /// The set with exactly the given bits, as a spec value.
    pub closed spec fn from_bits_retain_spec(bits: i16) -> Self {
        PollEvents { bits }
    }

    /// The set with exactly the given bits, known or not.
    pub fn from_bits_retain(bits: i16) -> (r: Self)
        ensures
            r.spec_bits() == bits,
            r == Self::from_bits_retain_spec(bits),
    {
        PollEvents { bits }
    }

    /// Whether the set holds no flag.
    pub fn is_empty(&self) -> (r: bool)
        ensures
            r == (self.spec_bits() == 0),
    {
        self.bits == 0
    }

    /// Whether every flag of `other` is in this set.
    pub fn contains(&self, other: Self) -> (r: bool)
        ensures
            r == (self.spec_bits() & other.spec_bits() == other.spec_bits()),
    {
        self.bits & other.bits == other.bits
    }

    /// The flags that are in either set.
    pub fn union(self, other: Self) -> (r: Self)
        ensures
            r.spec_bits() == self.spec_bits() | other.spec_bits(),
    {
        PollEvents { bits: self.bits | other.bits }
    }

    /// The flags that are in both sets.
    pub fn intersection(self, other: Self) -> (r: Self)
        ensures
            r.spec_bits() == self.spec_bits() & other.spec_bits(),
    {
        PollEvents { bits: self.bits & other.bits }
    }

    /// At least one message may be received without blocking.
    #[allow(non_snake_case)]
    pub fn POLL_IN() -> (r: Self)
        ensures
            r.spec_bits() == 0x1,
    {
        PollEvents { bits: 0x1 }
    }

    /// At least one message may be sent without blocking.
    #[allow(non_snake_case)]
    pub fn POLL_OUT() -> (r: Self)
        ensures
            r.spec_bits() == 0x2,
    {
        PollEvents { bits: 0x2 }
    }

    /// An error condition is present.
    #[allow(non_snake_case)]
    pub fn POLL_ERR() -> (r: Self)
        ensures
            r.spec_bits() == 0x4,
    {
        PollEvents { bits: 0x4 }
    }

    /// Priority data may be read.
    #[allow(non_snake_case)]
    pub fn POLL_PRI() -> (r: Self)
        ensures
            r.spec_bits() == 0x8,
    {
        PollEvents { bits: 0x8 }
    }

}


/// Conditions on which a socket stops reconnecting.
#[derive(Debug, Clone, Copy, PartialEq, Eq, Hash, Structural)]
pub struct ReconnectStop {
    bits: i32,
}

impl ReconnectStop {
    /// The raw bits of the set.
    pub closed spec fn spec_bits(self) -> i32 {
        self.bits
    }

    /// The bits of all flags this set knows.
    pub open spec fn spec_all() -> i32 {
        0x7
    }

    /// The raw bits of the set.
    pub fn bits(&self) -> (r: i32)
        ensures
            r == self.spec_bits(),
    {
        self.bits
    }

    /// The set of no flags.
    pub fn empty() -> (r: Self)
        ensures
            r.spec_bits() == 0,
    {
        ReconnectStop { bits: 0 }
    }

    /// The set of all flags this set knows.
    pub fn all() -> (r: Self)
        ensures
            r.spec_bits() == Self::spec_all(),
    {
        ReconnectStop { bits: 0x7 }
    }

    /// The set of the known flags among `bits`, as a spec value.
    pub closed spec fn from_bits_truncate_spec(bits: i32) -> Self {
        ReconnectStop { bits: bits & 0x7 }
    }

    /// The set of the known flags among `bits`; unknown bits are dropped.
    pub fn from_bits_truncate(bits: i32) -> (r: Self)
        ensures
            r.spec_bits() == bits & Self::spec_all(),
            r == Self::from_bits_truncate_spec(bits),
    {
        ReconnectStop { bits: bits & 0x7 }
    }

    /// The set with exactly the given bits, as a spec value.
    pub closed spec fn from_bits_retain_spec(bits: i32) -> Self {
        ReconnectStop { bits }
    }

    /// The set with exactly the given bits, known or not.
    pub fn from_bits_retain(bits: i32) -> (r: Self)
        ensures
            r.spec_bits() == bits,
            r == Self::from_bits_retain_spec(bits),
    {
        ReconnectStop { bits }
    }

    /// Whether the set holds no flag.
    pub fn is_empty(&self) -> (r: bool)
        ensures
            r == (self.spec_bits() == 0),
    {
        self.bits == 0
    }

    /// Whether every flag of `other` is in this set.
    pub fn contains(&self, other: Self) -> (r: bool)
        ensures
            r == (self.spec_bits() & other.spec_bits() == other.spec_bits()),
    {
        self.bits & other.bits == other.bits
    }

    /// The flags that are in either set.
    pub fn union(self, other: Self) -> (r: Self)
        ensures
            r.spec_bits() == self.spec_bits() | other.spec_bits(),
    {
        ReconnectStop { bits: self.bits | other.bits }
    }

    /// The flags that are in both sets.
    pub fn intersection(self, other: Self) -> (r: Self)
        ensures
            r.spec_bits() == self.spec_bits() & other.spec_bits(),
    {
        ReconnectStop { bits: self.bits & other.bits }
    }

    /// Stop reconnecting when a connection is refused.
    #[allow(non_snake_case)]
    pub fn CONNECTION_REFUSED() -> (r: Self)
        ensures
            r.spec_bits() == 0x1,
    {
        ReconnectStop { bits: 0x1 }
    }

    /// Stop reconnecting when a handshake fails.
    #[allow(non_snake_case)]
    pub fn HANDSHAKE_FAILED() -> (r: Self)
        ensures
            r.spec_bits() == 0x2,
    {
        ReconnectStop { bits: 0x2 }
    }

    /// Stop reconnecting after a disconnect.
    #[allow(non_snake_case)]
    pub fn AFTER_DISCONNECT() -> (r: Self)
        ensures
            r.spec_bits() == 0x4,
    {
        ReconnectStop { bits: 0x4 }
    }

}


/// Peer events of which a router socket notifies.
#[derive(Debug, Clone, Copy, PartialEq, Eq, Hash, Structural)]
pub struct RouterNotify {
    bits: i32,
}

impl RouterNotify {
    /// The raw bits of the set.
    pub closed spec fn spec_bits(self) -> i32 {
        self.bits
    }

    /// The bits of all flags this set knows.
    pub open spec fn spec_all() -> i32 {
        0x3
    }

    /// The raw bits of the set.
    pub fn bits(&self) -> (r: i32)
        ensures
            r == self.spec_bits(),
    {
        self.bits
    }

    /// The set of no flags.
    pub fn empty() -> (r: Self)
        ensures
            r.spec_bits() == 0,
    {
        RouterNotify { bits: 0 }
    }

    /// The set of all flags this set knows.
    pub fn all() -> (r: Self)
        ensures
            r.spec_bits() == Self::spec_all(),
    {
        RouterNotify { bits: 0x3 }
    }

    /// The set of the known flags among `bits`, as a spec value.
    pub closed spec fn from_bits_truncate_spec(bits: i32) -> Self {
        RouterNotify { bits: bits & 0x3 }
    }

    /// The set of the known flags among `bits`; unknown bits are dropped.
    pub fn from_bits_truncate(bits: i32) -> (r: Self)
        ensures
            r.spec_bits() == bits & Self::spec_all(),
            r == Self::from_bits_truncate_spec(bits),
    {
        RouterNotify { bits: bits & 0x3 }
    }

    /// The set with exactly the given bits, as a spec value.
    pub closed spec fn from_bits_retain_spec(bits: i32) -> Self {
        RouterNotify { bits }
    }

    /// The set with exactly the given bits, known or not.
    pub fn from_bits_retain(bits: i32) -> (r: Self)
        ensures
            r.spec_bits() == bits,
            r == Self::from_bits_retain_spec(bits),
    {
        RouterNotify { bits }
    }

    /// Whether the set holds no flag.
    pub fn is_empty(&self) -> (r: bool)
        ensures
            r == (self.spec_bits() == 0),
    {
        self.bits == 0
    }

    /// Whether every flag of `other` is in this set.
    pub fn contains(&self, other: Self) -> (r: bool)
        ensures
            r == (self.spec_bits() & other.spec_bits() == other.spec_bits()),
    {
        self.bits & other.bits == other.bits
    }

    /// The flags that are in either set.
    pub fn union(self, other: Self) -> (r: Self)
        ensures
            r.spec_bits() == self.spec_bits() | other.spec_bits(),
    {
        RouterNotify { bits: self.bits | other.bits }
    }

    /// The flags that are in both sets.
    pub fn intersection(self, other: Self) -> (r: Self)
        ensures
            r.spec_bits() == self.spec_bits() & other.spec_bits(),
    {
        RouterNotify { bits: self.bits & other.bits }
    }

    /// Notify when a peer connects.
    #[allow(non_snake_case)]
    pub fn NotifyConnect() -> (r: Self)
        ensures
            r.spec_bits() == 0x1,
    {
        RouterNotify { bits: 0x1 }
    }

    /// Notify when a peer disconnects.
    #[allow(non_snake_case)]
    pub fn NotifyDisconnect() -> (r: Self)
        ensures
            r.spec_bits() == 0x2,
    {
        RouterNotify { bits: 0x2 }
    }

}


} // verus!
