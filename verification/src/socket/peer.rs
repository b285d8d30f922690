//! Peer sockets.
use vstd::prelude::*;

use super::builder::{lemma_pick_add, lemma_pick_segment, lemma_socket_builder_writes_only, other_actions, writes_to, push_bool, push_socket_builder, push_str, set_bool_if, set_str_if, socket_builder_actions_if, SocketBuilder};
use super::{actions_view, ActionView};

use super::codec::{bool_bytes, i32_bytes, str_bytes};
use super::{read_bool, read_i32, read_string, string_result_is, writes, Socket, SocketAction, SocketOption, SocketType, Sockopt};
use crate::error::{ZmqError, ZmqResult};
use crate::sealed;

verus! {

/// Kind of the sockets of the peer-to-peer pattern.
pub struct Peer {}

/// A Peer socket.
pub type PeerSocket = Socket<Peer>;

impl sealed::SocketType for Peer {
    open spec fn spec_socket_type() -> SocketType {
        SocketType::Peer
    }

    fn raw_socket_type() -> (r: SocketType) {
        SocketType::Peer
    }
}

impl sealed::ReceiverFlag for Peer {}

impl sealed::SenderFlag for Peer {}

impl Socket<Peer> {
    /// Connects to a peer at an endpoint; `zmq_connect_peer` answers with the routing id of
    /// the new connection.
    pub fn connect_peer(&self, endpoint: &str) -> (r: SocketAction)
        ensures
            r matches SocketAction::ConnectPeer(e) && e@ == endpoint@,
    {
        SocketAction::ConnectPeer(endpoint.to_owned())
    }
}

impl Socket<Peer> {
    /// Sets the message generated when a connected peer disconnects for a while (`HiccupMessage`).
    pub fn set_hiccup_message(&self, value: &str) -> (r: Sockopt)
        ensures
            writes(r, SocketOption::HiccupMessage, str_bytes(value@)),
    {
        self.set_sockopt_string(SocketOption::HiccupMessage, value)
    }

    /// Sets the message sent when a peer connects (`HelloMessage`).
    pub fn set_hello_message(&self, value: &str) -> (r: Sockopt)
        ensures
            writes(r, SocketOption::HelloMessage, str_bytes(value@)),
    {
        self.set_sockopt_string(SocketOption::HelloMessage, value)
    }

    /// Sets the message generated when a peer disconnects (`DisconnectMessage`).
    pub fn set_disconnect_message(&self, value: &str) -> (r: Sockopt)
        ensures
            writes(r, SocketOption::DisconnectMessage, str_bytes(value@)),
    {
        self.set_sockopt_string(SocketOption::DisconnectMessage, value)
    }
}

/// Builder for [`PeerSocket`]: each setting that was given a value is applied, in the order
/// of the fields; the others keep 0MQ's defaults.
#[derive(Debug, Clone, PartialEq, Eq, Hash)]
pub struct PeerBuilder {
    /// The common socket options.
    pub socket_builder: Option<SocketBuilder>,
    /// The message sent to the socket when a connection is interrupted.
    pub hiccup_msg: Option<String>,
    /// The message sent to new peers.
    pub hello_message: Option<String>,
    /// The message a peer's disconnect is announced with.
    pub disconnect_message: Option<String>,
}

/// What applying a [`PeerBuilder`] does to a socket, in the order of the fields.
pub open spec fn peer_builder_actions(b: PeerBuilder) -> Seq<ActionView> {
    socket_builder_actions_if(b.socket_builder)
        + set_str_if(b.hiccup_msg, SocketOption::HiccupMessage)
        + set_str_if(b.hello_message, SocketOption::HelloMessage)
        + set_str_if(b.disconnect_message, SocketOption::DisconnectMessage)
}

impl Default for PeerBuilder {
    fn default() -> (r: Self)
        ensures
            r.socket_builder is None,
            r.hiccup_msg is None,
            r.hello_message is None,
            r.disconnect_message is None,
    {
        PeerBuilder {
            socket_builder: None,
            hiccup_msg: None,
            hello_message: None,
            disconnect_message: None,
        }
    }
}

impl PeerBuilder {
    /// Gives `socket_builder` a value.
    pub fn socket_builder(self, value: SocketBuilder) -> (r: Self)
        ensures
            r == (PeerBuilder { socket_builder: Some(value), ..self }),
    {
        PeerBuilder { socket_builder: Some(value), ..self }
    }

    /// Gives `hiccup_msg` a value.
    pub fn hiccup_msg(self, value: &str) -> (r: Self)
        ensures
            r == (PeerBuilder { hiccup_msg: r.hiccup_msg, ..self }),
            r.hiccup_msg matches Some(v) && v@ == value@,
    {
        PeerBuilder { hiccup_msg: Some(value.to_owned()), ..self }
    }

    /// Gives `hello_message` a value.
    pub fn hello_message(self, value: &str) -> (r: Self)
        ensures
            r == (PeerBuilder { hello_message: r.hello_message, ..self }),
            r.hello_message matches Some(v) && v@ == value@,
    {
        PeerBuilder { hello_message: Some(value.to_owned()), ..self }
    }

    /// Gives `disconnect_message` a value.
    pub fn disconnect_message(self, value: &str) -> (r: Self)
        ensures
            r == (PeerBuilder { disconnect_message: r.disconnect_message, ..self }),
            r.disconnect_message matches Some(v) && v@ == value@,
    {
        PeerBuilder { disconnect_message: Some(value.to_owned()), ..self }
    }

    /// The actions that apply this builder to `socket`, in the order of the fields.
    pub fn apply(self, socket: &PeerSocket) -> (r: Vec<SocketAction>)
        ensures
            actions_view(r@) == peer_builder_actions(self),
    {
        let mut r: Vec<SocketAction> = Vec::new();
        proof {
            assert(actions_view(r@) =~= Seq::<ActionView>::empty());
        }
        push_socket_builder(&mut r, socket, self.socket_builder);
        proof {
            assert(Seq::<ActionView>::empty() + socket_builder_actions_if(self.socket_builder)
                =~= socket_builder_actions_if(self.socket_builder));
        }
        push_str(&mut r, socket, self.hiccup_msg, SocketOption::HiccupMessage);
        push_str(&mut r, socket, self.hello_message, SocketOption::HelloMessage);
        push_str(&mut r, socket, self.disconnect_message, SocketOption::DisconnectMessage);
        r
    }

    /// Creates a socket together with the actions that apply this builder to it.
    pub fn build_from_context(self) -> (r: (PeerSocket, Vec<SocketAction>))
        ensures
            actions_view(r.1@) == peer_builder_actions(self),
    {
        let socket = PeerSocket::from_context();
        let actions = self.apply(&socket);
        (socket, actions)
    }
}

proof fn lemma_peer_builder_pick(b: PeerBuilder, option: SocketOption)
    ensures
        writes_to(peer_builder_actions(b), option) == writes_to(socket_builder_actions_if(b.socket_builder), option)
            + writes_to(set_str_if(b.hiccup_msg, SocketOption::HiccupMessage), option)
            + writes_to(set_str_if(b.hello_message, SocketOption::HelloMessage), option)
            + writes_to(set_str_if(b.disconnect_message, SocketOption::DisconnectMessage), option),
        other_actions(peer_builder_actions(b)) == other_actions(socket_builder_actions_if(b.socket_builder))
            + other_actions(set_str_if(b.hiccup_msg, SocketOption::HiccupMessage))
            + other_actions(set_str_if(b.hello_message, SocketOption::HelloMessage))
            + other_actions(set_str_if(b.disconnect_message, SocketOption::DisconnectMessage)),
{
    let s0 = socket_builder_actions_if(b.socket_builder);
    let s1 = set_str_if(b.hiccup_msg, SocketOption::HiccupMessage);
    let s2 = set_str_if(b.hello_message, SocketOption::HelloMessage);
    let s3 = set_str_if(b.disconnect_message, SocketOption::DisconnectMessage);
    let p0 = s0;
    lemma_pick_add(p0, s1, option);
    let p1 = p0 + s1;
    lemma_pick_add(p1, s2, option);
    let p2 = p1 + s2;
    lemma_pick_add(p2, s3, option);
    let p3 = p2 + s3;
    assert(p3 == peer_builder_actions(b));
}

/// Applying a [`PeerBuilder`] writes each setting that was given a value to the option of the
/// same name, once, with the value's bytes, and a setting without a value not at all; it
/// does nothing but write options.
pub proof fn lemma_peer_builder_writes(b: PeerBuilder)
    ensures
        writes_to(peer_builder_actions(b), SocketOption::HiccupMessage) == match b.hiccup_msg {
            Some(v) => seq![ActionView::SetOption(SocketOption::HiccupMessage, str_bytes(v@))],
            None => Seq::<ActionView>::empty(),
        },
        writes_to(peer_builder_actions(b), SocketOption::HelloMessage) == match b.hello_message {
            Some(v) => seq![ActionView::SetOption(SocketOption::HelloMessage, str_bytes(v@))],
            None => Seq::<ActionView>::empty(),
        },
        writes_to(peer_builder_actions(b), SocketOption::DisconnectMessage) == match b.disconnect_message {
            Some(v) => seq![ActionView::SetOption(SocketOption::DisconnectMessage, str_bytes(v@))],
            None => Seq::<ActionView>::empty(),
        },
        other_actions(peer_builder_actions(b)) == Seq::<ActionView>::empty(),
{
    let e = Seq::<ActionView>::empty();
    lemma_peer_builder_pick(b, SocketOption::HiccupMessage);
    lemma_pick_segment(set_str_if(b.hiccup_msg, SocketOption::HiccupMessage), SocketOption::HiccupMessage);
    lemma_pick_segment(set_str_if(b.hello_message, SocketOption::HelloMessage), SocketOption::HiccupMessage);
    lemma_pick_segment(set_str_if(b.disconnect_message, SocketOption::DisconnectMessage), SocketOption::HiccupMessage);
    if let Some(sb) = b.socket_builder {
        lemma_socket_builder_writes_only(sb, SocketOption::HiccupMessage);
    }
    assert(writes_to(peer_builder_actions(b), SocketOption::HiccupMessage) =~= match b.hiccup_msg {
            Some(v) => seq![ActionView::SetOption(SocketOption::HiccupMessage, str_bytes(v@))],
            None => Seq::<ActionView>::empty(),
        });
    lemma_peer_builder_pick(b, SocketOption::HelloMessage);
    lemma_pick_segment(set_str_if(b.hiccup_msg, SocketOption::HiccupMessage), SocketOption::HelloMessage);
    lemma_pick_segment(set_str_if(b.hello_message, SocketOption::HelloMessage), SocketOption::HelloMessage);
    lemma_pick_segment(set_str_if(b.disconnect_message, SocketOption::DisconnectMessage), SocketOption::HelloMessage);
    if let Some(sb) = b.socket_builder {
        lemma_socket_builder_writes_only(sb, SocketOption::HelloMessage);
    }
    assert(writes_to(peer_builder_actions(b), SocketOption::HelloMessage) =~= match b.hello_message {
            Some(v) => seq![ActionView::SetOption(SocketOption::HelloMessage, str_bytes(v@))],
            None => Seq::<ActionView>::empty(),
        });
    lemma_peer_builder_pick(b, SocketOption::DisconnectMessage);
    lemma_pick_segment(set_str_if(b.hiccup_msg, SocketOption::HiccupMessage), SocketOption::DisconnectMessage);
    lemma_pick_segment(set_str_if(b.hello_message, SocketOption::HelloMessage), SocketOption::DisconnectMessage);
    lemma_pick_segment(set_str_if(b.disconnect_message, SocketOption::DisconnectMessage), SocketOption::DisconnectMessage);
    if let Some(sb) = b.socket_builder {
        lemma_socket_builder_writes_only(sb, SocketOption::DisconnectMessage);
    }
    assert(writes_to(peer_builder_actions(b), SocketOption::DisconnectMessage) =~= match b.disconnect_message {
            Some(v) => seq![ActionView::SetOption(SocketOption::DisconnectMessage, str_bytes(v@))],
            None => Seq::<ActionView>::empty(),
        });
    lemma_peer_builder_pick(b, SocketOption::Linger);
    lemma_pick_segment(set_str_if(b.hiccup_msg, SocketOption::HiccupMessage), SocketOption::Linger);
    lemma_pick_segment(set_str_if(b.hello_message, SocketOption::HelloMessage), SocketOption::Linger);
    lemma_pick_segment(set_str_if(b.disconnect_message, SocketOption::DisconnectMessage), SocketOption::Linger);
    if let Some(sb) = b.socket_builder {
        lemma_socket_builder_writes_only(sb, SocketOption::Linger);
    }
    assert(other_actions(peer_builder_actions(b)) =~= e);
}

} // verus!
