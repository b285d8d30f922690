//! Router sockets.
use vstd::prelude::*;

use super::builder::{lemma_pick_add, lemma_pick_segment, lemma_socket_builder_writes_only, other_actions, writes_to, push_bool, push_socket_builder, push_str, set_bool_if, set_str_if, socket_builder_actions_if, SocketBuilder};
use super::{actions_view, ActionView};

use super::codec::{bool_bytes, i32_bytes, str_bytes};
use super::{read_bool, read_i32, read_string, string_result_is, writes, Socket, SocketAction, SocketOption, SocketType, Sockopt};
use crate::error::{ZmqError, ZmqResult};
use crate::sealed;
use super::flags::RouterNotify;

verus! {

/// Kind of the routing sockets of the request-reply pattern.
pub struct Router {}

/// A Router socket.
pub type RouterSocket = Socket<Router>;

impl sealed::SocketType for Router {
    open spec fn spec_socket_type() -> SocketType {
        SocketType::Router
    }

    fn raw_socket_type() -> (r: SocketType) {
        SocketType::Router
    }
}

impl sealed::ReceiverFlag for Router {}

impl sealed::SenderFlag for Router {}

impl Socket<Router> {
    /// Sets the peer events the socket notifies of (`RouterNotify`).
    pub fn set_router_notify(&self, value: RouterNotify) -> (r: Sockopt)
        ensures
            writes(r, SocketOption::RouterNotify, i32_bytes(value.spec_bits())),
    {
        self.set_sockopt_i32(SocketOption::RouterNotify, value.bits())
    }

    /// Reads the peer events the socket notifies of (`RouterNotify`) from the reply to
    /// `zmq_getsockopt`; unknown bits are dropped.
    pub fn router_notify(&self, reply: &Sockopt) -> (r: ZmqResult<RouterNotify>)
        ensures
            match read_i32(reply.option, reply.value@, SocketOption::RouterNotify) {
                Ok(v) => r matches Ok(n) && n.spec_bits() == v & RouterNotify::spec_all(),
                Err(e) => r == Err::<RouterNotify, ZmqError>(e),
            },
    {
        match self.get_sockopt_i32(SocketOption::RouterNotify, reply) {
            Ok(v) => Ok(RouterNotify::from_bits_truncate(v)),
            Err(e) => Err(e),
        }
    }
}

impl Socket<Router> {
    /// Sets the routing id of the socket (`RoutingId`).
    pub fn set_routing_id(&self, value: &str) -> (r: Sockopt)
        ensures
            writes(r, SocketOption::RoutingId, str_bytes(value@)),
    {
        self.set_sockopt_string(SocketOption::RoutingId, value)
    }

    /// Reads the routing id of the socket (`RoutingId`) from the reply to `zmq_getsockopt`.
    pub fn routing_id(&self, reply: &Sockopt) -> (r: ZmqResult<String>)
        ensures
            string_result_is(r, read_string(reply.option, reply.value@, SocketOption::RoutingId)),
    {
        self.get_sockopt_string(SocketOption::RoutingId, reply)
    }

    /// Sets the routing id of the next outbound connection (`ConnectRoutingId`).
    pub fn set_connect_routing_id(&self, value: &str) -> (r: Sockopt)
        ensures
            writes(r, SocketOption::ConnectRoutingId, str_bytes(value@)),
    {
        self.set_sockopt_string(SocketOption::ConnectRoutingId, value)
    }

    /// Sets whether connections are bootstrapped with an empty message (`ProbeRouter`).
    pub fn set_probe_router(&self, value: bool) -> (r: Sockopt)
        ensures
            writes(r, SocketOption::ProbeRouter, bool_bytes(value)),
    {
        self.set_sockopt_bool(SocketOption::ProbeRouter, value)
    }

    /// Sets whether a new connection with a known routing id takes it over (`RouterHandover`).
    pub fn set_router_handover(&self, value: bool) -> (r: Sockopt)
        ensures
            writes(r, SocketOption::RouterHandover, bool_bytes(value)),
    {
        self.set_sockopt_bool(SocketOption::RouterHandover, value)
    }

    /// Sets whether unroutable messages are refused (`RouterMandatory`).
    pub fn set_router_mandatory(&self, value: bool) -> (r: Sockopt)
        ensures
            writes(r, SocketOption::RouterMandatory, bool_bytes(value)),
    {
        self.set_sockopt_bool(SocketOption::RouterMandatory, value)
    }

    /// Sets the message generated when a peer disconnects (`DisconnectMessage`).
    pub fn set_disconnect_message(&self, value: &str) -> (r: Sockopt)
        ensures
            writes(r, SocketOption::DisconnectMessage, str_bytes(value@)),
    {
        self.set_sockopt_string(SocketOption::DisconnectMessage, value)
    }

    /// Sets the message sent when a peer connects (`HelloMessage`).
    pub fn set_hello_message(&self, value: &str) -> (r: Sockopt)
        ensures
            writes(r, SocketOption::HelloMessage, str_bytes(value@)),
    {
        self.set_sockopt_string(SocketOption::HelloMessage, value)
    }
}

/// Builder for [`RouterSocket`]: each setting that was given a value is applied, in the order
/// of the fields; the others keep 0MQ's defaults.
#[derive(Debug, Clone, PartialEq, Eq, Hash)]
pub struct RouterBuilder {
    /// The common socket options.
    pub socket_builder: Option<SocketBuilder>,
    /// The message sent to new peers.
    pub hello_message: Option<String>,
    /// The message a peer's disconnect is announced with.
    pub disconnect_message: Option<String>,
    /// Which peer events are announced.
    pub router_notify: Option<RouterNotify>,
    /// The routing id of the socket.
    pub routing_id: Option<String>,
    /// Whether unroutable messages are an error.
    pub router_mandatory: Option<bool>,
    /// Whether a new peer with a taken routing id takes it over.
    pub router_handover: Option<bool>,
    /// The routing id given to the next connected peer.
    pub connect_routing_id: Option<String>,
}

/// What applying a [`RouterBuilder`] does to a socket, in the order of the fields.
pub open spec fn router_builder_actions(b: RouterBuilder) -> Seq<ActionView> {
    socket_builder_actions_if(b.socket_builder)
        + set_str_if(b.hello_message, SocketOption::HelloMessage)
        + set_str_if(b.disconnect_message, SocketOption::DisconnectMessage)
        + match b.router_notify {
            Some(n) => seq![ActionView::SetOption(SocketOption::RouterNotify, i32_bytes(n.spec_bits()))],
            None => Seq::empty(),
        }
        + set_str_if(b.routing_id, SocketOption::RoutingId)
        + set_bool_if(b.router_mandatory, SocketOption::RouterMandatory)
        + set_bool_if(b.router_handover, SocketOption::RouterHandover)
        + set_str_if(b.connect_routing_id, SocketOption::ConnectRoutingId)
}

impl Default for RouterBuilder {
    fn default() -> (r: Self)
        ensures
            r.socket_builder is None,
            r.hello_message is None,
            r.disconnect_message is None,
            r.router_notify is None,
            r.routing_id is None,
            r.router_mandatory is None,
            r.router_handover is None,
            r.connect_routing_id is None,
    {
        RouterBuilder {
            socket_builder: None,
            hello_message: None,
            disconnect_message: None,
            router_notify: None,
            routing_id: None,
            router_mandatory: None,
            router_handover: None,
            connect_routing_id: None,
        }
    }
}

impl RouterBuilder {
    /// Gives `socket_builder` a value.
    pub fn socket_builder(self, value: SocketBuilder) -> (r: Self)
        ensures
            r == (RouterBuilder { socket_builder: Some(value), ..self }),
    {
        RouterBuilder { socket_builder: Some(value), ..self }
    }

    /// Gives `hello_message` a value.
    pub fn hello_message(self, value: &str) -> (r: Self)
        ensures
            r == (RouterBuilder { hello_message: r.hello_message, ..self }),
            r.hello_message matches Some(v) && v@ == value@,
    {
        RouterBuilder { hello_message: Some(value.to_owned()), ..self }
    }

    /// Gives `disconnect_message` a value.
    pub fn disconnect_message(self, value: &str) -> (r: Self)
        ensures
            r == (RouterBuilder { disconnect_message: r.disconnect_message, ..self }),
            r.disconnect_message matches Some(v) && v@ == value@,
    {
        RouterBuilder { disconnect_message: Some(value.to_owned()), ..self }
    }

    /// Gives `router_notify` a value.
    pub fn router_notify(self, value: RouterNotify) -> (r: Self)
        ensures
            r == (RouterBuilder { router_notify: Some(value), ..self }),
    {
        RouterBuilder { router_notify: Some(value), ..self }
    }

    /// Gives `routing_id` a value.
    pub fn routing_id(self, value: &str) -> (r: Self)
        ensures
            r == (RouterBuilder { routing_id: r.routing_id, ..self }),
            r.routing_id matches Some(v) && v@ == value@,
    {
        RouterBuilder { routing_id: Some(value.to_owned()), ..self }
    }

    /// Gives `router_mandatory` a value.
    pub fn router_mandatory(self, value: bool) -> (r: Self)
        ensures
            r == (RouterBuilder { router_mandatory: Some(value), ..self }),
    {
        RouterBuilder { router_mandatory: Some(value), ..self }
    }

    /// Gives `router_handover` a value.
    pub fn router_handover(self, value: bool) -> (r: Self)
        ensures
            r == (RouterBuilder { router_handover: Some(value), ..self }),
    {
        RouterBuilder { router_handover: Some(value), ..self }
    }

    /// Gives `connect_routing_id` a value.
    pub fn connect_routing_id(self, value: &str) -> (r: Self)
        ensures
            r == (RouterBuilder { connect_routing_id: r.connect_routing_id, ..self }),
            r.connect_routing_id matches Some(v) && v@ == value@,
    {
        RouterBuilder { connect_routing_id: Some(value.to_owned()), ..self }
    }

    /// The actions that apply this builder to `socket`, in the order of the fields.
    pub fn apply(self, socket: &RouterSocket) -> (r: Vec<SocketAction>)
        ensures
            actions_view(r@) == router_builder_actions(self),
    {
        let mut r: Vec<SocketAction> = Vec::new();
        proof {
            assert(actions_view(r@) =~= Seq::<ActionView>::empty());
        }
        push_socket_builder(&mut r, socket, self.socket_builder);
        proof {
            assert(Seq::<ActionView>::empty() + socket_builder_actions_if(self.socket_builder)
                =~= socket_builder_actions_if(self.socket_builder));
        }
        push_str(&mut r, socket, self.hello_message, SocketOption::HelloMessage);
        push_str(&mut r, socket, self.disconnect_message, SocketOption::DisconnectMessage);
        let ghost before_router_notify = actions_view(r@);
        if let Some(n) = self.router_notify {
            r.push(SocketAction::SetOption(socket.set_router_notify(n)));
        }
        proof {
            assert(actions_view(r@) =~= before_router_notify + match self.router_notify {
            Some(n) => seq![ActionView::SetOption(SocketOption::RouterNotify, i32_bytes(n.spec_bits()))],
            None => Seq::empty(),
        });
        }
        push_str(&mut r, socket, self.routing_id, SocketOption::RoutingId);
        push_bool(&mut r, socket, self.router_mandatory, SocketOption::RouterMandatory);
        push_bool(&mut r, socket, self.router_handover, SocketOption::RouterHandover);
        push_str(&mut r, socket, self.connect_routing_id, SocketOption::ConnectRoutingId);
        r
    }

    /// Creates a socket together with the actions that apply this builder to it.
    pub fn build_from_context(self) -> (r: (RouterSocket, Vec<SocketAction>))
        ensures
            actions_view(r.1@) == router_builder_actions(self),
    {
        let socket = RouterSocket::from_context();
        let actions = self.apply(&socket);
        (socket, actions)
    }
}

proof fn lemma_router_builder_pick(b: RouterBuilder, option: SocketOption)
    ensures
        writes_to(router_builder_actions(b), option) == writes_to(socket_builder_actions_if(b.socket_builder), option)
            + writes_to(set_str_if(b.hello_message, SocketOption::HelloMessage), option)
            + writes_to(set_str_if(b.disconnect_message, SocketOption::DisconnectMessage), option)
            + writes_to(match b.router_notify {
            Some(n) => seq![ActionView::SetOption(SocketOption::RouterNotify, i32_bytes(n.spec_bits()))],
            None => Seq::empty(),
        }, option)
            + writes_to(set_str_if(b.routing_id, SocketOption::RoutingId), option)
            + writes_to(set_bool_if(b.router_mandatory, SocketOption::RouterMandatory), option)
            + writes_to(set_bool_if(b.router_handover, SocketOption::RouterHandover), option)
            + writes_to(set_str_if(b.connect_routing_id, SocketOption::ConnectRoutingId), option),
        other_actions(router_builder_actions(b)) == other_actions(socket_builder_actions_if(b.socket_builder))
            + other_actions(set_str_if(b.hello_message, SocketOption::HelloMessage))
            + other_actions(set_str_if(b.disconnect_message, SocketOption::DisconnectMessage))
            + other_actions(match b.router_notify {
            Some(n) => seq![ActionView::SetOption(SocketOption::RouterNotify, i32_bytes(n.spec_bits()))],
            None => Seq::empty(),
        })
            + other_actions(set_str_if(b.routing_id, SocketOption::RoutingId))
            + other_actions(set_bool_if(b.router_mandatory, SocketOption::RouterMandatory))
            + other_actions(set_bool_if(b.router_handover, SocketOption::RouterHandover))
            + other_actions(set_str_if(b.connect_routing_id, SocketOption::ConnectRoutingId)),
{
    let s0 = socket_builder_actions_if(b.socket_builder);
    let s1 = set_str_if(b.hello_message, SocketOption::HelloMessage);
    let s2 = set_str_if(b.disconnect_message, SocketOption::DisconnectMessage);
    let s3 = match b.router_notify {
            Some(n) => seq![ActionView::SetOption(SocketOption::RouterNotify, i32_bytes(n.spec_bits()))],
            None => Seq::empty(),
        };
    let s4 = set_str_if(b.routing_id, SocketOption::RoutingId);
    let s5 = set_bool_if(b.router_mandatory, SocketOption::RouterMandatory);
    let s6 = set_bool_if(b.router_handover, SocketOption::RouterHandover);
    let s7 = set_str_if(b.connect_routing_id, SocketOption::ConnectRoutingId);
    let p0 = s0;
    lemma_pick_add(p0, s1, option);
    let p1 = p0 + s1;
    lemma_pick_add(p1, s2, option);
    let p2 = p1 + s2;
    lemma_pick_add(p2, s3, option);
    let p3 = p2 + s3;
    lemma_pick_add(p3, s4, option);
    let p4 = p3 + s4;
    lemma_pick_add(p4, s5, option);
    let p5 = p4 + s5;
    lemma_pick_add(p5, s6, option);
    let p6 = p5 + s6;
    lemma_pick_add(p6, s7, option);
    let p7 = p6 + s7;
    assert(p7 == router_builder_actions(b));
}

/// Applying a [`RouterBuilder`] writes each setting that was given a value to the option of the
/// same name, once, with the value's bytes, and a setting without a value not at all; it
/// does nothing but write options.
pub proof fn lemma_router_builder_writes(b: RouterBuilder)
    ensures
        writes_to(router_builder_actions(b), SocketOption::HelloMessage) == match b.hello_message {
            Some(v) => seq![ActionView::SetOption(SocketOption::HelloMessage, str_bytes(v@))],
            None => Seq::<ActionView>::empty(),
        },
        writes_to(router_builder_actions(b), SocketOption::DisconnectMessage) == match b.disconnect_message {
            Some(v) => seq![ActionView::SetOption(SocketOption::DisconnectMessage, str_bytes(v@))],
            None => Seq::<ActionView>::empty(),
        },
        writes_to(router_builder_actions(b), SocketOption::RouterNotify) == match b.router_notify {
            Some(n) => seq![ActionView::SetOption(SocketOption::RouterNotify, i32_bytes(n.spec_bits()))],
            None => Seq::<ActionView>::empty(),
        },
        writes_to(router_builder_actions(b), SocketOption::RoutingId) == match b.routing_id {
            Some(v) => seq![ActionView::SetOption(SocketOption::RoutingId, str_bytes(v@))],
            None => Seq::<ActionView>::empty(),
        },
        writes_to(router_builder_actions(b), SocketOption::RouterMandatory) == match b.router_mandatory {
            Some(v) => seq![ActionView::SetOption(SocketOption::RouterMandatory, bool_bytes(v))],
            None => Seq::<ActionView>::empty(),
        },
        writes_to(router_builder_actions(b), SocketOption::RouterHandover) == match b.router_handover {
            Some(v) => seq![ActionView::SetOption(SocketOption::RouterHandover, bool_bytes(v))],
            None => Seq::<ActionView>::empty(),
        },
        writes_to(router_builder_actions(b), SocketOption::ConnectRoutingId) == match b.connect_routing_id {
            Some(v) => seq![ActionView::SetOption(SocketOption::ConnectRoutingId, str_bytes(v@))],
            None => Seq::<ActionView>::empty(),
        },
        other_actions(router_builder_actions(b)) == Seq::<ActionView>::empty(),
{
    let e = Seq::<ActionView>::empty();
    lemma_router_builder_pick(b, SocketOption::HelloMessage);
    lemma_pick_segment(set_str_if(b.hello_message, SocketOption::HelloMessage), SocketOption::HelloMessage);
    lemma_pick_segment(set_str_if(b.disconnect_message, SocketOption::DisconnectMessage), SocketOption::HelloMessage);
    lemma_pick_segment(match b.router_notify {
            Some(n) => seq![ActionView::SetOption(SocketOption::RouterNotify, i32_bytes(n.spec_bits()))],
            None => Seq::empty(),
        }, SocketOption::HelloMessage);
    lemma_pick_segment(set_str_if(b.routing_id, SocketOption::RoutingId), SocketOption::HelloMessage);
    lemma_pick_segment(set_bool_if(b.router_mandatory, SocketOption::RouterMandatory), SocketOption::HelloMessage);
    lemma_pick_segment(set_bool_if(b.router_handover, SocketOption::RouterHandover), SocketOption::HelloMessage);
    lemma_pick_segment(set_str_if(b.connect_routing_id, SocketOption::ConnectRoutingId), SocketOption::HelloMessage);
    if let Some(sb) = b.socket_builder {
        lemma_socket_builder_writes_only(sb, SocketOption::HelloMessage);
    }
    assert(writes_to(router_builder_actions(b), SocketOption::HelloMessage) =~= match b.hello_message {
            Some(v) => seq![ActionView::SetOption(SocketOption::HelloMessage, str_bytes(v@))],
            None => Seq::<ActionView>::empty(),
        });
    lemma_router_builder_pick(b, SocketOption::DisconnectMessage);
    lemma_pick_segment(set_str_if(b.hello_message, SocketOption::HelloMessage), SocketOption::DisconnectMessage);
    lemma_pick_segment(set_str_if(b.disconnect_message, SocketOption::DisconnectMessage), SocketOption::DisconnectMessage);
    lemma_pick_segment(match b.router_notify {
            Some(n) => seq![ActionView::SetOption(SocketOption::RouterNotify, i32_bytes(n.spec_bits()))],
            None => Seq::empty(),
        }, SocketOption::DisconnectMessage);
    lemma_pick_segment(set_str_if(b.routing_id, SocketOption::RoutingId), SocketOption::DisconnectMessage);
    lemma_pick_segment(set_bool_if(b.router_mandatory, SocketOption::RouterMandatory), SocketOption::DisconnectMessage);
    lemma_pick_segment(set_bool_if(b.router_handover, SocketOption::RouterHandover), SocketOption::DisconnectMessage);
    lemma_pick_segment(set_str_if(b.connect_routing_id, SocketOption::ConnectRoutingId), SocketOption::DisconnectMessage);
    if let Some(sb) = b.socket_builder {
        lemma_socket_builder_writes_only(sb, SocketOption::DisconnectMessage);
    }
    assert(writes_to(router_builder_actions(b), SocketOption::DisconnectMessage) =~= match b.disconnect_message {
            Some(v) => seq![ActionView::SetOption(SocketOption::DisconnectMessage, str_bytes(v@))],
            None => Seq::<ActionView>::empty(),
        });
    lemma_router_builder_pick(b, SocketOption::RouterNotify);
    lemma_pick_segment(set_str_if(b.hello_message, SocketOption::HelloMessage), SocketOption::RouterNotify);
    lemma_pick_segment(set_str_if(b.disconnect_message, SocketOption::DisconnectMessage), SocketOption::RouterNotify);
    lemma_pick_segment(match b.router_notify {
            Some(n) => seq![ActionView::SetOption(SocketOption::RouterNotify, i32_bytes(n.spec_bits()))],
            None => Seq::empty(),
        }, SocketOption::RouterNotify);
    lemma_pick_segment(set_str_if(b.routing_id, SocketOption::RoutingId), SocketOption::RouterNotify);
    lemma_pick_segment(set_bool_if(b.router_mandatory, SocketOption::RouterMandatory), SocketOption::RouterNotify);
    lemma_pick_segment(set_bool_if(b.router_handover, SocketOption::RouterHandover), SocketOption::RouterNotify);
    lemma_pick_segment(set_str_if(b.connect_routing_id, SocketOption::ConnectRoutingId), SocketOption::RouterNotify);
    if let Some(sb) = b.socket_builder {
        lemma_socket_builder_writes_only(sb, SocketOption::RouterNotify);
    }
    assert(writes_to(router_builder_actions(b), SocketOption::RouterNotify) =~= match b.router_notify {
            Some(n) => seq![ActionView::SetOption(SocketOption::RouterNotify, i32_bytes(n.spec_bits()))],
            None => Seq::<ActionView>::empty(),
        });
    lemma_router_builder_pick(b, SocketOption::RoutingId);
    lemma_pick_segment(set_str_if(b.hello_message, SocketOption::HelloMessage), SocketOption::RoutingId);
    lemma_pick_segment(set_str_if(b.disconnect_message, SocketOption::DisconnectMessage), SocketOption::RoutingId);
    lemma_pick_segment(match b.router_notify {
            Some(n) => seq![ActionView::SetOption(SocketOption::RouterNotify, i32_bytes(n.spec_bits()))],
            None => Seq::empty(),
        }, SocketOption::RoutingId);
    lemma_pick_segment(set_str_if(b.routing_id, SocketOption::RoutingId), SocketOption::RoutingId);
    lemma_pick_segment(set_bool_if(b.router_mandatory, SocketOption::RouterMandatory), SocketOption::RoutingId);
    lemma_pick_segment(set_bool_if(b.router_handover, SocketOption::RouterHandover), SocketOption::RoutingId);
    lemma_pick_segment(set_str_if(b.connect_routing_id, SocketOption::ConnectRoutingId), SocketOption::RoutingId);
    if let Some(sb) = b.socket_builder {
        lemma_socket_builder_writes_only(sb, SocketOption::RoutingId);
    }
    assert(writes_to(router_builder_actions(b), SocketOption::RoutingId) =~= match b.routing_id {
            Some(v) => seq![ActionView::SetOption(SocketOption::RoutingId, str_bytes(v@))],
            None => Seq::<ActionView>::empty(),
        });
    lemma_router_builder_pick(b, SocketOption::RouterMandatory);
    lemma_pick_segment(set_str_if(b.hello_message, SocketOption::HelloMessage), SocketOption::RouterMandatory);
    lemma_pick_segment(set_str_if(b.disconnect_message, SocketOption::DisconnectMessage), SocketOption::RouterMandatory);
    lemma_pick_segment(match b.router_notify {
            Some(n) => seq![ActionView::SetOption(SocketOption::RouterNotify, i32_bytes(n.spec_bits()))],
            None => Seq::empty(),
        }, SocketOption::RouterMandatory);
    lemma_pick_segment(set_str_if(b.routing_id, SocketOption::RoutingId), SocketOption::RouterMandatory);
    lemma_pick_segment(set_bool_if(b.router_mandatory, SocketOption::RouterMandatory), SocketOption::RouterMandatory);
    lemma_pick_segment(set_bool_if(b.router_handover, SocketOption::RouterHandover), SocketOption::RouterMandatory);
    lemma_pick_segment(set_str_if(b.connect_routing_id, SocketOption::ConnectRoutingId), SocketOption::RouterMandatory);
    if let Some(sb) = b.socket_builder {
        lemma_socket_builder_writes_only(sb, SocketOption::RouterMandatory);
    }
    assert(writes_to(router_builder_actions(b), SocketOption::RouterMandatory) =~= match b.router_mandatory {
            Some(v) => seq![ActionView::SetOption(SocketOption::RouterMandatory, bool_bytes(v))],
            None => Seq::<ActionView>::empty(),
        });
    lemma_router_builder_pick(b, SocketOption::RouterHandover);
    lemma_pick_segment(set_str_if(b.hello_message, SocketOption::HelloMessage), SocketOption::RouterHandover);
    lemma_pick_segment(set_str_if(b.disconnect_message, SocketOption::DisconnectMessage), SocketOption::RouterHandover);
    lemma_pick_segment(match b.router_notify {
            Some(n) => seq![ActionView::SetOption(SocketOption::RouterNotify, i32_bytes(n.spec_bits()))],
            None => Seq::empty(),
        }, SocketOption::RouterHandover);
    lemma_pick_segment(set_str_if(b.routing_id, SocketOption::RoutingId), SocketOption::RouterHandover);
    lemma_pick_segment(set_bool_if(b.router_mandatory, SocketOption::RouterMandatory), SocketOption::RouterHandover);
    lemma_pick_segment(set_bool_if(b.router_handover, SocketOption::RouterHandover), SocketOption::RouterHandover);
    lemma_pick_segment(set_str_if(b.connect_routing_id, SocketOption::ConnectRoutingId), SocketOption::RouterHandover);
    if let Some(sb) = b.socket_builder {
        lemma_socket_builder_writes_only(sb, SocketOption::RouterHandover);
    }
    assert(writes_to(router_builder_actions(b), SocketOption::RouterHandover) =~= match b.router_handover {
            Some(v) => seq![ActionView::SetOption(SocketOption::RouterHandover, bool_bytes(v))],
            None => Seq::<ActionView>::empty(),
        });
    lemma_router_builder_pick(b, SocketOption::ConnectRoutingId);
    lemma_pick_segment(set_str_if(b.hello_message, SocketOption::HelloMessage), SocketOption::ConnectRoutingId);
    lemma_pick_segment(set_str_if(b.disconnect_message, SocketOption::DisconnectMessage), SocketOption::ConnectRoutingId);
    lemma_pick_segment(match b.router_notify {
            Some(n) => seq![ActionView::SetOption(SocketOption::RouterNotify, i32_bytes(n.spec_bits()))],
            None => Seq::empty(),
        }, SocketOption::ConnectRoutingId);
    lemma_pick_segment(set_str_if(b.routing_id, SocketOption::RoutingId), SocketOption::ConnectRoutingId);
    lemma_pick_segment(set_bool_if(b.router_mandatory, SocketOption::RouterMandatory), SocketOption::ConnectRoutingId);
    lemma_pick_segment(set_bool_if(b.router_handover, SocketOption::RouterHandover), SocketOption::ConnectRoutingId);
    lemma_pick_segment(set_str_if(b.connect_routing_id, SocketOption::ConnectRoutingId), SocketOption::ConnectRoutingId);
    if let Some(sb) = b.socket_builder {
        lemma_socket_builder_writes_only(sb, SocketOption::ConnectRoutingId);
    }
    assert(writes_to(router_builder_actions(b), SocketOption::ConnectRoutingId) =~= match b.connect_routing_id {
            Some(v) => seq![ActionView::SetOption(SocketOption::ConnectRoutingId, str_bytes(v@))],
            None => Seq::<ActionView>::empty(),
        });
    lemma_router_builder_pick(b, SocketOption::Linger);
    lemma_pick_segment(set_str_if(b.hello_message, SocketOption::HelloMessage), SocketOption::Linger);
    lemma_pick_segment(set_str_if(b.disconnect_message, SocketOption::DisconnectMessage), SocketOption::Linger);
    lemma_pick_segment(match b.router_notify {
            Some(n) => seq![ActionView::SetOption(SocketOption::RouterNotify, i32_bytes(n.spec_bits()))],
            None => Seq::empty(),
        }, SocketOption::Linger);
    lemma_pick_segment(set_str_if(b.routing_id, SocketOption::RoutingId), SocketOption::Linger);
    lemma_pick_segment(set_bool_if(b.router_mandatory, SocketOption::RouterMandatory), SocketOption::Linger);
    lemma_pick_segment(set_bool_if(b.router_handover, SocketOption::RouterHandover), SocketOption::Linger);
    lemma_pick_segment(set_str_if(b.connect_routing_id, SocketOption::ConnectRoutingId), SocketOption::Linger);
    if let Some(sb) = b.socket_builder {
        lemma_socket_builder_writes_only(sb, SocketOption::Linger);
    }
    assert(other_actions(router_builder_actions(b)) =~= e);
}

} // verus!
