//! A builder that sets a socket's common options.
use vstd::prelude::*;

use super::codec::{bool_bytes, i32_bytes, i64_bytes, str_bytes};
use super::{actions_view, set_all, ActionView, Socket, SocketAction, SocketOption, Sockopt};
use crate::auth::ZapDomain;
use crate::sealed;
use crate::security::{security_writes, writes_view, SecurityMechanism};

verus! {

/// Setting a boolean option, where a value is given.
pub open spec fn set_bool_if(value: Option<bool>, option: SocketOption) -> Seq<ActionView> {
    match value {
        Some(v) => seq![ActionView::SetOption(option, bool_bytes(v))],
        None => Seq::empty(),
    }
}

/// Setting an `i32` option, where a value is given.
pub open spec fn set_i32_if(value: Option<i32>, option: SocketOption) -> Seq<ActionView> {
    match value {
        Some(v) => seq![ActionView::SetOption(option, i32_bytes(v))],
        None => Seq::empty(),
    }
}

/// Setting an `i64` option, where a value is given.
pub open spec fn set_i64_if(value: Option<i64>, option: SocketOption) -> Seq<ActionView> {
    match value {
        Some(v) => seq![ActionView::SetOption(option, i64_bytes(v))],
        None => Seq::empty(),
    }
}

/// Setting a string option, where a value is given.
pub open spec fn set_str_if(value: Option<String>, option: SocketOption) -> Seq<ActionView> {
    match value {
        Some(v) => seq![ActionView::SetOption(option, str_bytes(v@))],
        None => Seq::empty(),
    }
}

/// Builder for [`Socket`]: each option that was given a value is set when the builder is
/// applied, in the order of the fields; the others keep 0MQ's defaults.
#[derive(Debug, Clone, PartialEq, Eq, Hash)]
pub struct SocketBuilder {
    /// Whether the socket polls busily for incoming messages (`BusyPoll`).
    pub busy_poll: Option<bool>,
    /// The timeout of a connect, in milliseconds (`ConnectTimeout`).
    pub connect_timeout: Option<i32>,
    /// The longest time a handshake may take, in milliseconds (`HandshakeInterval`).
    pub handshake_interval: Option<i32>,
    /// The interval between heartbeats, in milliseconds (`HeartbeatInterval`).
    pub heartbeat_interval: Option<i32>,
    /// How long to wait for a heartbeat reply, in milliseconds (`HeartbeatTimeout`).
    pub heartbeat_timeout: Option<i32>,
    /// The time to live that heartbeats ask of the peer, in milliseconds (`HeartbeatTimeToLive`).
    pub heartbeat_timetolive: Option<i32>,
    /// Whether messages are queued only to completed connections (`Immediate`).
    pub immediate: Option<bool>,
    /// Whether IPv6 is enabled (`IPv6`).
    pub ipv6: Option<bool>,
    /// The linger period on close, in milliseconds (`Linger`).
    pub linger: Option<i32>,
    /// The largest inbound message, in bytes (`MaxMessageSize`).
    pub max_message_size: Option<i64>,
    /// The kernel receive buffer size (`ReceiveBuffer`).
    pub receive_buffer: Option<i32>,
    /// The high water mark of inbound messages (`ReceiveHighWatermark`).
    pub receive_highwater_mark: Option<i32>,
    /// The timeout of a receive, in milliseconds (`ReceiveTimeout`).
    pub receive_timeout: Option<i32>,
    /// The interval between reconnects, in milliseconds (`ReconnectInterval`).
    pub reconnect_interval: Option<i32>,
    /// The longest interval between reconnects, in milliseconds (`ReconnectIntervalMax`).
    pub reconnect_interval_max: Option<i32>,
    /// The kernel send buffer size (`SendBuffer`).
    pub send_buffer: Option<i32>,
    /// The high water mark of outbound messages (`SendHighWatermark`).
    pub send_highwater_mark: Option<i32>,
    /// The timeout of a send, in milliseconds (`SendTimeout`).
    pub send_timeout: Option<i32>,
    /// The ZAP domain (`ZapDomain`).
    pub zap_domain: Option<ZapDomain>,
    /// The security mechanism.
    pub security_mechanism: Option<SecurityMechanism>,
}

/// What applying a [`SocketBuilder`] does to a socket: the option writes for the fields that
/// were given a value, in the order of the fields, the security mechanism's writes last.
pub open spec fn socket_builder_actions(b: SocketBuilder) -> Seq<ActionView> {
    set_bool_if(b.busy_poll, SocketOption::BusyPoll)
        + set_i32_if(b.connect_timeout, SocketOption::ConnectTimeout)
        + set_i32_if(b.handshake_interval, SocketOption::HandshakeInterval)
        + set_i32_if(b.heartbeat_interval, SocketOption::HeartbeatInterval)
        + set_i32_if(b.heartbeat_timeout, SocketOption::HeartbeatTimeout)
        + set_i32_if(b.heartbeat_timetolive, SocketOption::HeartbeatTimeToLive)
        + set_bool_if(b.immediate, SocketOption::Immediate)
        + set_bool_if(b.ipv6, SocketOption::IPv6)
        + set_i32_if(b.linger, SocketOption::Linger)
        + set_i64_if(b.max_message_size, SocketOption::MaxMessageSize)
        + set_i32_if(b.receive_buffer, SocketOption::ReceiveBuffer)
        + set_i32_if(b.receive_highwater_mark, SocketOption::ReceiveHighWatermark)
        + set_i32_if(b.receive_timeout, SocketOption::ReceiveTimeout)
        + set_i32_if(b.reconnect_interval, SocketOption::ReconnectInterval)
        + set_i32_if(b.reconnect_interval_max, SocketOption::ReconnectIntervalMax)
        + set_i32_if(b.send_buffer, SocketOption::SendBuffer)
        + set_i32_if(b.send_highwater_mark, SocketOption::SendHighWatermark)
        + set_i32_if(b.send_timeout, SocketOption::SendTimeout)
        + match b.zap_domain {
            Some(d) => seq![ActionView::SetOption(SocketOption::ZapDomain, str_bytes(d@))],
            None => Seq::empty(),
        }
        + match b.security_mechanism {
            Some(s) => set_all(security_writes(s)),
            None => Seq::empty(),
        }
}

/// Appends the setting of a boolean option, where a value is given.
pub(crate) fn push_bool<T: sealed::SocketType>(
    r: &mut Vec<SocketAction>,
    socket: &Socket<T>,
    value: Option<bool>,
    option: SocketOption,
)
    ensures
        actions_view(final(r)@) == actions_view(old(r)@) + set_bool_if(value, option),
{
    if let Some(v) = value {
        r.push(SocketAction::SetOption(socket.set_sockopt_bool(option, v)));
    }
    proof {
        assert(actions_view(r@) =~= actions_view(old(r)@) + set_bool_if(value, option));
    }
}

/// Appends the setting of an `i32` option, where a value is given.
pub(crate) fn push_i32<T: sealed::SocketType>(
    r: &mut Vec<SocketAction>,
    socket: &Socket<T>,
    value: Option<i32>,
    option: SocketOption,
)
    ensures
        actions_view(final(r)@) == actions_view(old(r)@) + set_i32_if(value, option),
{
    if let Some(v) = value {
        r.push(SocketAction::SetOption(socket.set_sockopt_i32(option, v)));
    }
    proof {
        assert(actions_view(r@) =~= actions_view(old(r)@) + set_i32_if(value, option));
    }
}

/// Appends the setting of an `i64` option, where a value is given.
pub(crate) fn push_i64<T: sealed::SocketType>(
    r: &mut Vec<SocketAction>,
    socket: &Socket<T>,
    value: Option<i64>,
    option: SocketOption,
)
    ensures
        actions_view(final(r)@) == actions_view(old(r)@) + set_i64_if(value, option),
{
    if let Some(v) = value {
        r.push(SocketAction::SetOption(socket.set_sockopt_i64(option, v)));
    }
    proof {
        assert(actions_view(r@) =~= actions_view(old(r)@) + set_i64_if(value, option));
    }
}

/// Appends the setting of a string option, where a value is given.
pub(crate) fn push_str<T: sealed::SocketType>(
    r: &mut Vec<SocketAction>,
    socket: &Socket<T>,
    value: Option<String>,
    option: SocketOption,
)
    ensures
        actions_view(final(r)@) == actions_view(old(r)@) + set_str_if(value, option),
{
    if let Some(v) = value {
        r.push(SocketAction::SetOption(socket.set_sockopt_string(option, v.as_str())));
    }
    proof {
        assert(actions_view(r@) =~= actions_view(old(r)@) + set_str_if(value, option));
    }
}

/// Appends option writes, in order.
fn push_writes(r: &mut Vec<SocketAction>, w: Vec<Sockopt>)
    ensures
        actions_view(final(r)@) == actions_view(old(r)@) + set_all(writes_view(w@)),
{
    let ghost start = actions_view(r@);
    let ghost all = w@;
    let mut w = w;
    let n = w.len();
    let mut done: usize = 0;
    while w.len() > 0
        invariant
            n == all.len(),
            done + w@.len() == all.len(),
            w@ == all.skip(done as int),
            actions_view(r@) == start + set_all(writes_view(all.take(done as int))),
        decreases w@.len(),
    {
        let x = w.remove(0);
        proof {
            assert(x == all[done as int]);
        }
        let ghost prev = r@;
        r.push(SocketAction::SetOption(x));
        proof {
            assert(actions_view(r@) =~= actions_view(prev).push(ActionView::SetOption(x.option, x.value@)));
            assert(w@ =~= all.skip(done + 1));
            assert(writes_view(all.take(done + 1)) =~= writes_view(all.take(done as int)).push(
                all[done as int]@,
            ));
            assert(set_all(writes_view(all.take(done + 1))) =~= set_all(
                writes_view(all.take(done as int)),
            ).push(ActionView::SetOption(x.option, x.value@)));
            assert(actions_view(r@) =~= start + set_all(writes_view(all.take(done + 1))));
        }
        done = done + 1;
    }
    proof {
        assert(all.take(done as int) =~= all);
    }
}

impl Default for SocketBuilder {
    fn default() -> (r: Self)
        ensures
            r.busy_poll is None,
            r.connect_timeout is None,
            r.handshake_interval is None,
            r.heartbeat_interval is None,
            r.heartbeat_timeout is None,
            r.heartbeat_timetolive is None,
            r.immediate is None,
            r.ipv6 is None,
            r.linger is None,
            r.max_message_size is None,
            r.receive_buffer is None,
            r.receive_highwater_mark is None,
            r.receive_timeout is None,
            r.reconnect_interval is None,
            r.reconnect_interval_max is None,
            r.send_buffer is None,
            r.send_highwater_mark is None,
            r.send_timeout is None,
            r.zap_domain is None,
            r.security_mechanism is None,
    {
        SocketBuilder {
            busy_poll: None,
            connect_timeout: None,
            handshake_interval: None,
            heartbeat_interval: None,
            heartbeat_timeout: None,
            heartbeat_timetolive: None,
            immediate: None,
            ipv6: None,
            linger: None,
            max_message_size: None,
            receive_buffer: None,
            receive_highwater_mark: None,
            receive_timeout: None,
            reconnect_interval: None,
            reconnect_interval_max: None,
            send_buffer: None,
            send_highwater_mark: None,
            send_timeout: None,
            zap_domain: None,
            security_mechanism: None,
        }
    }
}

impl SocketBuilder {
    /// Gives `busy_poll` a value.
    pub fn busy_poll(self, value: bool) -> (r: Self)
        ensures
            r == (SocketBuilder { busy_poll: Some(value), ..self }),
    {
        SocketBuilder { busy_poll: Some(value), ..self }
    }

    /// Gives `connect_timeout` a value.
    pub fn connect_timeout(self, value: i32) -> (r: Self)
        ensures
            r == (SocketBuilder { connect_timeout: Some(value), ..self }),
    {
        SocketBuilder { connect_timeout: Some(value), ..self }
    }

    /// Gives `handshake_interval` a value.
    pub fn handshake_interval(self, value: i32) -> (r: Self)
        ensures
            r == (SocketBuilder { handshake_interval: Some(value), ..self }),
    {
        SocketBuilder { handshake_interval: Some(value), ..self }
    }

    /// Gives `heartbeat_interval` a value.
    pub fn heartbeat_interval(self, value: i32) -> (r: Self)
        ensures
            r == (SocketBuilder { heartbeat_interval: Some(value), ..self }),
    {
        SocketBuilder { heartbeat_interval: Some(value), ..self }
    }

    /// Gives `heartbeat_timeout` a value.
    pub fn heartbeat_timeout(self, value: i32) -> (r: Self)
        ensures
            r == (SocketBuilder { heartbeat_timeout: Some(value), ..self }),
    {
        SocketBuilder { heartbeat_timeout: Some(value), ..self }
    }

    /// Gives `heartbeat_timetolive` a value.
    pub fn heartbeat_timetolive(self, value: i32) -> (r: Self)
        ensures
            r == (SocketBuilder { heartbeat_timetolive: Some(value), ..self }),
    {
        SocketBuilder { heartbeat_timetolive: Some(value), ..self }
    }

    /// Gives `immediate` a value.
    pub fn immediate(self, value: bool) -> (r: Self)
        ensures
            r == (SocketBuilder { immediate: Some(value), ..self }),
    {
        SocketBuilder { immediate: Some(value), ..self }
    }

    /// Gives `ipv6` a value.
    pub fn ipv6(self, value: bool) -> (r: Self)
        ensures
            r == (SocketBuilder { ipv6: Some(value), ..self }),
    {
        SocketBuilder { ipv6: Some(value), ..self }
    }

    /// Gives `linger` a value.
    pub fn linger(self, value: i32) -> (r: Self)
        ensures
            r == (SocketBuilder { linger: Some(value), ..self }),
    {
        SocketBuilder { linger: Some(value), ..self }
    }

    /// Gives `max_message_size` a value.
    pub fn max_message_size(self, value: i64) -> (r: Self)
        ensures
            r == (SocketBuilder { max_message_size: Some(value), ..self }),
    {
        SocketBuilder { max_message_size: Some(value), ..self }
    }

    /// Gives `receive_buffer` a value.
    pub fn receive_buffer(self, value: i32) -> (r: Self)
        ensures
            r == (SocketBuilder { receive_buffer: Some(value), ..self }),
    {
        SocketBuilder { receive_buffer: Some(value), ..self }
    }

    /// Gives `receive_highwater_mark` a value.
    pub fn receive_highwater_mark(self, value: i32) -> (r: Self)
        ensures
            r == (SocketBuilder { receive_highwater_mark: Some(value), ..self }),
    {
        SocketBuilder { receive_highwater_mark: Some(value), ..self }
    }

    /// Gives `receive_timeout` a value.
    pub fn receive_timeout(self, value: i32) -> (r: Self)
        ensures
            r == (SocketBuilder { receive_timeout: Some(value), ..self }),
    {
        SocketBuilder { receive_timeout: Some(value), ..self }
    }

    /// Gives `reconnect_interval` a value.
    pub fn reconnect_interval(self, value: i32) -> (r: Self)
        ensures
            r == (SocketBuilder { reconnect_interval: Some(value), ..self }),
    {
        SocketBuilder { reconnect_interval: Some(value), ..self }
    }

    /// Gives `reconnect_interval_max` a value.
    pub fn reconnect_interval_max(self, value: i32) -> (r: Self)
        ensures
            r == (SocketBuilder { reconnect_interval_max: Some(value), ..self }),
    {
        SocketBuilder { reconnect_interval_max: Some(value), ..self }
    }

    /// Gives `send_buffer` a value.
    pub fn send_buffer(self, value: i32) -> (r: Self)
        ensures
            r == (SocketBuilder { send_buffer: Some(value), ..self }),
    {
        SocketBuilder { send_buffer: Some(value), ..self }
    }

    /// Gives `send_highwater_mark` a value.
    pub fn send_highwater_mark(self, value: i32) -> (r: Self)
        ensures
            r == (SocketBuilder { send_highwater_mark: Some(value), ..self }),
    {
        SocketBuilder { send_highwater_mark: Some(value), ..self }
    }

    /// Gives `send_timeout` a value.
    pub fn send_timeout(self, value: i32) -> (r: Self)
        ensures
            r == (SocketBuilder { send_timeout: Some(value), ..self }),
    {
        SocketBuilder { send_timeout: Some(value), ..self }
    }

    /// Gives the ZAP domain a value.
    pub fn zap_domain(self, value: ZapDomain) -> (r: Self)
        ensures
            r == (SocketBuilder { zap_domain: Some(value), ..self }),
    {
        SocketBuilder { zap_domain: Some(value), ..self }
    }

    /// Gives the security mechanism a value.
    pub fn security_mechanism(self, value: SecurityMechanism) -> (r: Self)
        ensures
            r == (SocketBuilder { security_mechanism: Some(value), ..self }),
    {
        SocketBuilder { security_mechanism: Some(value), ..self }
    }

    /// The actions that apply this builder to `socket`: the option writes for the fields that
    /// were given a value, in the order of the fields.
    pub fn apply<T: sealed::SocketType>(self, socket: &Socket<T>) -> (r: Vec<SocketAction>)
        ensures
            actions_view(r@) == socket_builder_actions(self),
    {
        let mut r: Vec<SocketAction> = Vec::new();
        proof {
            assert(actions_view(r@) =~= Seq::<ActionView>::empty());
        }
        push_bool(&mut r, socket, self.busy_poll, SocketOption::BusyPoll);
        proof {
            assert(Seq::<ActionView>::empty() + set_bool_if(self.busy_poll, SocketOption::BusyPoll)
                =~= set_bool_if(self.busy_poll, SocketOption::BusyPoll));
        }
        push_i32(&mut r, socket, self.connect_timeout, SocketOption::ConnectTimeout);
        push_i32(&mut r, socket, self.handshake_interval, SocketOption::HandshakeInterval);
        push_i32(&mut r, socket, self.heartbeat_interval, SocketOption::HeartbeatInterval);
        push_i32(&mut r, socket, self.heartbeat_timeout, SocketOption::HeartbeatTimeout);
        push_i32(&mut r, socket, self.heartbeat_timetolive, SocketOption::HeartbeatTimeToLive);
        push_bool(&mut r, socket, self.immediate, SocketOption::Immediate);
        push_bool(&mut r, socket, self.ipv6, SocketOption::IPv6);
        push_i32(&mut r, socket, self.linger, SocketOption::Linger);
        push_i64(&mut r, socket, self.max_message_size, SocketOption::MaxMessageSize);
        push_i32(&mut r, socket, self.receive_buffer, SocketOption::ReceiveBuffer);
        push_i32(&mut r, socket, self.receive_highwater_mark, SocketOption::ReceiveHighWatermark);
        push_i32(&mut r, socket, self.receive_timeout, SocketOption::ReceiveTimeout);
        push_i32(&mut r, socket, self.reconnect_interval, SocketOption::ReconnectInterval);
        push_i32(&mut r, socket, self.reconnect_interval_max, SocketOption::ReconnectIntervalMax);
        push_i32(&mut r, socket, self.send_buffer, SocketOption::SendBuffer);
        push_i32(&mut r, socket, self.send_highwater_mark, SocketOption::SendHighWatermark);
        push_i32(&mut r, socket, self.send_timeout, SocketOption::SendTimeout);
        let ghost before_zap = actions_view(r@);
        if let Some(d) = self.zap_domain {
            r.push(SocketAction::SetOption(socket.set_zap_domain(&d)));
        }
        proof {
            assert(actions_view(r@) =~= before_zap + match self.zap_domain {
                Some(d) => seq![ActionView::SetOption(SocketOption::ZapDomain, str_bytes(d@))],
                None => Seq::<ActionView>::empty(),
            });
        }
        let ghost before_security = actions_view(r@);
        if let Some(s) = self.security_mechanism {
            push_writes(&mut r, socket.set_security_mechanism(&s));
        }
        proof {
            if self.security_mechanism is None {
                assert(actions_view(r@) =~= before_security + Seq::<ActionView>::empty());
            }
        }
        r
    }

    /// Creates a socket of the kind `T` together with the actions that apply this builder to it.
    pub fn build_from_context<T: sealed::SocketType>(self) -> (r: (Socket<T>, Vec<SocketAction>))
        ensures
            actions_view(r.1@) == socket_builder_actions(self),
    {
        let socket = Socket::<T>::from_context();
        let actions = self.apply(&socket);
        (socket, actions)
    }
}

/// What applying a socket builder does, where one is given.
pub open spec fn socket_builder_actions_if(b: Option<SocketBuilder>) -> Seq<ActionView> {
    match b {
        Some(b) => socket_builder_actions(b),
        None => Seq::empty(),
    }
}

/// Appends the actions of a socket builder, where one is given.
pub(crate) fn push_socket_builder<T: sealed::SocketType>(
    r: &mut Vec<SocketAction>,
    socket: &Socket<T>,
    builder: Option<SocketBuilder>,
)
    ensures
        actions_view(final(r)@) == actions_view(old(r)@) + socket_builder_actions_if(builder),
{
    let ghost before = actions_view(r@);
    if let Some(b) = builder {
        let mut w = b.apply(socket);
        let ghost added = actions_view(w@);
        r.append(&mut w);
        proof {
            assert(actions_view(r@) =~= before + added);
        }
    } else {
        proof {
            assert(actions_view(r@) =~= before + Seq::<ActionView>::empty());
        }
    }
}

/// The writes of `option` among `actions`, in order.
pub open spec fn writes_to(actions: Seq<ActionView>, option: SocketOption) -> Seq<ActionView>
    decreases actions.len(),
{
    if actions.len() == 0 {
        Seq::empty()
    } else {
        (if actions[0] matches ActionView::SetOption(o, _) && o == option {
            seq![actions[0]]
        } else {
            Seq::empty()
        }) + writes_to(actions.drop_first(), option)
    }
}

/// The actions among `actions` that are not option writes, in order.
pub open spec fn other_actions(actions: Seq<ActionView>) -> Seq<ActionView>
    decreases actions.len(),
{
    if actions.len() == 0 {
        Seq::empty()
    } else {
        (if actions[0] is SetOption {
            Seq::empty()
        } else {
            seq![actions[0]]
        }) + other_actions(actions.drop_first())
    }
}

/// Picking the writes of an option, or the other actions, out of two sequences one after the
/// other picks them out of each in turn.
pub broadcast proof fn lemma_pick_add(a: Seq<ActionView>, b: Seq<ActionView>, option: SocketOption)
    ensures
        #[trigger] writes_to(a + b, option) == writes_to(a, option) + writes_to(b, option),
        other_actions(a + b) == other_actions(a) + other_actions(b),
    decreases a.len(),
{
    if a.len() == 0 {
        assert(a + b =~= b);
        assert(writes_to(a, option) + writes_to(b, option) =~= writes_to(b, option));
        assert(other_actions(a) + other_actions(b) =~= other_actions(b));
    } else {
        lemma_pick_add(a.drop_first(), b, option);
        assert((a + b).drop_first() =~= a.drop_first() + b);
        assert((a + b)[0] == a[0]);
        assert(writes_to(a + b, option) =~= writes_to(a, option) + writes_to(b, option));
        assert(other_actions(a + b) =~= other_actions(a) + other_actions(b));
    }
}

/// What is picked out of a single action.
pub broadcast proof fn lemma_pick_single(x: ActionView, option: SocketOption)
    ensures
        #[trigger] writes_to(seq![x], option) == (if x matches ActionView::SetOption(o, _) && o
            == option {
            seq![x]
        } else {
            Seq::<ActionView>::empty()
        }),
        other_actions(seq![x]) == (if x is SetOption {
            Seq::<ActionView>::empty()
        } else {
            seq![x]
        }),
{
    assert(seq![x].drop_first() =~= Seq::<ActionView>::empty());
    assert(writes_to(Seq::<ActionView>::empty(), option) =~= Seq::<ActionView>::empty());
    assert(other_actions(Seq::<ActionView>::empty()) =~= Seq::<ActionView>::empty());
    assert(writes_to(seq![x], option) =~= (if x matches ActionView::SetOption(o, _) && o == option {
        seq![x]
    } else {
        Seq::<ActionView>::empty()
    }));
    assert(other_actions(seq![x]) =~= (if x is SetOption {
        Seq::<ActionView>::empty()
    } else {
        seq![x]
    }));
}

/// What is picked out of at most one action.
pub proof fn lemma_pick_segment(seg: Seq<ActionView>, option: SocketOption)
    requires
        seg.len() <= 1,
    ensures
        writes_to(seg, option) == (if seg.len() == 1 && (seg[0] matches ActionView::SetOption(o, _)
            && o == option) {
            seg
        } else {
            Seq::<ActionView>::empty()
        }),
        other_actions(seg) == (if seg.len() == 1 && !(seg[0] is SetOption) {
            seg
        } else {
            Seq::<ActionView>::empty()
        }),
{
    if seg.len() == 1 {
        assert(seg =~= seq![seg[0]]);
        lemma_pick_single(seg[0], option);
    }
}

/// Whether `option` is one that a security mechanism writes.
pub open spec fn is_security_option(option: SocketOption) -> bool {
    option == SocketOption::PlainServer
        || option == SocketOption::PlainUsername
        || option == SocketOption::PlainPassword
        || option == SocketOption::CurveServer
        || option == SocketOption::CurveSecretKey
        || option == SocketOption::CurveServerKey
        || option == SocketOption::CurvePublicKey
}

/// A security mechanism writes only its own options, and does nothing else.
pub proof fn lemma_security_actions(security: SecurityMechanism, option: SocketOption)
    ensures
        !is_security_option(option) ==> writes_to(set_all(security_writes(security)), option)
            == Seq::<ActionView>::empty(),
        other_actions(set_all(security_writes(security))) == Seq::<ActionView>::empty(),
{
    let w = set_all(security_writes(security));
    let e = Seq::<ActionView>::empty();
    lemma_pick_single(w[0], option);
    if w.len() == 1 {
        assert(w =~= seq![w[0]]);
    } else if w.len() == 2 {
        lemma_pick_single(w[1], option);
        lemma_pick_add(seq![w[0]], seq![w[1]], option);
        assert(w =~= seq![w[0]] + seq![w[1]]);
        assert(e + e =~= e);
    } else {
        lemma_pick_single(w[1], option);
        lemma_pick_single(w[2], option);
        lemma_pick_add(seq![w[0]], seq![w[1]], option);
        lemma_pick_add(seq![w[0]] + seq![w[1]], seq![w[2]], option);
        assert(w =~= seq![w[0]] + seq![w[1]] + seq![w[2]]);
        assert(e + e + e =~= e);
    }
}

/// Whether `option` is one that a [`SocketBuilder`] has a field for.
pub open spec fn is_socket_builder_option(option: SocketOption) -> bool {
    option == SocketOption::BusyPoll
        || option == SocketOption::ConnectTimeout
        || option == SocketOption::HandshakeInterval
        || option == SocketOption::HeartbeatInterval
        || option == SocketOption::HeartbeatTimeout
        || option == SocketOption::HeartbeatTimeToLive
        || option == SocketOption::Immediate
        || option == SocketOption::IPv6
        || option == SocketOption::Linger
        || option == SocketOption::MaxMessageSize
        || option == SocketOption::ReceiveBuffer
        || option == SocketOption::ReceiveHighWatermark
        || option == SocketOption::ReceiveTimeout
        || option == SocketOption::ReconnectInterval
        || option == SocketOption::ReconnectIntervalMax
        || option == SocketOption::SendBuffer
        || option == SocketOption::SendHighWatermark
        || option == SocketOption::SendTimeout
        || option == SocketOption::ZapDomain
}

/// Applying a [`SocketBuilder`] writes each field that was given a value to the option of
/// the same name, once, with the value's bytes, and a field without a value not at all.
pub proof fn lemma_socket_builder_writes(b: SocketBuilder)
    ensures
        writes_to(socket_builder_actions(b), SocketOption::BusyPoll) == match b.busy_poll {
            Some(v) => seq![ActionView::SetOption(SocketOption::BusyPoll, bool_bytes(v))],
            None => Seq::<ActionView>::empty(),
        },
        writes_to(socket_builder_actions(b), SocketOption::ConnectTimeout) == match b.connect_timeout {
            Some(v) => seq![ActionView::SetOption(SocketOption::ConnectTimeout, i32_bytes(v))],
            None => Seq::<ActionView>::empty(),
        },
        writes_to(socket_builder_actions(b), SocketOption::HandshakeInterval) == match b.handshake_interval {
            Some(v) => seq![ActionView::SetOption(SocketOption::HandshakeInterval, i32_bytes(v))],
            None => Seq::<ActionView>::empty(),
        },
        writes_to(socket_builder_actions(b), SocketOption::HeartbeatInterval) == match b.heartbeat_interval {
            Some(v) => seq![ActionView::SetOption(SocketOption::HeartbeatInterval, i32_bytes(v))],
            None => Seq::<ActionView>::empty(),
        },
        writes_to(socket_builder_actions(b), SocketOption::HeartbeatTimeout) == match b.heartbeat_timeout {
            Some(v) => seq![ActionView::SetOption(SocketOption::HeartbeatTimeout, i32_bytes(v))],
            None => Seq::<ActionView>::empty(),
        },
        writes_to(socket_builder_actions(b), SocketOption::HeartbeatTimeToLive) == match b.heartbeat_timetolive {
            Some(v) => seq![ActionView::SetOption(SocketOption::HeartbeatTimeToLive, i32_bytes(v))],
            None => Seq::<ActionView>::empty(),
        },
        writes_to(socket_builder_actions(b), SocketOption::Immediate) == match b.immediate {
            Some(v) => seq![ActionView::SetOption(SocketOption::Immediate, bool_bytes(v))],
            None => Seq::<ActionView>::empty(),
        },
        writes_to(socket_builder_actions(b), SocketOption::IPv6) == match b.ipv6 {
            Some(v) => seq![ActionView::SetOption(SocketOption::IPv6, bool_bytes(v))],
            None => Seq::<ActionView>::empty(),
        },
        writes_to(socket_builder_actions(b), SocketOption::Linger) == match b.linger {
            Some(v) => seq![ActionView::SetOption(SocketOption::Linger, i32_bytes(v))],
            None => Seq::<ActionView>::empty(),
        },
        writes_to(socket_builder_actions(b), SocketOption::MaxMessageSize) == match b.max_message_size {
            Some(v) => seq![ActionView::SetOption(SocketOption::MaxMessageSize, i64_bytes(v))],
            None => Seq::<ActionView>::empty(),
        },
        writes_to(socket_builder_actions(b), SocketOption::ReceiveBuffer) == match b.receive_buffer {
            Some(v) => seq![ActionView::SetOption(SocketOption::ReceiveBuffer, i32_bytes(v))],
            None => Seq::<ActionView>::empty(),
        },
        writes_to(socket_builder_actions(b), SocketOption::ReceiveHighWatermark) == match b.receive_highwater_mark {
            Some(v) => seq![ActionView::SetOption(SocketOption::ReceiveHighWatermark, i32_bytes(v))],
            None => Seq::<ActionView>::empty(),
        },
        writes_to(socket_builder_actions(b), SocketOption::ReceiveTimeout) == match b.receive_timeout {
            Some(v) => seq![ActionView::SetOption(SocketOption::ReceiveTimeout, i32_bytes(v))],
            None => Seq::<ActionView>::empty(),
        },
        writes_to(socket_builder_actions(b), SocketOption::ReconnectInterval) == match b.reconnect_interval {
            Some(v) => seq![ActionView::SetOption(SocketOption::ReconnectInterval, i32_bytes(v))],
            None => Seq::<ActionView>::empty(),
        },
        writes_to(socket_builder_actions(b), SocketOption::ReconnectIntervalMax) == match b.reconnect_interval_max {
            Some(v) => seq![ActionView::SetOption(SocketOption::ReconnectIntervalMax, i32_bytes(v))],
            None => Seq::<ActionView>::empty(),
        },
        writes_to(socket_builder_actions(b), SocketOption::SendBuffer) == match b.send_buffer {
            Some(v) => seq![ActionView::SetOption(SocketOption::SendBuffer, i32_bytes(v))],
            None => Seq::<ActionView>::empty(),
        },
        writes_to(socket_builder_actions(b), SocketOption::SendHighWatermark) == match b.send_highwater_mark {
            Some(v) => seq![ActionView::SetOption(SocketOption::SendHighWatermark, i32_bytes(v))],
            None => Seq::<ActionView>::empty(),
        },
        writes_to(socket_builder_actions(b), SocketOption::SendTimeout) == match b.send_timeout {
            Some(v) => seq![ActionView::SetOption(SocketOption::SendTimeout, i32_bytes(v))],
            None => Seq::<ActionView>::empty(),
        },
        writes_to(socket_builder_actions(b), SocketOption::ZapDomain) == match b.zap_domain {
            Some(d) => seq![ActionView::SetOption(SocketOption::ZapDomain, str_bytes(d@))],
            None => Seq::<ActionView>::empty(),
        },
{
    lemma_socket_builder_pick(b, SocketOption::BusyPoll);
    if let Some(s) = b.security_mechanism {
        lemma_security_actions(s, SocketOption::BusyPoll);
    }
    assert(writes_to(socket_builder_actions(b), SocketOption::BusyPoll) =~= match b.busy_poll {
            Some(v) => seq![ActionView::SetOption(SocketOption::BusyPoll, bool_bytes(v))],
            None => Seq::<ActionView>::empty(),
        });
    lemma_socket_builder_pick(b, SocketOption::ConnectTimeout);
    if let Some(s) = b.security_mechanism {
        lemma_security_actions(s, SocketOption::ConnectTimeout);
    }
    assert(writes_to(socket_builder_actions(b), SocketOption::ConnectTimeout) =~= match b.connect_timeout {
            Some(v) => seq![ActionView::SetOption(SocketOption::ConnectTimeout, i32_bytes(v))],
            None => Seq::<ActionView>::empty(),
        });
    lemma_socket_builder_pick(b, SocketOption::HandshakeInterval);
    if let Some(s) = b.security_mechanism {
        lemma_security_actions(s, SocketOption::HandshakeInterval);
    }
    assert(writes_to(socket_builder_actions(b), SocketOption::HandshakeInterval) =~= match b.handshake_interval {
            Some(v) => seq![ActionView::SetOption(SocketOption::HandshakeInterval, i32_bytes(v))],
            None => Seq::<ActionView>::empty(),
        });
    lemma_socket_builder_pick(b, SocketOption::HeartbeatInterval);
    if let Some(s) = b.security_mechanism {
        lemma_security_actions(s, SocketOption::HeartbeatInterval);
    }
    assert(writes_to(socket_builder_actions(b), SocketOption::HeartbeatInterval) =~= match b.heartbeat_interval {
            Some(v) => seq![ActionView::SetOption(SocketOption::HeartbeatInterval, i32_bytes(v))],
            None => Seq::<ActionView>::empty(),
        });
    lemma_socket_builder_pick(b, SocketOption::HeartbeatTimeout);
    if let Some(s) = b.security_mechanism {
        lemma_security_actions(s, SocketOption::HeartbeatTimeout);
    }
    assert(writes_to(socket_builder_actions(b), SocketOption::HeartbeatTimeout) =~= match b.heartbeat_timeout {
            Some(v) => seq![ActionView::SetOption(SocketOption::HeartbeatTimeout, i32_bytes(v))],
            None => Seq::<ActionView>::empty(),
        });
    lemma_socket_builder_pick(b, SocketOption::HeartbeatTimeToLive);
    if let Some(s) = b.security_mechanism {
        lemma_security_actions(s, SocketOption::HeartbeatTimeToLive);
    }
    assert(writes_to(socket_builder_actions(b), SocketOption::HeartbeatTimeToLive) =~= match b.heartbeat_timetolive {
            Some(v) => seq![ActionView::SetOption(SocketOption::HeartbeatTimeToLive, i32_bytes(v))],
            None => Seq::<ActionView>::empty(),
        });
    lemma_socket_builder_pick(b, SocketOption::Immediate);
    if let Some(s) = b.security_mechanism {
        lemma_security_actions(s, SocketOption::Immediate);
    }
    assert(writes_to(socket_builder_actions(b), SocketOption::Immediate) =~= match b.immediate {
            Some(v) => seq![ActionView::SetOption(SocketOption::Immediate, bool_bytes(v))],
            None => Seq::<ActionView>::empty(),
        });
    lemma_socket_builder_pick(b, SocketOption::IPv6);
    if let Some(s) = b.security_mechanism {
        lemma_security_actions(s, SocketOption::IPv6);
    }
    assert(writes_to(socket_builder_actions(b), SocketOption::IPv6) =~= match b.ipv6 {
            Some(v) => seq![ActionView::SetOption(SocketOption::IPv6, bool_bytes(v))],
            None => Seq::<ActionView>::empty(),
        });
    lemma_socket_builder_pick(b, SocketOption::Linger);
    if let Some(s) = b.security_mechanism {
        lemma_security_actions(s, SocketOption::Linger);
    }
    assert(writes_to(socket_builder_actions(b), SocketOption::Linger) =~= match b.linger {
            Some(v) => seq![ActionView::SetOption(SocketOption::Linger, i32_bytes(v))],
            None => Seq::<ActionView>::empty(),
        });
    lemma_socket_builder_pick(b, SocketOption::MaxMessageSize);
    if let Some(s) = b.security_mechanism {
        lemma_security_actions(s, SocketOption::MaxMessageSize);
    }
    assert(writes_to(socket_builder_actions(b), SocketOption::MaxMessageSize) =~= match b.max_message_size {
            Some(v) => seq![ActionView::SetOption(SocketOption::MaxMessageSize, i64_bytes(v))],
            None => Seq::<ActionView>::empty(),
        });
    lemma_socket_builder_pick(b, SocketOption::ReceiveBuffer);
    if let Some(s) = b.security_mechanism {
        lemma_security_actions(s, SocketOption::ReceiveBuffer);
    }
    assert(writes_to(socket_builder_actions(b), SocketOption::ReceiveBuffer) =~= match b.receive_buffer {
            Some(v) => seq![ActionView::SetOption(SocketOption::ReceiveBuffer, i32_bytes(v))],
            None => Seq::<ActionView>::empty(),
        });
    lemma_socket_builder_pick(b, SocketOption::ReceiveHighWatermark);
    if let Some(s) = b.security_mechanism {
        lemma_security_actions(s, SocketOption::ReceiveHighWatermark);
    }
    assert(writes_to(socket_builder_actions(b), SocketOption::ReceiveHighWatermark) =~= match b.receive_highwater_mark {
            Some(v) => seq![ActionView::SetOption(SocketOption::ReceiveHighWatermark, i32_bytes(v))],
            None => Seq::<ActionView>::empty(),
        });
    lemma_socket_builder_pick(b, SocketOption::ReceiveTimeout);
    if let Some(s) = b.security_mechanism {
        lemma_security_actions(s, SocketOption::ReceiveTimeout);
    }
    assert(writes_to(socket_builder_actions(b), SocketOption::ReceiveTimeout) =~= match b.receive_timeout {
            Some(v) => seq![ActionView::SetOption(SocketOption::ReceiveTimeout, i32_bytes(v))],
            None => Seq::<ActionView>::empty(),
        });
    lemma_socket_builder_pick(b, SocketOption::ReconnectInterval);
    if let Some(s) = b.security_mechanism {
        lemma_security_actions(s, SocketOption::ReconnectInterval);
    }
    assert(writes_to(socket_builder_actions(b), SocketOption::ReconnectInterval) =~= match b.reconnect_interval {
            Some(v) => seq![ActionView::SetOption(SocketOption::ReconnectInterval, i32_bytes(v))],
            None => Seq::<ActionView>::empty(),
        });
    lemma_socket_builder_pick(b, SocketOption::ReconnectIntervalMax);
    if let Some(s) = b.security_mechanism {
        lemma_security_actions(s, SocketOption::ReconnectIntervalMax);
    }
    assert(writes_to(socket_builder_actions(b), SocketOption::ReconnectIntervalMax) =~= match b.reconnect_interval_max {
            Some(v) => seq![ActionView::SetOption(SocketOption::ReconnectIntervalMax, i32_bytes(v))],
            None => Seq::<ActionView>::empty(),
        });
    lemma_socket_builder_pick(b, SocketOption::SendBuffer);
    if let Some(s) = b.security_mechanism {
        lemma_security_actions(s, SocketOption::SendBuffer);
    }
    assert(writes_to(socket_builder_actions(b), SocketOption::SendBuffer) =~= match b.send_buffer {
            Some(v) => seq![ActionView::SetOption(SocketOption::SendBuffer, i32_bytes(v))],
            None => Seq::<ActionView>::empty(),
        });
    lemma_socket_builder_pick(b, SocketOption::SendHighWatermark);
    if let Some(s) = b.security_mechanism {
        lemma_security_actions(s, SocketOption::SendHighWatermark);
    }
    assert(writes_to(socket_builder_actions(b), SocketOption::SendHighWatermark) =~= match b.send_highwater_mark {
            Some(v) => seq![ActionView::SetOption(SocketOption::SendHighWatermark, i32_bytes(v))],
            None => Seq::<ActionView>::empty(),
        });
    lemma_socket_builder_pick(b, SocketOption::SendTimeout);
    if let Some(s) = b.security_mechanism {
        lemma_security_actions(s, SocketOption::SendTimeout);
    }
    assert(writes_to(socket_builder_actions(b), SocketOption::SendTimeout) =~= match b.send_timeout {
            Some(v) => seq![ActionView::SetOption(SocketOption::SendTimeout, i32_bytes(v))],
            None => Seq::<ActionView>::empty(),
        });
    lemma_socket_builder_pick(b, SocketOption::ZapDomain);
    if let Some(s) = b.security_mechanism {
        lemma_security_actions(s, SocketOption::ZapDomain);
    }
    assert(writes_to(socket_builder_actions(b), SocketOption::ZapDomain) =~= match b.zap_domain {
            Some(d) => seq![ActionView::SetOption(SocketOption::ZapDomain, str_bytes(d@))],
            None => Seq::<ActionView>::empty(),
        });

}

/// Applying a [`SocketBuilder`] writes no option that it has no field for, other than those
/// of its security mechanism, and does nothing but write options.
pub proof fn lemma_socket_builder_writes_only(b: SocketBuilder, option: SocketOption)
    ensures
        !is_socket_builder_option(option) && !is_security_option(option) ==> writes_to(
            socket_builder_actions(b),
            option,
        ) == Seq::<ActionView>::empty(),
        other_actions(socket_builder_actions(b)) == Seq::<ActionView>::empty(),
{
    lemma_socket_builder_pick(b, option);
    if let Some(s) = b.security_mechanism {
        lemma_security_actions(s, option);
    }
    let e = Seq::<ActionView>::empty();
    assert(e + e + e + e + e + e + e + e + e + e + e + e + e + e + e + e + e + e + e + e =~= e);
}

#[verifier::rlimit(50)]
proof fn lemma_socket_builder_pick(b: SocketBuilder, option: SocketOption)
    ensures
        writes_to(socket_builder_actions(b), option) == (if option == SocketOption::BusyPoll { set_bool_if(b.busy_poll, SocketOption::BusyPoll) } else { Seq::<ActionView>::empty() })
            + (if option == SocketOption::ConnectTimeout { set_i32_if(b.connect_timeout, SocketOption::ConnectTimeout) } else { Seq::<ActionView>::empty() })
            + (if option == SocketOption::HandshakeInterval { set_i32_if(b.handshake_interval, SocketOption::HandshakeInterval) } else { Seq::<ActionView>::empty() })
            + (if option == SocketOption::HeartbeatInterval { set_i32_if(b.heartbeat_interval, SocketOption::HeartbeatInterval) } else { Seq::<ActionView>::empty() })
            + (if option == SocketOption::HeartbeatTimeout { set_i32_if(b.heartbeat_timeout, SocketOption::HeartbeatTimeout) } else { Seq::<ActionView>::empty() })
            + (if option == SocketOption::HeartbeatTimeToLive { set_i32_if(b.heartbeat_timetolive, SocketOption::HeartbeatTimeToLive) } else { Seq::<ActionView>::empty() })
            + (if option == SocketOption::Immediate { set_bool_if(b.immediate, SocketOption::Immediate) } else { Seq::<ActionView>::empty() })
            + (if option == SocketOption::IPv6 { set_bool_if(b.ipv6, SocketOption::IPv6) } else { Seq::<ActionView>::empty() })
            + (if option == SocketOption::Linger { set_i32_if(b.linger, SocketOption::Linger) } else { Seq::<ActionView>::empty() })
            + (if option == SocketOption::MaxMessageSize { set_i64_if(b.max_message_size, SocketOption::MaxMessageSize) } else { Seq::<ActionView>::empty() })
            + (if option == SocketOption::ReceiveBuffer { set_i32_if(b.receive_buffer, SocketOption::ReceiveBuffer) } else { Seq::<ActionView>::empty() })
            + (if option == SocketOption::ReceiveHighWatermark { set_i32_if(b.receive_highwater_mark, SocketOption::ReceiveHighWatermark) } else { Seq::<ActionView>::empty() })
            + (if option == SocketOption::ReceiveTimeout { set_i32_if(b.receive_timeout, SocketOption::ReceiveTimeout) } else { Seq::<ActionView>::empty() })
            + (if option == SocketOption::ReconnectInterval { set_i32_if(b.reconnect_interval, SocketOption::ReconnectInterval) } else { Seq::<ActionView>::empty() })
            + (if option == SocketOption::ReconnectIntervalMax { set_i32_if(b.reconnect_interval_max, SocketOption::ReconnectIntervalMax) } else { Seq::<ActionView>::empty() })
            + (if option == SocketOption::SendBuffer { set_i32_if(b.send_buffer, SocketOption::SendBuffer) } else { Seq::<ActionView>::empty() })
            + (if option == SocketOption::SendHighWatermark { set_i32_if(b.send_highwater_mark, SocketOption::SendHighWatermark) } else { Seq::<ActionView>::empty() })
            + (if option == SocketOption::SendTimeout { set_i32_if(b.send_timeout, SocketOption::SendTimeout) } else { Seq::<ActionView>::empty() })
            + (if option == SocketOption::ZapDomain { match b.zap_domain { Some(d) => seq![ActionView::SetOption(SocketOption::ZapDomain, str_bytes(d@))], None => Seq::<ActionView>::empty() } } else { Seq::<ActionView>::empty() })
            + (match b.security_mechanism { Some(s) => writes_to(set_all(security_writes(s)), option), None => Seq::<ActionView>::empty() }),
        other_actions(socket_builder_actions(b)) == Seq::<ActionView>::empty(),
{
    let s0 = set_bool_if(b.busy_poll, SocketOption::BusyPoll);
    let s1 = set_i32_if(b.connect_timeout, SocketOption::ConnectTimeout);
    let s2 = set_i32_if(b.handshake_interval, SocketOption::HandshakeInterval);
    let s3 = set_i32_if(b.heartbeat_interval, SocketOption::HeartbeatInterval);
    let s4 = set_i32_if(b.heartbeat_timeout, SocketOption::HeartbeatTimeout);
    let s5 = set_i32_if(b.heartbeat_timetolive, SocketOption::HeartbeatTimeToLive);
    let s6 = set_bool_if(b.immediate, SocketOption::Immediate);
    let s7 = set_bool_if(b.ipv6, SocketOption::IPv6);
    let s8 = set_i32_if(b.linger, SocketOption::Linger);
    let s9 = set_i64_if(b.max_message_size, SocketOption::MaxMessageSize);
    let s10 = set_i32_if(b.receive_buffer, SocketOption::ReceiveBuffer);
    let s11 = set_i32_if(b.receive_highwater_mark, SocketOption::ReceiveHighWatermark);
    let s12 = set_i32_if(b.receive_timeout, SocketOption::ReceiveTimeout);
    let s13 = set_i32_if(b.reconnect_interval, SocketOption::ReconnectInterval);
    let s14 = set_i32_if(b.reconnect_interval_max, SocketOption::ReconnectIntervalMax);
    let s15 = set_i32_if(b.send_buffer, SocketOption::SendBuffer);
    let s16 = set_i32_if(b.send_highwater_mark, SocketOption::SendHighWatermark);
    let s17 = set_i32_if(b.send_timeout, SocketOption::SendTimeout);
    let s18 = match b.zap_domain { Some(d) => seq![ActionView::SetOption(SocketOption::ZapDomain, str_bytes(d@))], None => Seq::<ActionView>::empty() };
    let s19 = match b.security_mechanism { Some(s) => set_all(security_writes(s)), None => Seq::<ActionView>::empty() };
    let p0 = s0;
    lemma_pick_add(p0, s1, option);
    let p1 = p0 + s1;
    lemma_pick_add(p1, s2, option);
    let p2 = p1 + s2;
    lemma_pick_add(p2, s3, option);
    let p3 = p2 + s3;
    lemma_pick_add(p3, s4, option);
    let p4 = p3 + s4;
    lemma_pick_add(p4, s5, option);
    let p5 = p4 + s5;
    lemma_pick_add(p5, s6, option);
    let p6 = p5 + s6;
    lemma_pick_add(p6, s7, option);
    let p7 = p6 + s7;
    lemma_pick_add(p7, s8, option);
    let p8 = p7 + s8;
    lemma_pick_add(p8, s9, option);
    let p9 = p8 + s9;
    lemma_pick_add(p9, s10, option);
    let p10 = p9 + s10;
    lemma_pick_add(p10, s11, option);
    let p11 = p10 + s11;
    lemma_pick_add(p11, s12, option);
    let p12 = p11 + s12;
    lemma_pick_add(p12, s13, option);
    let p13 = p12 + s13;
    lemma_pick_add(p13, s14, option);
    let p14 = p13 + s14;
    lemma_pick_add(p14, s15, option);
    let p15 = p14 + s15;
    lemma_pick_add(p15, s16, option);
    let p16 = p15 + s16;
    lemma_pick_add(p16, s17, option);
    let p17 = p16 + s17;
    lemma_pick_add(p17, s18, option);
    let p18 = p17 + s18;
    lemma_pick_add(p18, s19, option);
    let p19 = p18 + s19;
    lemma_pick_segment(s0, option);
    lemma_pick_segment(s1, option);
    lemma_pick_segment(s2, option);
    lemma_pick_segment(s3, option);
    lemma_pick_segment(s4, option);
    lemma_pick_segment(s5, option);
    lemma_pick_segment(s6, option);
    lemma_pick_segment(s7, option);
    lemma_pick_segment(s8, option);
    lemma_pick_segment(s9, option);
    lemma_pick_segment(s10, option);
    lemma_pick_segment(s11, option);
    lemma_pick_segment(s12, option);
    lemma_pick_segment(s13, option);
    lemma_pick_segment(s14, option);
    lemma_pick_segment(s15, option);
    lemma_pick_segment(s16, option);
    lemma_pick_segment(s17, option);
    lemma_pick_segment(s18, option);
    if let Some(s) = b.security_mechanism {
        lemma_security_actions(s, option);
    }
    assert(p19 == socket_builder_actions(b));
}

} // verus!
