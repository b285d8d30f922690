//! XSubscribe sockets.
use vstd::prelude::*;

use super::builder::{lemma_pick_add, lemma_pick_segment, lemma_socket_builder_writes_only, other_actions, writes_to, push_bool, push_socket_builder, push_str, set_bool_if, set_str_if, socket_builder_actions_if, SocketBuilder};
use super::{actions_view, ActionView};
use super::flags::SendFlags;

use super::codec::{bool_bytes, i32_bytes, str_bytes};
use super::{read_bool, read_i32, read_string, string_result_is, writes, Socket, SocketAction, SocketOption, SocketType, Sockopt};
use crate::error::{ZmqError, ZmqResult};
use crate::sealed;
use crate::message::Message;

verus! {

/// Kind of the extended receiving sockets of the publish-subscribe pattern.
pub struct XSubscribe {}

/// A XSubscribe socket.
pub type XSubscribeSocket = Socket<XSubscribe>;

impl sealed::SocketType for XSubscribe {
    open spec fn spec_socket_type() -> SocketType {
        SocketType::XSubscribe
    }

    fn raw_socket_type() -> (r: SocketType) {
        SocketType::XSubscribe
    }
}

impl sealed::ReceiverFlag for XSubscribe {}

impl sealed::SenderFlag for XSubscribe {}

/// The message that subscribes an XSubscribe socket to a topic (`is_subscribe`) or
/// unsubscribes it: the byte 1 or 0, followed by the topic.
pub open spec fn subscription_bytes(is_subscribe: bool, topic: Seq<u8>) -> Seq<u8> {
    seq![if is_subscribe { 1u8 } else { 0u8 }] + topic
}

/// The message that subscribes to a topic or unsubscribes from it.
fn subscription_message(is_subscribe: bool, topic: &[u8]) -> (r: Message)
    ensures
        r.data() == subscription_bytes(is_subscribe, topic@),
        !r.more(),
        r.spec_routing_id() == 0,
        r.group_bytes() == Seq::<u8>::empty(),
{
    let mut bytes: Vec<u8> = Vec::new();
    bytes.push(if is_subscribe { 1 } else { 0 });
    let mut i: usize = 0;
    while i < topic.len()
        invariant
            i <= topic@.len(),
            bytes@ == subscription_bytes(is_subscribe, topic@.subrange(0, i as int)),
        decreases topic@.len() - i,
    {
        bytes.push(topic[i]);
        i = i + 1;
        proof {
            assert(bytes@ =~= subscription_bytes(is_subscribe, topic@.subrange(0, i as int)));
        }
    }
    proof {
        assert(topic@.subrange(0, topic@.len() as int) =~= topic@);
    }
    Message::from_bytes(bytes.as_slice())
}

impl Socket<XSubscribe> {
    /// The message to send, with no flags, to subscribe to a topic.
    pub fn subscribe(&self, topic: &[u8]) -> (r: Message)
        ensures
                r.data() == subscription_bytes(true, topic@),
            !r.more(),
            r.spec_routing_id() == 0,
            r.group_bytes() == Seq::<u8>::empty(),
    {
        subscription_message(true, topic)
    }

    /// The message to send, with no flags, to unsubscribe from a topic.
    pub fn unsubscribe(&self, topic: &[u8]) -> (r: Message)
        ensures
                r.data() == subscription_bytes(false, topic@),
            !r.more(),
            r.spec_routing_id() == 0,
            r.group_bytes() == Seq::<u8>::empty(),
    {
        subscription_message(false, topic)
    }
}

impl Socket<XSubscribe> {
    /// Sets whether only the first part of a multipart subscription is processed (`OnlyFirstSubscribe`).
    pub fn set_only_first_subscribe(&self, value: bool) -> (r: Sockopt)
        ensures
            writes(r, SocketOption::OnlyFirstSubscribe, bool_bytes(value)),
    {
        self.set_sockopt_bool(SocketOption::OnlyFirstSubscribe, value)
    }

    /// Reads the number of topic subscriptions (`TopicsCount`) from the reply to `zmq_getsockopt`.
    pub fn topic_count(&self, reply: &Sockopt) -> (r: ZmqResult<i32>)
        ensures
            r == read_i32(reply.option, reply.value@, SocketOption::TopicsCount),
    {
        self.get_sockopt_i32(SocketOption::TopicsCount, reply)
    }

    /// Sets whether duplicate unsubscriptions are passed on (`XsubVerboseUnsubscribe`).
    pub fn set_verbose_unsubscribe(&self, value: bool) -> (r: Sockopt)
        ensures
            writes(r, SocketOption::XsubVerboseUnsubscribe, bool_bytes(value)),
    {
        self.set_sockopt_bool(SocketOption::XsubVerboseUnsubscribe, value)
    }
}

/// Builder for [`XSubscribeSocket`]: each setting that was given a value is applied, in the order
/// of the fields; the others keep 0MQ's defaults.
#[derive(Debug, Clone, PartialEq, Eq, Hash)]
pub struct XSubscribeBuilder {
    /// The common socket options.
    pub socket_builder: Option<SocketBuilder>,
    /// A topic to subscribe to.
    pub subscribe: Option<String>,
    /// Whether only the first part of a multipart subscription counts.
    pub only_first_subscribe: Option<bool>,
}

/// What applying a [`XSubscribeBuilder`] does to a socket, in the order of the fields.
pub open spec fn x_subscribe_builder_actions(b: XSubscribeBuilder) -> Seq<ActionView> {
    socket_builder_actions_if(b.socket_builder)
        + match b.subscribe {
            Some(t) => seq![
                ActionView::Send(
                    (subscription_bytes(true, str_bytes(t@)), false, 0u32, Seq::empty()),
                    0i32,
                ),
            ],
            None => Seq::empty(),
        }
        + set_bool_if(b.only_first_subscribe, SocketOption::OnlyFirstSubscribe)
}

impl Default for XSubscribeBuilder {
    fn default() -> (r: Self)
        ensures
            r.socket_builder is None,
            r.subscribe is None,
            r.only_first_subscribe is None,
    {
        XSubscribeBuilder {
            socket_builder: None,
            subscribe: None,
            only_first_subscribe: None,
        }
    }
}

impl XSubscribeBuilder {
    /// Gives `socket_builder` a value.
    pub fn socket_builder(self, value: SocketBuilder) -> (r: Self)
        ensures
            r == (XSubscribeBuilder { socket_builder: Some(value), ..self }),
    {
        XSubscribeBuilder { socket_builder: Some(value), ..self }
    }

    /// Gives `subscribe` a value.
    pub fn subscribe(self, value: &str) -> (r: Self)
        ensures
            r == (XSubscribeBuilder { subscribe: r.subscribe, ..self }),
            r.subscribe matches Some(v) && v@ == value@,
    {
        XSubscribeBuilder { subscribe: Some(value.to_owned()), ..self }
    }

    /// Gives `only_first_subscribe` a value.
    pub fn only_first_subscribe(self, value: bool) -> (r: Self)
        ensures
            r == (XSubscribeBuilder { only_first_subscribe: Some(value), ..self }),
    {
        XSubscribeBuilder { only_first_subscribe: Some(value), ..self }
    }

    /// The actions that apply this builder to `socket`, in the order of the fields.
    pub fn apply(self, socket: &XSubscribeSocket) -> (r: Vec<SocketAction>)
        ensures
            actions_view(r@) == x_subscribe_builder_actions(self),
    {
        let mut r: Vec<SocketAction> = Vec::new();
        proof {
            assert(actions_view(r@) =~= Seq::<ActionView>::empty());
        }
        push_socket_builder(&mut r, socket, self.socket_builder);
        proof {
            assert(Seq::<ActionView>::empty() + socket_builder_actions_if(self.socket_builder)
                =~= socket_builder_actions_if(self.socket_builder));
        }
        let ghost before_subscribe = actions_view(r@);
        if let Some(t) = self.subscribe {
            r.push(SocketAction::Send(socket.subscribe(t.as_str().as_bytes()), SendFlags::empty()));
        }
        proof {
            assert(actions_view(r@) =~= before_subscribe + match self.subscribe {
            Some(t) => seq![
                ActionView::Send(
                    (subscription_bytes(true, str_bytes(t@)), false, 0u32, Seq::empty()),
                    0i32,
                ),
            ],
            None => Seq::empty(),
        });
        }
        push_bool(&mut r, socket, self.only_first_subscribe, SocketOption::OnlyFirstSubscribe);
        r
    }

    /// Creates a socket together with the actions that apply this builder to it.
    pub fn build_from_context(self) -> (r: (XSubscribeSocket, Vec<SocketAction>))
        ensures
            actions_view(r.1@) == x_subscribe_builder_actions(self),
    {
        let socket = XSubscribeSocket::from_context();
        let actions = self.apply(&socket);
        (socket, actions)
    }
}

proof fn lemma_xsubscribe_builder_pick(b: XSubscribeBuilder, option: SocketOption)
    ensures
        writes_to(x_subscribe_builder_actions(b), option) == writes_to(socket_builder_actions_if(b.socket_builder), option)
            + writes_to(match b.subscribe {
            Some(t) => seq![
                ActionView::Send(
                    (subscription_bytes(true, str_bytes(t@)), false, 0u32, Seq::empty()),
                    0i32,
                ),
            ],
            None => Seq::empty(),
        }, option)
            + writes_to(set_bool_if(b.only_first_subscribe, SocketOption::OnlyFirstSubscribe), option),
        other_actions(x_subscribe_builder_actions(b)) == other_actions(socket_builder_actions_if(b.socket_builder))
            + other_actions(match b.subscribe {
            Some(t) => seq![
                ActionView::Send(
                    (subscription_bytes(true, str_bytes(t@)), false, 0u32, Seq::empty()),
                    0i32,
                ),
            ],
            None => Seq::empty(),
        })
            + other_actions(set_bool_if(b.only_first_subscribe, SocketOption::OnlyFirstSubscribe)),
{
    let s0 = socket_builder_actions_if(b.socket_builder);
    let s1 = match b.subscribe {
            Some(t) => seq![
                ActionView::Send(
                    (subscription_bytes(true, str_bytes(t@)), false, 0u32, Seq::empty()),
                    0i32,
                ),
            ],
            None => Seq::empty(),
        };
    let s2 = set_bool_if(b.only_first_subscribe, SocketOption::OnlyFirstSubscribe);
    let p0 = s0;
    lemma_pick_add(p0, s1, option);
    let p1 = p0 + s1;
    lemma_pick_add(p1, s2, option);
    let p2 = p1 + s2;
    assert(p2 == x_subscribe_builder_actions(b));
}

/// Applying an [`XSubscribeBuilder`] writes each setting that was given a value to the option of the
/// same name, once, with the value's bytes, and a setting without a value not at all; its only
/// other action is the one its subscription field asks for, where it has a value.
pub proof fn lemma_xsubscribe_builder_writes(b: XSubscribeBuilder)
    ensures
        writes_to(x_subscribe_builder_actions(b), SocketOption::OnlyFirstSubscribe) == match b.only_first_subscribe {
            Some(v) => seq![ActionView::SetOption(SocketOption::OnlyFirstSubscribe, bool_bytes(v))],
            None => Seq::<ActionView>::empty(),
        },
        other_actions(x_subscribe_builder_actions(b)) == match b.subscribe {
            Some(t) => seq![
                ActionView::Send(
                    (subscription_bytes(true, str_bytes(t@)), false, 0u32, Seq::<u8>::empty()),
                    0i32,
                ),
            ],
            None => Seq::<ActionView>::empty(),
        },
{
    lemma_xsubscribe_builder_pick(b, SocketOption::OnlyFirstSubscribe);
    lemma_pick_segment(match b.subscribe {
            Some(t) => seq![
                ActionView::Send(
                    (subscription_bytes(true, str_bytes(t@)), false, 0u32, Seq::empty()),
                    0i32,
                ),
            ],
            None => Seq::empty(),
        }, SocketOption::OnlyFirstSubscribe);
    lemma_pick_segment(set_bool_if(b.only_first_subscribe, SocketOption::OnlyFirstSubscribe), SocketOption::OnlyFirstSubscribe);
    if let Some(sb) = b.socket_builder {
        lemma_socket_builder_writes_only(sb, SocketOption::OnlyFirstSubscribe);
    }
    assert(writes_to(x_subscribe_builder_actions(b), SocketOption::OnlyFirstSubscribe) =~= match b.only_first_subscribe {
            Some(v) => seq![ActionView::SetOption(SocketOption::OnlyFirstSubscribe, bool_bytes(v))],
            None => Seq::<ActionView>::empty(),
        });
    lemma_xsubscribe_builder_pick(b, SocketOption::Linger);
    lemma_pick_segment(match b.subscribe {
            Some(t) => seq![
                ActionView::Send(
                    (subscription_bytes(true, str_bytes(t@)), false, 0u32, Seq::empty()),
                    0i32,
                ),
            ],
            None => Seq::empty(),
        }, SocketOption::Linger);
    lemma_pick_segment(set_bool_if(b.only_first_subscribe, SocketOption::OnlyFirstSubscribe), SocketOption::Linger);
    if let Some(sb) = b.socket_builder {
        lemma_socket_builder_writes_only(sb, SocketOption::Linger);
    }
    assert(other_actions(x_subscribe_builder_actions(b)) =~= match b.subscribe {
            Some(t) => seq![
                ActionView::Send(
                    (subscription_bytes(true, str_bytes(t@)), false, 0u32, Seq::<u8>::empty()),
                    0i32,
                ),
            ],
            None => Seq::<ActionView>::empty(),
        });
}

} // verus!
