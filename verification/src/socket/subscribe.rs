//! Subscribe sockets.
use vstd::prelude::*;

use super::builder::{lemma_pick_add, lemma_pick_segment, lemma_socket_builder_writes_only, other_actions, writes_to, push_bool, push_socket_builder, push_str, set_bool_if, set_str_if, socket_builder_actions_if, SocketBuilder};
use super::{actions_view, ActionView};

use super::codec::{bool_bytes, i32_bytes, str_bytes};
use super::{read_bool, read_i32, read_string, string_result_is, writes, Socket, SocketAction, SocketOption, SocketType, Sockopt};
use crate::error::{ZmqError, ZmqResult};
use crate::sealed;

verus! {

/// Kind of the receiving sockets of the publish-subscribe pattern.
pub struct Subscribe {}

/// A Subscribe socket.
pub type SubscribeSocket = Socket<Subscribe>;

impl sealed::SocketType for Subscribe {
    open spec fn spec_socket_type() -> SocketType {
        SocketType::Subscribe
    }

    fn raw_socket_type() -> (r: SocketType) {
        SocketType::Subscribe
    }
}

impl sealed::ReceiverFlag for Subscribe {}

impl Socket<Subscribe> {
    /// Sets whether only the last message is kept (`Conflate`).
    pub fn set_conflate(&self, value: bool) -> (r: Sockopt)
        ensures
            writes(r, SocketOption::Conflate, bool_bytes(value)),
    {
        self.set_sockopt_bool(SocketOption::Conflate, value)
    }

    /// Sets whether message filtering is inverted (`InvertMatching`).
    pub fn set_invert_matching(&self, value: bool) -> (r: Sockopt)
        ensures
            writes(r, SocketOption::InvertMatching, bool_bytes(value)),
    {
        self.set_sockopt_bool(SocketOption::InvertMatching, value)
    }

    /// Reads whether message filtering is inverted (`InvertMatching`) from the reply to `zmq_getsockopt`.
    pub fn invert_matching(&self, reply: &Sockopt) -> (r: ZmqResult<bool>)
        ensures
            r == read_bool(reply.option, reply.value@, SocketOption::InvertMatching),
    {
        self.get_sockopt_bool(SocketOption::InvertMatching, reply)
    }

    /// Establishes a message filter (`Subscribe`).
    pub fn subscribe(&self, value: &[u8]) -> (r: Sockopt)
        ensures
            writes(r, SocketOption::Subscribe, value@),
    {
        self.set_sockopt_bytes(SocketOption::Subscribe, value)
    }

    /// Removes a message filter (`Unsubscribe`).
    pub fn unsubscribe(&self, value: &[u8]) -> (r: Sockopt)
        ensures
            writes(r, SocketOption::Unsubscribe, value@),
    {
        self.set_sockopt_bytes(SocketOption::Unsubscribe, value)
    }

    /// Reads the number of topic subscriptions (`TopicsCount`) from the reply to `zmq_getsockopt`.
    pub fn topic_count(&self, reply: &Sockopt) -> (r: ZmqResult<i32>)
        ensures
            r == read_i32(reply.option, reply.value@, SocketOption::TopicsCount),
    {
        self.get_sockopt_i32(SocketOption::TopicsCount, reply)
    }
}

/// Builder for [`SubscribeSocket`]: each setting that was given a value is applied, in the order
/// of the fields; the others keep 0MQ's defaults.
#[derive(Debug, Clone, PartialEq, Eq, Hash)]
pub struct SubscribeBuilder {
    /// The common socket options.
    pub socket_builder: Option<SocketBuilder>,
    /// Whether only the last message is kept.
    pub conflate: Option<bool>,
    /// Whether message filtering is inverted.
    pub invert_matching: Option<bool>,
    /// A topic to subscribe to.
    pub subscribe: Option<String>,
}

/// What applying a [`SubscribeBuilder`] does to a socket, in the order of the fields.
pub open spec fn subscribe_builder_actions(b: SubscribeBuilder) -> Seq<ActionView> {
    socket_builder_actions_if(b.socket_builder)
        + set_bool_if(b.conflate, SocketOption::Conflate)
        + set_bool_if(b.invert_matching, SocketOption::InvertMatching)
        + set_str_if(b.subscribe, SocketOption::Subscribe)
}

impl Default for SubscribeBuilder {
    fn default() -> (r: Self)
        ensures
            r.socket_builder is None,
            r.conflate is None,
            r.invert_matching is None,
            r.subscribe is None,
    {
        SubscribeBuilder {
            socket_builder: None,
            conflate: None,
            invert_matching: None,
            subscribe: None,
        }
    }
}

impl SubscribeBuilder {
    /// Gives `socket_builder` a value.
    pub fn socket_builder(self, value: SocketBuilder) -> (r: Self)
        ensures
            r == (SubscribeBuilder { socket_builder: Some(value), ..self }),
    {
        SubscribeBuilder { socket_builder: Some(value), ..self }
    }

    /// Gives `conflate` a value.
    pub fn conflate(self, value: bool) -> (r: Self)
        ensures
            r == (SubscribeBuilder { conflate: Some(value), ..self }),
    {
        SubscribeBuilder { conflate: Some(value), ..self }
    }

    /// Gives `invert_matching` a value.
    pub fn invert_matching(self, value: bool) -> (r: Self)
        ensures
            r == (SubscribeBuilder { invert_matching: Some(value), ..self }),
    {
        SubscribeBuilder { invert_matching: Some(value), ..self }
    }

    /// Gives `subscribe` a value.
    pub fn subscribe(self, value: &str) -> (r: Self)
        ensures
            r == (SubscribeBuilder { subscribe: r.subscribe, ..self }),
            r.subscribe matches Some(v) && v@ == value@,
    {
        SubscribeBuilder { subscribe: Some(value.to_owned()), ..self }
    }

    /// The actions that apply this builder to `socket`, in the order of the fields.
    pub fn apply(self, socket: &SubscribeSocket) -> (r: Vec<SocketAction>)
        ensures
            actions_view(r@) == subscribe_builder_actions(self),
    {
        let mut r: Vec<SocketAction> = Vec::new();
        proof {
            assert(actions_view(r@) =~= Seq::<ActionView>::empty());
        }
        push_socket_builder(&mut r, socket, self.socket_builder);
        proof {
            assert(Seq::<ActionView>::empty() + socket_builder_actions_if(self.socket_builder)
                =~= socket_builder_actions_if(self.socket_builder));
        }
        push_bool(&mut r, socket, self.conflate, SocketOption::Conflate);
        push_bool(&mut r, socket, self.invert_matching, SocketOption::InvertMatching);
        push_str(&mut r, socket, self.subscribe, SocketOption::Subscribe);
        r
    }

    /// Creates a socket together with the actions that apply this builder to it.
    pub fn build_from_context(self) -> (r: (SubscribeSocket, Vec<SocketAction>))
        ensures
            actions_view(r.1@) == subscribe_builder_actions(self),
    {
        let socket = SubscribeSocket::from_context();
        let actions = self.apply(&socket);
        (socket, actions)
    }
}

proof fn lemma_subscribe_builder_pick(b: SubscribeBuilder, option: SocketOption)
    ensures
        writes_to(subscribe_builder_actions(b), option) == writes_to(socket_builder_actions_if(b.socket_builder), option)
            + writes_to(set_bool_if(b.conflate, SocketOption::Conflate), option)
            + writes_to(set_bool_if(b.invert_matching, SocketOption::InvertMatching), option)
            + writes_to(set_str_if(b.subscribe, SocketOption::Subscribe), option),
        other_actions(subscribe_builder_actions(b)) == other_actions(socket_builder_actions_if(b.socket_builder))
            + other_actions(set_bool_if(b.conflate, SocketOption::Conflate))
            + other_actions(set_bool_if(b.invert_matching, SocketOption::InvertMatching))
            + other_actions(set_str_if(b.subscribe, SocketOption::Subscribe)),
{
    let s0 = socket_builder_actions_if(b.socket_builder);
    let s1 = set_bool_if(b.conflate, SocketOption::Conflate);
    let s2 = set_bool_if(b.invert_matching, SocketOption::InvertMatching);
    let s3 = set_str_if(b.subscribe, SocketOption::Subscribe);
    let p0 = s0;
    lemma_pick_add(p0, s1, option);
    let p1 = p0 + s1;
    lemma_pick_add(p1, s2, option);
    let p2 = p1 + s2;
    lemma_pick_add(p2, s3, option);
    let p3 = p2 + s3;
    assert(p3 == subscribe_builder_actions(b));
}

/// Applying a [`SubscribeBuilder`] writes each setting that was given a value to the option of the
/// same name, once, with the value's bytes, and a setting without a value not at all; it
/// does nothing but write options.
pub proof fn lemma_subscribe_builder_writes(b: SubscribeBuilder)
    ensures
        writes_to(subscribe_builder_actions(b), SocketOption::Conflate) == match b.conflate {
            Some(v) => seq![ActionView::SetOption(SocketOption::Conflate, bool_bytes(v))],
            None => Seq::<ActionView>::empty(),
        },
        writes_to(subscribe_builder_actions(b), SocketOption::InvertMatching) == match b.invert_matching {
            Some(v) => seq![ActionView::SetOption(SocketOption::InvertMatching, bool_bytes(v))],
            None => Seq::<ActionView>::empty(),
        },
        writes_to(subscribe_builder_actions(b), SocketOption::Subscribe) == match b.subscribe {
            Some(v) => seq![ActionView::SetOption(SocketOption::Subscribe, str_bytes(v@))],
            None => Seq::<ActionView>::empty(),
        },
        other_actions(subscribe_builder_actions(b)) == Seq::<ActionView>::empty(),
{
    let e = Seq::<ActionView>::empty();
    lemma_subscribe_builder_pick(b, SocketOption::Conflate);
    lemma_pick_segment(set_bool_if(b.conflate, SocketOption::Conflate), SocketOption::Conflate);
    lemma_pick_segment(set_bool_if(b.invert_matching, SocketOption::InvertMatching), SocketOption::Conflate);
    lemma_pick_segment(set_str_if(b.subscribe, SocketOption::Subscribe), SocketOption::Conflate);
    if let Some(sb) = b.socket_builder {
        lemma_socket_builder_writes_only(sb, SocketOption::Conflate);
    }
    assert(writes_to(subscribe_builder_actions(b), SocketOption::Conflate) =~= match b.conflate {
            Some(v) => seq![ActionView::SetOption(SocketOption::Conflate, bool_bytes(v))],
            None => Seq::<ActionView>::empty(),
        });
    lemma_subscribe_builder_pick(b, SocketOption::InvertMatching);
    lemma_pick_segment(set_bool_if(b.conflate, SocketOption::Conflate), SocketOption::InvertMatching);
    lemma_pick_segment(set_bool_if(b.invert_matching, SocketOption::InvertMatching), SocketOption::InvertMatching);
    lemma_pick_segment(set_str_if(b.subscribe, SocketOption::Subscribe), SocketOption::InvertMatching);
    if let Some(sb) = b.socket_builder {
        lemma_socket_builder_writes_only(sb, SocketOption::InvertMatching);
    }
    assert(writes_to(subscribe_builder_actions(b), SocketOption::InvertMatching) =~= match b.invert_matching {
            Some(v) => seq![ActionView::SetOption(SocketOption::InvertMatching, bool_bytes(v))],
            None => Seq::<ActionView>::empty(),
        });
    lemma_subscribe_builder_pick(b, SocketOption::Subscribe);
    lemma_pick_segment(set_bool_if(b.conflate, SocketOption::Conflate), SocketOption::Subscribe);
    lemma_pick_segment(set_bool_if(b.invert_matching, SocketOption::InvertMatching), SocketOption::Subscribe);
    lemma_pick_segment(set_str_if(b.subscribe, SocketOption::Subscribe), SocketOption::Subscribe);
    if let Some(sb) = b.socket_builder {
        lemma_socket_builder_writes_only(sb, SocketOption::Subscribe);
    }
    assert(writes_to(subscribe_builder_actions(b), SocketOption::Subscribe) =~= match b.subscribe {
            Some(v) => seq![ActionView::SetOption(SocketOption::Subscribe, str_bytes(v@))],
            None => Seq::<ActionView>::empty(),
        });
    lemma_subscribe_builder_pick(b, SocketOption::Linger);
    lemma_pick_segment(set_bool_if(b.conflate, SocketOption::Conflate), SocketOption::Linger);
    lemma_pick_segment(set_bool_if(b.invert_matching, SocketOption::InvertMatching), SocketOption::Linger);
    lemma_pick_segment(set_str_if(b.subscribe, SocketOption::Subscribe), SocketOption::Linger);
    if let Some(sb) = b.socket_builder {
        lemma_socket_builder_writes_only(sb, SocketOption::Linger);
    }
    assert(other_actions(subscribe_builder_actions(b)) =~= e);
}

} // verus!
