//! Pull sockets.
use vstd::prelude::*;

use super::builder::{lemma_pick_add, lemma_pick_segment, lemma_socket_builder_writes_only, other_actions, writes_to, push_bool, push_socket_builder, push_str, set_bool_if, set_str_if, socket_builder_actions_if, SocketBuilder};
use super::{actions_view, ActionView};

use super::codec::{bool_bytes, i32_bytes, str_bytes};
use super::{read_bool, read_i32, read_string, string_result_is, writes, Socket, SocketAction, SocketOption, SocketType, Sockopt};
use crate::error::{ZmqError, ZmqResult};
use crate::sealed;

verus! {

/// Kind of the receiving sockets of the pipeline pattern.
pub struct Pull {}

/// A Pull socket.
pub type PullSocket = Socket<Pull>;

impl sealed::SocketType for Pull {
    open spec fn spec_socket_type() -> SocketType {
        SocketType::Pull
    }

    fn raw_socket_type() -> (r: SocketType) {
        SocketType::Pull
    }
}

impl sealed::ReceiverFlag for Pull {}

impl Socket<Pull> {
    /// Sets whether only the last message is kept (`Conflate`).
    pub fn set_conflate(&self, value: bool) -> (r: Sockopt)
        ensures
            writes(r, SocketOption::Conflate, bool_bytes(value)),
    {
        self.set_sockopt_bool(SocketOption::Conflate, value)
    }
}

/// Builder for [`PullSocket`]: each setting that was given a value is applied, in the order
/// of the fields; the others keep 0MQ's defaults.
#[derive(Debug, Clone, PartialEq, Eq, Hash)]
pub struct PullBuilder {
    /// The common socket options.
    pub socket_builder: Option<SocketBuilder>,
    /// Whether only the last message is kept.
    pub conflate: Option<bool>,
}

/// What applying a [`PullBuilder`] does to a socket, in the order of the fields.
pub open spec fn pull_builder_actions(b: PullBuilder) -> Seq<ActionView> {
    socket_builder_actions_if(b.socket_builder)
        + set_bool_if(b.conflate, SocketOption::Conflate)
}

impl Default for PullBuilder {
    fn default() -> (r: Self)
        ensures
            r.socket_builder is None,
            r.conflate is None,
    {
        PullBuilder {
            socket_builder: None,
            conflate: None,
        }
    }
}

impl PullBuilder {
    /// Gives `socket_builder` a value.
    pub fn socket_builder(self, value: SocketBuilder) -> (r: Self)
        ensures
            r == (PullBuilder { socket_builder: Some(value), ..self }),
    {
        PullBuilder { socket_builder: Some(value), ..self }
    }

    /// Gives `conflate` a value.
    pub fn conflate(self, value: bool) -> (r: Self)
        ensures
            r == (PullBuilder { conflate: Some(value), ..self }),
    {
        PullBuilder { conflate: Some(value), ..self }
    }

    /// The actions that apply this builder to `socket`, in the order of the fields.
    pub fn apply(self, socket: &PullSocket) -> (r: Vec<SocketAction>)
        ensures
            actions_view(r@) == pull_builder_actions(self),
    {
        let mut r: Vec<SocketAction> = Vec::new();
        proof {
            assert(actions_view(r@) =~= Seq::<ActionView>::empty());
        }
        push_socket_builder(&mut r, socket, self.socket_builder);
        proof {
            assert(Seq::<ActionView>::empty() + socket_builder_actions_if(self.socket_builder)
                =~= socket_builder_actions_if(self.socket_builder));
        }
        push_bool(&mut r, socket, self.conflate, SocketOption::Conflate);
        r
    }

    /// Creates a socket together with the actions that apply this builder to it.
    pub fn build_from_context(self) -> (r: (PullSocket, Vec<SocketAction>))
        ensures
            actions_view(r.1@) == pull_builder_actions(self),
    {
        let socket = PullSocket::from_context();
        let actions = self.apply(&socket);
        (socket, actions)
    }
}

proof fn lemma_pull_builder_pick(b: PullBuilder, option: SocketOption)
    ensures
        writes_to(pull_builder_actions(b), option) == writes_to(socket_builder_actions_if(b.socket_builder), option)
            + writes_to(set_bool_if(b.conflate, SocketOption::Conflate), option),
        other_actions(pull_builder_actions(b)) == other_actions(socket_builder_actions_if(b.socket_builder))
            + other_actions(set_bool_if(b.conflate, SocketOption::Conflate)),
{
    let s0 = socket_builder_actions_if(b.socket_builder);
    let s1 = set_bool_if(b.conflate, SocketOption::Conflate);
    let p0 = s0;
    lemma_pick_add(p0, s1, option);
    let p1 = p0 + s1;
    assert(p1 == pull_builder_actions(b));
}

/// Applying a [`PullBuilder`] writes each setting that was given a value to the option of the
/// same name, once, with the value's bytes, and a setting without a value not at all; it
/// does nothing but write options.
pub proof fn lemma_pull_builder_writes(b: PullBuilder)
    ensures
        writes_to(pull_builder_actions(b), SocketOption::Conflate) == match b.conflate {
            Some(v) => seq![ActionView::SetOption(SocketOption::Conflate, bool_bytes(v))],
            None => Seq::<ActionView>::empty(),
        },
        other_actions(pull_builder_actions(b)) == Seq::<ActionView>::empty(),
{
    let e = Seq::<ActionView>::empty();
    lemma_pull_builder_pick(b, SocketOption::Conflate);
    lemma_pick_segment(set_bool_if(b.conflate, SocketOption::Conflate), SocketOption::Conflate);
    if let Some(sb) = b.socket_builder {
        lemma_socket_builder_writes_only(sb, SocketOption::Conflate);
    }
    assert(writes_to(pull_builder_actions(b), SocketOption::Conflate) =~= match b.conflate {
            Some(v) => seq![ActionView::SetOption(SocketOption::Conflate, bool_bytes(v))],
            None => Seq::<ActionView>::empty(),
        });
    lemma_pull_builder_pick(b, SocketOption::Linger);
    lemma_pick_segment(set_bool_if(b.conflate, SocketOption::Conflate), SocketOption::Linger);
    if let Some(sb) = b.socket_builder {
        lemma_socket_builder_writes_only(sb, SocketOption::Linger);
    }
    assert(other_actions(pull_builder_actions(b)) =~= e);
}

} // verus!
