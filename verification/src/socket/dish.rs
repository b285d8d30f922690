//! Dish sockets.
use vstd::prelude::*;

use super::builder::{lemma_pick_add, lemma_pick_segment, lemma_socket_builder_writes_only, other_actions, writes_to, push_bool, push_socket_builder, push_str, set_bool_if, set_str_if, socket_builder_actions_if, SocketBuilder};
use super::{actions_view, ActionView};

use super::codec::{bool_bytes, i32_bytes, str_bytes};
use super::{read_bool, read_i32, read_string, string_result_is, writes, Socket, SocketAction, SocketOption, SocketType, Sockopt};
use crate::error::{ZmqError, ZmqResult};
use crate::sealed;

verus! {

/// Kind of the receiving sockets of the radio-dish pattern.
pub struct Dish {}

/// A Dish socket.
pub type DishSocket = Socket<Dish>;

impl sealed::SocketType for Dish {
    open spec fn spec_socket_type() -> SocketType {
        SocketType::Dish
    }

    fn raw_socket_type() -> (r: SocketType) {
        SocketType::Dish
    }
}

impl sealed::ReceiverFlag for Dish {}

impl Socket<Dish> {
    /// Joins a group.
    pub fn join(&self, group: &str) -> (r: SocketAction)
        ensures
            r matches SocketAction::Join(g) && g@ == group@,
    {
        SocketAction::Join(group.to_owned())
    }

    /// Leaves a group.
    pub fn leave(&self, group: &str) -> (r: SocketAction)
        ensures
            r matches SocketAction::Leave(g) && g@ == group@,
    {
        SocketAction::Leave(group.to_owned())
    }
}

/// Builder for [`DishSocket`]: each setting that was given a value is applied, in the order
/// of the fields; the others keep 0MQ's defaults.
#[derive(Debug, Clone, PartialEq, Eq, Hash)]
pub struct DishBuilder {
    /// The common socket options.
    pub socket_builder: Option<SocketBuilder>,
    /// A group to join.
    pub join: Option<String>,
}

/// What applying a [`DishBuilder`] does to a socket, in the order of the fields.
pub open spec fn dish_builder_actions(b: DishBuilder) -> Seq<ActionView> {
    socket_builder_actions_if(b.socket_builder)
        + match b.join {
            Some(g) => seq![ActionView::Join(g@)],
            None => Seq::empty(),
        }
}

impl Default for DishBuilder {
    fn default() -> (r: Self)
        ensures
            r.socket_builder is None,
            r.join is None,
    {
        DishBuilder {
            socket_builder: None,
            join: None,
        }
    }
}

impl DishBuilder {
    /// Gives `socket_builder` a value.
    pub fn socket_builder(self, value: SocketBuilder) -> (r: Self)
        ensures
            r == (DishBuilder { socket_builder: Some(value), ..self }),
    {
        DishBuilder { socket_builder: Some(value), ..self }
    }

    /// Gives `join` a value.
    pub fn join(self, value: &str) -> (r: Self)
        ensures
            r == (DishBuilder { join: r.join, ..self }),
            r.join matches Some(v) && v@ == value@,
    {
        DishBuilder { join: Some(value.to_owned()), ..self }
    }

    /// The actions that apply this builder to `socket`, in the order of the fields.
    pub fn apply(self, socket: &DishSocket) -> (r: Vec<SocketAction>)
        ensures
            actions_view(r@) == dish_builder_actions(self),
    {
        let mut r: Vec<SocketAction> = Vec::new();
        proof {
            assert(actions_view(r@) =~= Seq::<ActionView>::empty());
        }
        push_socket_builder(&mut r, socket, self.socket_builder);
        proof {
            assert(Seq::<ActionView>::empty() + socket_builder_actions_if(self.socket_builder)
                =~= socket_builder_actions_if(self.socket_builder));
        }
        let ghost before_join = actions_view(r@);
        if let Some(g) = self.join {
            r.push(socket.join(g.as_str()));
        }
        proof {
            assert(actions_view(r@) =~= before_join + match self.join {
            Some(g) => seq![ActionView::Join(g@)],
            None => Seq::empty(),
        });
        }
        r
    }

    /// Creates a socket together with the actions that apply this builder to it.
    pub fn build_from_context(self) -> (r: (DishSocket, Vec<SocketAction>))
        ensures
            actions_view(r.1@) == dish_builder_actions(self),
    {
        let socket = DishSocket::from_context();
        let actions = self.apply(&socket);
        (socket, actions)
    }
}

proof fn lemma_dish_builder_pick(b: DishBuilder, option: SocketOption)
    ensures
        writes_to(dish_builder_actions(b), option) == writes_to(socket_builder_actions_if(b.socket_builder), option)
            + writes_to(match b.join {
            Some(g) => seq![ActionView::Join(g@)],
            None => Seq::empty(),
        }, option),
        other_actions(dish_builder_actions(b)) == other_actions(socket_builder_actions_if(b.socket_builder))
            + other_actions(match b.join {
            Some(g) => seq![ActionView::Join(g@)],
            None => Seq::empty(),
        }),
{
    let s0 = socket_builder_actions_if(b.socket_builder);
    let s1 = match b.join {
            Some(g) => seq![ActionView::Join(g@)],
            None => Seq::empty(),
        };
    let p0 = s0;
    lemma_pick_add(p0, s1, option);
    let p1 = p0 + s1;
    assert(p1 == dish_builder_actions(b));
}

/// Applying a [`DishBuilder`] writes each setting that was given a value to the option of the
/// same name, once, with the value's bytes, and a setting without a value not at all; its only
/// other action is the one its group field asks for, where it has a value.
pub proof fn lemma_dish_builder_writes(b: DishBuilder)
    ensures
        other_actions(dish_builder_actions(b)) == match b.join {
            Some(g) => seq![ActionView::Join(g@)],
            None => Seq::<ActionView>::empty(),
        },
{
    lemma_dish_builder_pick(b, SocketOption::Linger);
    lemma_pick_segment(match b.join {
            Some(g) => seq![ActionView::Join(g@)],
            None => Seq::empty(),
        }, SocketOption::Linger);
    if let Some(sb) = b.socket_builder {
        lemma_socket_builder_writes_only(sb, SocketOption::Linger);
    }
    assert(other_actions(dish_builder_actions(b)) =~= match b.join {
            Some(g) => seq![ActionView::Join(g@)],
            None => Seq::<ActionView>::empty(),
        });
}

} // verus!
