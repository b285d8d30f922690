//! 0MQ messages.
//!
//! A [`Message`] holds the frame data of one 0MQ message together with the properties that
//! 0MQ attaches to it: whether more parts follow, the routing id and the group.
//! A [`MultipartMessage`] is the ordered sequence of the parts of one multipart message.
use std::collections::VecDeque;

use vstd::prelude::*;
use vstd::std_specs::iter::IteratorSpec;
use vstd::string::StringSliceAdditionalSpecFns;
use vstd::utf8::*;

use crate::error::{ZmqError, ZmqResult};
use crate::sealed;
use crate::socket::flags::SendFlags;
use crate::socket::{actions_view, ActionView, Socket, SocketAction};

verus! {

broadcast use {vstd::utf8::encode_utf8_valid_utf8, vstd::utf8::encode_utf8_decode_utf8};

/// The longest group name that 0MQ accepts, in bytes.
pub const ZMQ_GROUP_MAX_LENGTH: usize = 255;

/// A single 0MQ message.
#[derive(Debug, PartialEq, Eq, Hash)]
pub struct Message {
    data: Vec<u8>,
    more: bool,
    routing_id: u32,
    group: Vec<u8>,
}

/// The text that `String::from_utf8_lossy` makes of `bytes`: the text they encode, with
/// each invalid sequence replaced by U+FFFD. It depends on the bytes alone.
pub uninterp spec fn utf8_lossy(bytes: Seq<u8>) -> Seq<char>;

/// `String::from_utf8_lossy`: the contract claims that the result is [`utf8_lossy`] of the
/// bytes, and that for valid UTF-8 this is the decoded text, as the documentation says.
#[verifier::external_body]
fn string_from_utf8_lossy(bytes: &[u8]) -> (r: String)
    ensures
        r@ == utf8_lossy(bytes@),
        valid_utf8(bytes@) ==> r@ == decode_utf8(bytes@),
{
    String::from_utf8_lossy(bytes).into_owned()
}

impl View for Message {
    type V = (Seq<u8>, bool, u32, Seq<u8>);

    /// The data, the more flag, the routing id and the group bytes.
    open spec fn view(&self) -> (Seq<u8>, bool, u32, Seq<u8>) {
        (self.data(), self.more(), self.spec_routing_id(), self.group_bytes())
    }
}

impl Message {
    /// The frame data.
    pub closed spec fn data(&self) -> Seq<u8> {
        self.data@
    }

    /// Whether more parts of a multipart message follow this one.
    pub closed spec fn more(&self) -> bool {
        self.more
    }

    /// The routing id; 0 stands for none.
    pub closed spec fn spec_routing_id(&self) -> u32 {
        self.routing_id
    }

    /// The group, as the UTF-8 bytes 0MQ keeps; empty stands for none.
    pub closed spec fn group_bytes(&self) -> Seq<u8> {
        self.group@
    }

    /// The invariant of a message: the group is the UTF-8 encoding of some string.
    #[verifier::type_invariant]
    pub closed spec fn wf(&self) -> bool {
        valid_utf8(self.group@)
    }

    /// Creates an empty message.
    pub fn new() -> (r: Self)
        ensures
            r.data() == Seq::<u8>::empty(),
            !r.more(),
            r.spec_routing_id() == 0,
            r.group_bytes() == Seq::<u8>::empty(),
    {
        let r = Message { data: Vec::new(), more: false, routing_id: 0, group: Vec::new() };
        proof {
            assert(r.group@ =~= encode_utf8(Seq::<char>::empty()));
        }
        r
    }

    /// Creates a message of `len` zero bytes.
    pub fn with_size(len: usize) -> (r: ZmqResult<Self>)
        ensures
            r matches Ok(m) && m.data() == Seq::new(len as nat, |_i: int| 0u8)
                && !m.more() && m.spec_routing_id() == 0 && m.group_bytes() == Seq::<u8>::empty(),
    {
        let mut data: Vec<u8> = Vec::new();
        let mut i: usize = 0;
        while i < len
            invariant
                i <= len,
                data@ == Seq::new(i as nat, |_i: int| 0u8),
            decreases len - i,
        {
            data.push(0);
            i = i + 1;
            proof {
                assert(data@ =~= Seq::new(i as nat, |_i: int| 0u8));
            }
        }
        let mut r = Message::new();
        r.data = data;
        Ok(r)
    }

    /// Creates a message that holds a copy of `bytes`.
    pub fn from_bytes(bytes: &[u8]) -> (r: Self)
        ensures
            r.data() == bytes@,
            !r.more(),
            r.spec_routing_id() == 0,
            r.group_bytes() == Seq::<u8>::empty(),
    {
        let mut r = Message::new();
        r.data = vstd::slice::slice_to_vec(bytes);
        r
    }

    /// Creates a message as it was received: its data, whether more parts follow, its routing
    /// id (0 for none) and its group (empty for none).
    pub fn from_parts(data: Vec<u8>, more: bool, routing_id: u32, group: &str) -> (r: Self)
        ensures
            r.data() == data@,
            r.more() == more,
            r.spec_routing_id() == routing_id,
            r.group_bytes() == encode_utf8(group@),
    {
        Message {
            data,
            more,
            routing_id,
            group: vstd::slice::slice_to_vec(group.as_bytes()),
        }
    }

    /// A copy of the frame data.
    pub fn bytes(&self) -> (r: Vec<u8>)
        ensures
            r@ == self.data(),
    {
        vstd::slice::slice_to_vec(self.data.as_slice())
    }

    /// The size of the frame data in bytes.
    pub fn len(&self) -> (r: usize)
        ensures
            r == self.data().len(),
    {
        self.data.len()
    }

    /// Whether the frame data is empty.
    pub fn is_empty(&self) -> (r: bool)
        ensures
            r == (self.data().len() == 0),
    {
        self.len() == 0
    }

    /// Whether more parts of a multipart message follow this one.
    pub fn get_more(&self) -> (r: bool)
        ensures
            r == self.more(),
    {
        self.more
    }

    /// Marks whether more parts of a multipart message follow this one.
    pub fn set_more(&mut self, more: bool)
        ensures
            final(self).more() == more,
            final(self).data() == old(self).data(),
            final(self).spec_routing_id() == old(self).spec_routing_id(),
            final(self).group_bytes() == old(self).group_bytes(),
    {
        proof {
            use_type_invariant(&*self);
        }
        self.more = more;
    }

    /// Sets the routing id. 0MQ refuses the routing id 0 with `InvalidArgument`.
    pub fn set_routing_id(&mut self, value: u32) -> (r: ZmqResult<()>)
        ensures
            r is Err <==> value == 0,
            r is Err ==> r == Err::<(), ZmqError>(ZmqError::InvalidArgument) && final(self)@
                == old(self)@,
            r is Ok ==> final(self).spec_routing_id() == value,
            final(self).data() == old(self).data(),
            final(self).more() == old(self).more(),
            final(self).group_bytes() == old(self).group_bytes(),
    {
        proof {
            use_type_invariant(&*self);
        }
        if value == 0 {
            Err(ZmqError::InvalidArgument)
        } else {
            self.routing_id = value;
            Ok(())
        }
    }

    /// The routing id, `None` where none was set.
    pub fn routing_id(&self) -> (r: Option<u32>)
        ensures
            r == (if self.spec_routing_id() == 0 {
                None
            } else {
                Some(self.spec_routing_id())
            }),
    {
        if self.routing_id == 0 {
            None
        } else {
            Some(self.routing_id)
        }
    }

    /// Sets the group. A group holds at most [`ZMQ_GROUP_MAX_LENGTH`] bytes and no NUL byte;
    /// other values are refused with `InvalidArgument`.
    pub fn set_group(&mut self, value: &str) -> (r: ZmqResult<()>)
        ensures
            r is Ok <==> (encode_utf8(value@).len() <= ZMQ_GROUP_MAX_LENGTH && !encode_utf8(
                value@,
            ).contains(0u8)),
            r is Err ==> r == Err::<(), ZmqError>(ZmqError::InvalidArgument) && final(self)@
                == old(self)@,
            r is Ok ==> final(self).group_bytes() == encode_utf8(value@),
            final(self).data() == old(self).data(),
            final(self).more() == old(self).more(),
            final(self).spec_routing_id() == old(self).spec_routing_id(),
    {
        proof {
            use_type_invariant(&*self);
        }
        let bytes = value.as_bytes();
        if bytes.len() > ZMQ_GROUP_MAX_LENGTH {
            return Err(ZmqError::InvalidArgument);
        }
        let mut i: usize = 0;
        while i < bytes.len()
            invariant
                i <= bytes@.len(),
                bytes@ == encode_utf8(value@),
                forall|j: int| 0 <= j < i ==> bytes@[j] != 0u8,
                self.wf(),
            decreases bytes@.len() - i,
        {
            if bytes[i] == 0 {
                proof {
                    assert(bytes@.contains(0u8));
                }
                return Err(ZmqError::InvalidArgument);
            }
            i = i + 1;
        }
        self.group = vstd::slice::slice_to_vec(bytes);
        Ok(())
    }

    /// The group, `None` where none was set.
    pub fn group(&self) -> (r: Option<String>)
        ensures
            self.group_bytes().len() == 0 ==> r is None,
            self.group_bytes().len() > 0 ==> (r matches Some(g) && encode_utf8(g@)
                == self.group_bytes() && g@ == decode_utf8(self.group_bytes())),
    {
        proof {
            use_type_invariant(self);
        }
        if self.group.len() == 0 {
            None
        } else {
            let g = string_from_utf8_lossy(self.group.as_slice());
            proof {
                vstd::utf8::decode_utf8_encode_utf8(self.group@);
            }
            Some(g)
        }
    }

    /// The frame data as text; where it is not UTF-8, invalid sequences are replaced.
    pub fn to_string(&self) -> (r: String)
        ensures
            r@ == utf8_lossy(self.data()),
            valid_utf8(self.data()) ==> r@ == decode_utf8(self.data()),
    {
        string_from_utf8_lossy(self.data.as_slice())
    }

    /// A copy of this message with the same data and properties.
    pub fn duplicate(&self) -> (r: Self)
        ensures
            r@ == self@,
    {
        proof {
            use_type_invariant(self);
        }
        let group = vstd::slice::slice_to_vec(self.group.as_slice());
        proof {
            assert(group@ =~= self.group@);
        }
        let r = Message {
            data: vstd::slice::slice_to_vec(self.data.as_slice()),
            more: self.more,
            routing_id: self.routing_id,
            group,
        };
        proof {
            assert(r.data@ =~= self.data@);
            assert(r.group@ =~= self.group@);
        }
        r
    }
}

impl Clone for Message {
    fn clone(&self) -> (r: Self)
        ensures
            r@ == self@,
    {
        self.duplicate()
    }
}

impl Default for Message {
    fn default() -> (r: Self)
        ensures
            r.data() == Seq::<u8>::empty(),
            !r.more(),
            r.spec_routing_id() == 0,
            r.group_bytes() == Seq::<u8>::empty(),
    {
        Message::new()
    }
}

impl vstd::std_specs::convert::FromSpecImpl<&str> for Message {
    open spec fn obeys_from_spec() -> bool {
        false
    }

    open spec fn from_spec(v: &str) -> Message {
        arbitrary()
    }
}

impl From<&str> for Message {
    /// A message that holds the UTF-8 bytes of `value`.
    fn from(value: &str) -> (r: Self)
        ensures
            r@ == (value.spec_bytes(), false, 0u32, Seq::<u8>::empty()),
    {
        Message::from_bytes(value.as_bytes())
    }
}

impl vstd::std_specs::convert::FromSpecImpl<Vec<u8>> for Message {
    open spec fn obeys_from_spec() -> bool {
        false
    }

    open spec fn from_spec(v: Vec<u8>) -> Message {
        arbitrary()
    }
}

impl From<Vec<u8>> for Message {
    /// A message that holds `value`.
    fn from(value: Vec<u8>) -> (r: Self)
        ensures
            r@ == (value@, false, 0u32, Seq::<u8>::empty()),
    {
        Message::from_bytes(value.as_slice())
    }
}

impl vstd::std_specs::convert::FromSpecImpl<&[u8]> for Message {
    open spec fn obeys_from_spec() -> bool {
        false
    }

    open spec fn from_spec(v: &[u8]) -> Message {
        arbitrary()
    }
}

impl From<&[u8]> for Message {
    /// A message that holds a copy of `value`.
    fn from(value: &[u8]) -> (r: Self)
        ensures
            r@ == (value@, false, 0u32, Seq::<u8>::empty()),
    {
        Message::from_bytes(value)
    }
}

impl vstd::std_specs::convert::FromSpecImpl<String> for Message {
    open spec fn obeys_from_spec() -> bool {
        false
    }

    open spec fn from_spec(v: String) -> Message {
        arbitrary()
    }
}

impl From<String> for Message {
    /// A message that holds the UTF-8 bytes of `value`.
    fn from(value: String) -> (r: Self)
        ensures
            r@ == (encode_utf8(value@), false, 0u32, Seq::<u8>::empty()),
    {
        Message::from_bytes(value.as_str().as_bytes())
    }
}

/// The parts of one multipart message, in order.
#[derive(Debug, PartialEq, Eq)]
pub struct MultipartMessage {
    inner: VecDeque<Message>,
}

/// The flag bits a part of a multipart message is sent with: every part but the last one
/// with the given flags and `SEND_MORE`, the last one with the given flags alone.
pub open spec fn send_bits_of_part(flags: SendFlags, index: int, count: int) -> i32 {
    if index < count - 1 {
        flags.spec_bits() | 2
    } else {
        flags.spec_bits()
    }
}

/// The framing of a multipart message: sent with flags that do not themselves ask for more
/// parts, every part but the last one carries `SEND_MORE` and the last one does not, so a
/// receiver that collects parts until one comes without it gets exactly the message back.
pub proof fn lemma_multipart_framing(flags: SendFlags, index: int, count: int)
    requires
        flags.spec_bits() & 2 == 0,
        0 <= index < count,
    ensures
        (send_bits_of_part(flags, index, count) & 2 != 0) <==> index < count - 1,
{
    let b = flags.spec_bits();
    assert((b | 2) & 2 != 0) by (bit_vector);
}

/// The parts a receiver holds after taking the incoming messages `incoming` one by one with
/// [`MultipartMessage::receive_part`], starting from `parts` and stopping at the first one
/// that says no more parts follow.
pub open spec fn gathered(parts: Seq<Message>, incoming: Seq<Message>) -> Seq<Message>
    decreases incoming.len(),
{
    if incoming.len() == 0 {
        parts
    } else if incoming[0].more() {
        gathered(parts.push(incoming[0]), incoming.drop_first())
    } else {
        parts.push(incoming[0])
    }
}

/// Receiving a multipart message: where every part but the last is marked `more` and the last
/// is not, the parts gathered from an empty message are exactly those parts, in order,
/// whatever arrives after them.
pub proof fn lemma_receive_multipart(message: Seq<Message>, rest: Seq<Message>)
    requires
        message.len() > 0,
        forall|i: int| 0 <= i < message.len() - 1 ==> #[trigger] message[i].more(),
        !message.last().more(),
    ensures
        gathered(Seq::empty(), message + rest) == message,
{
    lemma_gathered_from(Seq::empty(), message, rest);
    assert(Seq::<Message>::empty() + message =~= message);
}

proof fn lemma_gathered_from(parts: Seq<Message>, message: Seq<Message>, rest: Seq<Message>)
    requires
        message.len() > 0,
        forall|i: int| 0 <= i < message.len() - 1 ==> #[trigger] message[i].more(),
        !message.last().more(),
    ensures
        gathered(parts, message + rest) == parts + message,
    decreases message.len(),
{
    let incoming = message + rest;
    assert(incoming[0] == message[0]);
    if message.len() == 1 {
        assert(parts.push(message[0]) =~= parts + message);
    } else {
        assert(message[0].more());
        let tail = message.drop_first();
        assert forall|i: int| 0 <= i < tail.len() - 1 implies #[trigger] tail[i].more() by {
            assert(tail[i] == message[i + 1]);
        }
        assert(tail.last() == message.last());
        assert(incoming.drop_first() =~= tail + rest);
        lemma_gathered_from(parts.push(message[0]), tail, rest);
        assert(parts.push(message[0]) + tail =~= parts + message);
    }
}

/// Setting a message's group and reading it back gives the group that was set.
pub proof fn lemma_group_read_back(m: Message, group: Seq<char>)
    requires
        group.len() > 0,
        m.group_bytes() == encode_utf8(group),
    ensures
        m.group_bytes().len() > 0,
        decode_utf8(m.group_bytes()) == group,
{
    vstd::utf8::encode_utf8_decode_utf8(group);
    vstd::utf8::encode_utf8_first_scalar(group);
}

impl View for MultipartMessage {
    type V = Seq<Message>;

    closed spec fn view(&self) -> Seq<Message> {
        self.inner@
    }
}

impl MultipartMessage {
    /// Creates a multipart message with no parts.
    pub fn new() -> (r: Self)
        ensures
            r@ == Seq::<Message>::empty(),
    {
        MultipartMessage { inner: VecDeque::new() }
    }

    /// Creates a multipart message of the given parts, in order.
    pub fn from_messages(messages: Vec<Message>) -> (r: Self)
        ensures
            r@ == messages@,
    {
        let mut inner: VecDeque<Message> = VecDeque::new();
        let mut rest = messages;
        let ghost all = rest@;
        while rest.len() > 0
            invariant
                rest@.len() <= all.len(),
                rest@ == all.subrange(0, rest@.len() as int),
                inner@ == all.subrange(rest@.len() as int, all.len() as int),
            decreases rest@.len(),
        {
            let m = rest.pop().unwrap();
            inner.push_front(m);
            proof {
                assert(rest@ =~= all.subrange(0, rest@.len() as int));
                assert(inner@ =~= all.subrange(rest@.len() as int, all.len() as int));
            }
        }
        proof {
            assert(inner@ =~= all);
        }
        MultipartMessage { inner }
    }

    /// The parts, in order.
    pub fn into_inner(self) -> (r: VecDeque<Message>)
        ensures
            r@ == self@,
    {
        self.inner
    }

    /// Puts `msg` in place of the part at `index` and hands back the part it replaces; where
    /// there is no such part, nothing changes and `None` comes back.
    pub fn replace(&mut self, index: usize, msg: Message) -> (r: Option<Message>)
        ensures
            index < old(self)@.len() ==> r == Some(old(self)@[index as int]) && final(self)@
                == old(self)@.update(index as int, msg),
            index >= old(self)@.len() ==> r is None && final(self)@ == old(self)@,
    {
        if index >= self.inner.len() {
            return None;
        }
        let ghost before = self.inner@;
        let old_part = self.inner.remove(index);
        self.inner.insert(index, msg);
        proof {
            assert(self.inner@ =~= before.update(index as int, msg));
        }
        old_part
    }

    /// The part at `index`, if there is one.
    pub fn get(&self, index: usize) -> (r: Option<&Message>)
        ensures
            index < self@.len() ==> r == Some(&self@[index as int]),
            index >= self@.len() ==> r is None,
    {
        if index < self.inner.len() {
            Some(&self.inner[index])
        } else {
            None
        }
    }

    /// Removes and returns the first part, if there is one.
    pub fn pop_front(&mut self) -> (r: Option<Message>)
        ensures
            old(self)@.len() == 0 ==> r is None && final(self)@ == old(self)@,
            old(self)@.len() > 0 ==> r == Some(old(self)@[0]) && final(self)@ == old(
                self,
            )@.drop_first(),
    {
        let r = self.inner.pop_front();
        proof {
            if old(self)@.len() > 0 {
                assert(self@ =~= old(self)@.drop_first());
            }
        }
        r
    }

    /// Removes and returns the last part, if there is one.
    pub fn pop_back(&mut self) -> (r: Option<Message>)
        ensures
            old(self)@.len() == 0 ==> r is None && final(self)@ == old(self)@,
            old(self)@.len() > 0 ==> r == Some(old(self)@.last()) && final(self)@ == old(
                self,
            )@.drop_last(),
    {
        let r = self.inner.pop_back();
        proof {
            if old(self)@.len() > 0 {
                assert(self@ =~= old(self)@.drop_last());
            }
        }
        r
    }

    /// Puts `msg` in front of the parts.
    pub fn push_front(&mut self, msg: Message)
        ensures
            final(self)@ == seq![msg] + old(self)@,
    {
        self.inner.push_front(msg)
    }

    /// Puts `msg` after the parts.
    pub fn push_back(&mut self, msg: Message)
        ensures
            final(self)@ == old(self)@.push(msg),
    {
        self.inner.push_back(msg)
    }

    /// Whether there are no parts.
    pub fn is_empty(&self) -> (r: bool)
        ensures
            r == (self@.len() == 0),
    {
        self.inner.len() == 0
    }

    /// The number of parts.
    pub fn len(&self) -> (r: usize)
        ensures
            r == self@.len(),
    {
        self.inner.len()
    }

    /// Iterates over the parts, in order.
    pub fn iter(&self) -> (r: std::collections::vec_deque::Iter<'_, Message>)
        ensures
            r.remaining() == self@.as_ref(),
    {
        broadcast use vstd::std_specs::vecdeque::axiom_spec_iter;

        self.inner.iter()
    }

    /// Removes the parts from `start` up to but not including `end` and returns them, in order.
    pub fn drain(&mut self, start: usize, end: usize) -> (r: Vec<Message>)
        requires
            start <= end <= old(self)@.len(),
        ensures
            r@ == old(self)@.subrange(start as int, end as int),
            final(self)@ == old(self)@.subrange(0, start as int) + old(self)@.subrange(
                end as int,
                old(self)@.len() as int,
            ),
    {
        let mut r: Vec<Message> = Vec::new();
        let ghost all = self@;
        let mut k: usize = start;
        while k < end
            invariant
                start <= k <= end <= all.len(),
                r@ == all.subrange(start as int, k as int),
                self@ == all.subrange(0, start as int) + all.subrange(k as int, all.len() as int),
            decreases end - k,
        {
            let m = self.inner.remove(start);
            proof {
                assert(self.inner@.len() + 1 == all.len() - (k - start));
            }
            match m {
                Some(m) => {
                    proof {
                        assert(m == all[k as int]);
                    }
                    r.push(m);
                },
                None => {
                    proof {
                        assert(false);
                    }
                },
            }
            k = k + 1;
            proof {
                assert(r@ =~= all.subrange(start as int, k as int));
                assert(self@ =~= all.subrange(0, start as int) + all.subrange(
                    k as int,
                    all.len() as int,
                ));
            }
        }
        r
    }

    /// Adds a received part and tells whether more parts of the message follow it.
    pub fn receive_part(&mut self, msg: Message) -> (more: bool)
        ensures
            final(self)@ == old(self)@.push(msg),
            more == msg.more(),
    {
        let more = msg.get_more();
        self.inner.push_back(msg);
        more
    }

    /// The sends that hand this message to 0MQ: every part in order, each but the last one
    /// with `flags` and `SEND_MORE`, the last one with `flags` alone.
    pub fn send_parts(self, flags: SendFlags) -> (r: Vec<SocketAction>)
        ensures
            r@.len() == self@.len(),
            forall|i: int|
                0 <= i < r@.len() ==> (#[trigger] r@[i])@ == ActionView::Send(
                    self@[i]@,
                    send_bits_of_part(flags, i, r@.len() as int),
                ),
    {
        let mut parts = self.inner;
        let ghost all = parts@;
        let n = parts.len();
        let mut r: Vec<SocketAction> = Vec::new();
        let more = flags.union(SendFlags::SEND_MORE());
        while parts.len() > 0
            invariant
                n == all.len(),
                r@.len() + parts@.len() == n,
                parts@ == all.subrange(r@.len() as int, n as int),
                more.spec_bits() == flags.spec_bits() | 2,
                forall|i: int|
                    0 <= i < r@.len() ==> (#[trigger] r@[i])@ == ActionView::Send(
                        all[i]@,
                        send_bits_of_part(flags, i, n as int),
                    ),
            decreases parts@.len(),
        {
            let m = parts.pop_front().unwrap();
            let f = if parts.len() > 0 {
                more
            } else {
                flags
            };
            proof {
                assert(m == all[r@.len() as int]);
            }
            r.push(SocketAction::Send(m, f));
            proof {
                assert(parts@ =~= all.subrange(r@.len() as int, n as int));
            }
        }
        r
    }
}

/// A message that can be sent on a socket, single- or multipart.
pub trait Sendable<S: sealed::SocketType + sealed::SenderFlag>: Sized {
    /// The sends that hand this message to 0MQ on `socket`, with the send flags `flags`.
    fn send(self, socket: &Socket<S>, flags: i32) -> Vec<SocketAction>;
}

impl<S: sealed::SocketType + sealed::SenderFlag> Sendable<S> for Message {
    /// One send of this message with `flags`.
    fn send(self, socket: &Socket<S>, flags: i32) -> (r: Vec<SocketAction>)
        ensures
            actions_view(r@) == seq![ActionView::Send(self@, flags)],
    {
        let ghost v = self@;
        let r = vec![SocketAction::Send(self, SendFlags::from_bits_retain(flags))];
        proof {
            assert(actions_view(r@) =~= seq![ActionView::Send(v, flags)]);
        }
        r
    }
}

impl<S: sealed::SocketType + sealed::SenderFlag> Sendable<S> for MultipartMessage {
    /// One send per part, in order: every part but the last one with `flags` and
    /// `SEND_MORE`, the last one with `flags` alone.
    fn send(self, socket: &Socket<S>, flags: i32) -> (r: Vec<SocketAction>)
        ensures
            r@.len() == self@.len(),
            forall|i: int|
                0 <= i < r@.len() ==> (#[trigger] r@[i])@ == ActionView::Send(
                    self@[i]@,
                    if i < r@.len() - 1 { flags | 2 } else { flags },
                ),
    {
        self.send_parts(SendFlags::from_bits_retain(flags))
    }
}

impl IntoIterator for MultipartMessage {
    type Item = Message;

    type IntoIter = std::vec::IntoIter<Message>;

    /// An iterator that hands out the parts, in order.
    fn into_iter(self) -> (r: std::vec::IntoIter<Message>)
        ensures
            r.remaining() == self@,
    {
        broadcast use vstd::std_specs::vec::axiom_spec_into_iter;

        let mut parts = self.inner;
        let ghost all = parts@;
        let mut v: Vec<Message> = Vec::new();
        while parts.len() > 0
            invariant
                v@ + parts@ == all,
            decreases parts@.len(),
        {
            let ghost before = parts@;
            let m = parts.pop_front().unwrap();
            proof {
                assert(before =~= seq![m] + parts@);
            }
            v.push(m);
            proof {
                assert(v@ + parts@ =~= all);
            }
        }
        proof {
            assert(v@ =~= all);
        }
        v.into_iter()
    }
}

impl<'a> IntoIterator for &'a MultipartMessage {
    type Item = &'a Message;

    type IntoIter = std::collections::vec_deque::Iter<'a, Message>;

    /// An iterator over the parts, in order.
    fn into_iter(self) -> (r: std::collections::vec_deque::Iter<'a, Message>)
        ensures
            r.remaining() == self@.as_ref(),
    {
        broadcast use vstd::std_specs::vecdeque::axiom_spec_iter;

        self.inner.iter()
    }
}

impl vstd::std_specs::convert::FromSpecImpl<Message> for MultipartMessage {
    open spec fn obeys_from_spec() -> bool {
        false
    }

    open spec fn from_spec(v: Message) -> MultipartMessage {
        arbitrary()
    }
}

impl From<Message> for MultipartMessage {
    /// The multipart message of the one part `msg`.
    fn from(msg: Message) -> (r: Self)
        ensures
            r@ == seq![msg],
    {
        let mut multipart = MultipartMessage::new();
        multipart.push_back(msg);
        multipart
    }
}

impl vstd::std_specs::convert::FromSpecImpl<Vec<Message>> for MultipartMessage {
    open spec fn obeys_from_spec() -> bool {
        false
    }

    open spec fn from_spec(v: Vec<Message>) -> MultipartMessage {
        arbitrary()
    }
}

impl From<Vec<Message>> for MultipartMessage {
    /// The multipart message of the parts `v`, in order.
    fn from(v: Vec<Message>) -> (r: Self)
        ensures
            r@ == v@,
    {
        MultipartMessage::from_messages(v)
    }
}

impl Default for MultipartMessage {
    fn default() -> (r: Self)
        ensures
            r@ == Seq::<Message>::empty(),
    {
        MultipartMessage::new()
    }
}

} // verus!
