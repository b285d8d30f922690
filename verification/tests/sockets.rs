use arzmq::message::{Message, MultipartMessage, Sendable};
use arzmq::socket::{
    DishSocket, PairSocket, PeerSocket, PullSocket, RouterNotify, RouterSocket, SendFlags,
    SocketAction, SocketOption, SocketType, Sockopt, SubscribeSocket, XSubscribeSocket,
};

fn with_nul(w: &Sockopt) -> Sockopt {
    let mut value = w.value.clone();
    value.push(0);
    Sockopt { option: w.option, value }
}

fn reply(option: SocketOption, value: &[u8]) -> Sockopt {
    Sockopt { option, value: value.to_vec() }
}

#[test]
fn router_set_routing_id_sets_routing_id() {
    let socket = RouterSocket::from_context();
    let w = socket.set_routing_id("asdf");
    assert_eq!(w.option, SocketOption::RoutingId);
    assert_eq!(socket.routing_id(&with_nul(&w)), Ok("asdf".to_string()));
}

#[test]
fn set_connect_routing_id_sets_connect_routing_id() {
    let socket = RouterSocket::from_context();
    assert_eq!(
        socket.set_connect_routing_id("asdf"),
        reply(SocketOption::ConnectRoutingId, b"asdf")
    );
}

#[test]
fn set_probe_router_sets_probe_router() {
    let socket = RouterSocket::from_context();
    assert_eq!(socket.set_probe_router(true), reply(SocketOption::ProbeRouter, &1i32.to_le_bytes()));
}

#[test]
fn set_router_handover_sets_router_handover() {
    let socket = RouterSocket::from_context();
    assert_eq!(
        socket.set_router_handover(true),
        reply(SocketOption::RouterHandover, &1i32.to_le_bytes())
    );
}

#[test]
fn set_router_mandatory_sets_router_mandatory() {
    let socket = RouterSocket::from_context();
    assert_eq!(
        socket.set_router_mandatory(true),
        reply(SocketOption::RouterMandatory, &1i32.to_le_bytes())
    );
}

#[test]
fn set_disconnect_message_sets_disconnect_message() {
    let socket = RouterSocket::from_context();
    assert_eq!(
        socket.set_disconnect_message("asdf"),
        reply(SocketOption::DisconnectMessage, b"asdf")
    );
}

#[test]
fn set_hello_message_sets_hello_message() {
    let socket = RouterSocket::from_context();
    assert_eq!(socket.set_hello_message("asdf"), reply(SocketOption::HelloMessage, b"asdf"));
}

#[test]
fn set_router_notify_sets_router_notify() {
    let socket = RouterSocket::from_context();
    let notify = RouterNotify::NotifyConnect().union(RouterNotify::NotifyDisconnect());
    let w = socket.set_router_notify(notify);
    assert_eq!(socket.router_notify(&w), Ok(notify));
}

#[test]
fn set_hello_message_set_hello_message() {
    let socket = PeerSocket::from_context();
    assert_eq!(socket.set_hello_message("hello"), reply(SocketOption::HelloMessage, b"hello"));
}

#[test]
fn set_hiccup_message_set_hiccup_message() {
    let socket = PeerSocket::from_context();
    assert_eq!(socket.set_hiccup_message("hiccup"), reply(SocketOption::HiccupMessage, b"hiccup"));
}

#[test]
fn set_disconnect_message_set_disconnect_message() {
    let socket = PeerSocket::from_context();
    assert_eq!(
        socket.set_disconnect_message("disconnect"),
        reply(SocketOption::DisconnectMessage, b"disconnect")
    );
}

#[test]
fn connect_peer_connects_to_endpoint() {
    let socket = PeerSocket::from_context();
    assert_eq!(
        socket.connect_peer("inproc://peer-peer-test"),
        SocketAction::ConnectPeer("inproc://peer-peer-test".to_string())
    );
}

#[test]
fn subscribe_set_conflate_sets_conflate() {
    let socket = SubscribeSocket::from_context();
    let w = socket.set_conflate(true);
    assert_eq!(socket.get_sockopt_bool(SocketOption::Conflate, &w), Ok(true));
}

#[test]
fn set_invert_matching_sets_invert_matching() {
    let socket = SubscribeSocket::from_context();
    let w = socket.set_invert_matching(true);
    assert_eq!(socket.invert_matching(&w), Ok(true));
}

#[test]
fn subscribe_sets_subscribe() {
    let socket = SubscribeSocket::from_context();
    assert_eq!(socket.subscribe(b"topic"), reply(SocketOption::Subscribe, b"topic"));
}

#[test]
fn unsubscribe_sets_unsubscribe() {
    let socket = SubscribeSocket::from_context();
    assert_eq!(socket.subscribe(b"topic"), reply(SocketOption::Subscribe, b"topic"));
    assert_eq!(socket.unsubscribe(b"topic"), reply(SocketOption::Unsubscribe, b"topic"));
}

#[test]
fn unsubscribe_when_not_subscribed() {
    let socket = SubscribeSocket::from_context();
    assert_eq!(socket.unsubscribe(b"topic"), reply(SocketOption::Unsubscribe, b"topic"));
}

#[test]
fn topic_count_with_no_subscriptions() {
    let socket = SubscribeSocket::from_context();
    let r = reply(SocketOption::TopicsCount, &0i32.to_le_bytes());
    assert_eq!(socket.topic_count(&r), Ok(0));
}

#[test]
fn topic_count_when_subscribed() {
    let socket = SubscribeSocket::from_context();
    let r = reply(SocketOption::TopicsCount, &2i32.to_le_bytes());
    assert_eq!(socket.topic_count(&r), Ok(2));
}

#[test]
fn xsubscribe_subscription_messages() {
    let socket = XSubscribeSocket::from_context();
    assert_eq!(socket.subscribe(b"topic").bytes(), b"\x01topic".to_vec());
    assert_eq!(socket.unsubscribe(b"topic").bytes(), b"\x00topic".to_vec());
}

#[test]
fn unsubscribe_unsubscribes_from_topic() {
    let socket = XSubscribeSocket::from_context();
    let msg = socket.unsubscribe(b"asdf");
    assert_eq!(msg.bytes(), b"\x00asdf".to_vec());
    assert!(!msg.get_more());
}

#[test]
fn set_only_first_subscribe_sets_only_first_subscribe() {
    let socket = XSubscribeSocket::from_context();
    assert_eq!(
        socket.set_only_first_subscribe(true),
        reply(SocketOption::OnlyFirstSubscribe, &1i32.to_le_bytes())
    );
}

#[test]
fn topic_count_returns_topic_count() {
    let socket = XSubscribeSocket::from_context();
    let r = reply(SocketOption::TopicsCount, &0i32.to_le_bytes());
    assert_eq!(socket.topic_count(&r), Ok(0));
}

#[test]
fn set_verbose_unsubscribe_sets_verbose_unsubscribe() {
    let socket = XSubscribeSocket::from_context();
    assert_eq!(
        socket.set_verbose_unsubscribe(true),
        reply(SocketOption::XsubVerboseUnsubscribe, &1i32.to_le_bytes())
    );
}

#[test]
fn join_joins_group() {
    let socket = DishSocket::from_context();
    assert_eq!(socket.join("asdf"), SocketAction::Join("asdf".to_string()));
}

#[test]
fn leave_leaves_group() {
    let socket = DishSocket::from_context();
    assert_eq!(socket.join("asdf"), SocketAction::Join("asdf".to_string()));
    assert_eq!(socket.leave("asdf"), SocketAction::Leave("asdf".to_string()));
}

#[test]
fn pull_set_conflate_sets_conflate() {
    let socket = PullSocket::from_context();
    let w = socket.set_conflate(true);
    assert_eq!(socket.get_sockopt_bool(SocketOption::Conflate, &w), Ok(true));
}

#[test]
fn sockets_are_opened_with_their_type() {
    assert_eq!(PairSocket::from_context().raw_socket_type(), SocketType::Pair.raw());
    assert_eq!(RouterSocket::from_context().raw_socket_type(), SocketType::Router.raw());
    assert_eq!(SubscribeSocket::from_context().raw_socket_type(), SocketType::Subscribe.raw());
    assert_eq!(SocketType::Pair.raw(), 0);
    assert_eq!(SocketType::Router.raw(), 6);
}

#[test]
fn single_message_is_sent_once_with_the_flags() {
    let socket = PairSocket::from_context();
    let msg: Message = "asdf".into();
    let sends = msg.send(&socket, 1);
    assert_eq!(
        sends,
        vec![SocketAction::Send("asdf".into(), SendFlags::DONT_WAIT())]
    );
}

#[test]
fn multipart_message_sends_more_on_all_but_the_last_part() {
    let socket = PairSocket::from_context();
    let multipart: MultipartMessage = vec!["a".into(), "b".into(), "c".into()].into();
    let sends = multipart.send(&socket, 0);
    assert_eq!(
        sends,
        vec![
            SocketAction::Send("a".into(), SendFlags::SEND_MORE()),
            SocketAction::Send("b".into(), SendFlags::SEND_MORE()),
            SocketAction::Send("c".into(), SendFlags::empty()),
        ]
    );
}

#[test]
fn empty_multipart_message_sends_nothing() {
    let socket = PairSocket::from_context();
    let sends = MultipartMessage::new().send(&socket, 0);
    assert!(sends.is_empty());
}
