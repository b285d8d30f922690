use arzmq::auth::ZapDomain;
use arzmq::message::Message;
use arzmq::security::SecurityMechanism;
use arzmq::socket::{
    ChannelBuilder, DishBuilder, GatherBuilder, PairBuilder, PairSocket, PeerBuilder,
    PullBuilder, RouterBuilder, RouterNotify, ScatterBuilder, SendFlags, SocketAction,
    SocketBuilder, SocketOption, Sockopt, SubscribeBuilder, XSubscribeBuilder,
};
use arzmq::socket::{ChannelSocket, GatherSocket, ScatterSocket};

fn set(option: SocketOption, value: &[u8]) -> SocketAction {
    SocketAction::SetOption(Sockopt { option, value: value.to_vec() })
}

fn set_i32(option: SocketOption, value: i32) -> SocketAction {
    set(option, &value.to_le_bytes())
}

#[test]
fn socket_builder_default_sets_nothing() {
    let socket = PairSocket::from_context();
    let builder = SocketBuilder::default();
    assert!(builder.apply(&socket).is_empty());
}

#[test]
fn socket_builder_applies_given_options_in_field_order() {
    let socket = PairSocket::from_context();
    let builder = SocketBuilder::default()
        .send_timeout(1337)
        .connect_timeout(42)
        .immediate(true)
        .max_message_size(1337)
        .zap_domain(ZapDomain::new("test".into()))
        .security_mechanism(SecurityMechanism::Plain {
            username: "username".into(),
            password: "supersecret".into(),
        });
    assert_eq!(
        builder.apply(&socket),
        vec![
            set_i32(SocketOption::ConnectTimeout, 42),
            set_i32(SocketOption::Immediate, 1),
            set(SocketOption::MaxMessageSize, &1337i64.to_le_bytes()),
            set_i32(SocketOption::SendTimeout, 1337),
            set(SocketOption::ZapDomain, b"test"),
            set_i32(SocketOption::PlainServer, 1),
            set(SocketOption::PlainUsername, b"username"),
            set(SocketOption::PlainPassword, b"supersecret"),
        ]
    );
}

#[test]
fn socket_builder_setters_keep_the_other_fields() {
    let builder = SocketBuilder::default().linger(7).ipv6(true);
    assert_eq!(builder.linger, Some(7));
    assert_eq!(builder.ipv6, Some(true));
    assert_eq!(builder.connect_timeout, None);
    assert_eq!(builder.security_mechanism, None);
}

#[test]
fn pair_builder_default_sets_nothing() {
    let (_socket, actions): (PairSocket, Vec<SocketAction>) =
        PairBuilder::default().build_from_context();
    assert!(actions.is_empty());
}

#[test]
fn channel_builder_default_sets_nothing() {
    let (_socket, actions): (ChannelSocket, Vec<SocketAction>) =
        ChannelBuilder::default().build_from_context();
    assert!(actions.is_empty());
}

#[test]
fn gather_builder_default_sets_nothing() {
    let (_socket, actions): (GatherSocket, Vec<SocketAction>) =
        GatherBuilder::default().build_from_context();
    assert!(actions.is_empty());
}

#[test]
fn scatter_builder_default_sets_nothing() {
    let (_socket, actions): (ScatterSocket, Vec<SocketAction>) =
        ScatterBuilder::default().build_from_context();
    assert!(actions.is_empty());
}

#[test]
fn router_builder_default_sets_nothing() {
    let (_socket, actions) = RouterBuilder::default().build_from_context();
    assert!(actions.is_empty());
}

#[test]
fn router_builder_with_custom_values() {
    let builder = RouterBuilder::default()
        .socket_builder(SocketBuilder::default())
        .routing_id("asdf")
        .router_handover(true)
        .router_mandatory(true)
        .connect_routing_id("1234")
        .router_notify(RouterNotify::NotifyConnect().union(RouterNotify::NotifyDisconnect()))
        .disconnect_message("byebye")
        .hello_message("hello");
    let (socket, actions) = builder.build_from_context();
    let SocketAction::SetOption(routing_id) = &actions[3] else { panic!("not an option write") };
    let mut stored = routing_id.clone();
    stored.value.push(0);
    assert_eq!(socket.routing_id(&stored), Ok("asdf".to_string()));
    let SocketAction::SetOption(notify) = &actions[2] else { panic!("not an option write") };
    assert_eq!(
        socket.router_notify(notify),
        Ok(RouterNotify::NotifyConnect().union(RouterNotify::NotifyDisconnect()))
    );
    assert_eq!(
        actions,
        vec![
            set(SocketOption::HelloMessage, b"hello"),
            set(SocketOption::DisconnectMessage, b"byebye"),
            set_i32(SocketOption::RouterNotify, 3),
            set(SocketOption::RoutingId, b"asdf"),
            set_i32(SocketOption::RouterMandatory, 1),
            set_i32(SocketOption::RouterHandover, 1),
            set(SocketOption::ConnectRoutingId, b"1234"),
        ]
    );
}

#[test]
fn default_peer_builder() {
    let (_socket, actions) = PeerBuilder::default().build_from_context();
    assert!(actions.is_empty());
}

#[test]
fn peer_builder_with_custom_values() {
    let (_socket, actions) = PeerBuilder::default()
        .socket_builder(SocketBuilder::default())
        .hello_message("hello123")
        .hiccup_msg("hiccup123")
        .disconnect_message("disconnect123")
        .build_from_context();
    assert_eq!(
        actions,
        vec![
            set(SocketOption::HiccupMessage, b"hiccup123"),
            set(SocketOption::HelloMessage, b"hello123"),
            set(SocketOption::DisconnectMessage, b"disconnect123"),
        ]
    );
}

#[test]
fn subscribe_builder_default_sets_nothing() {
    let (_socket, actions) = SubscribeBuilder::default().build_from_context();
    assert!(actions.is_empty());
}

#[test]
fn subscribe_builder_with_custom_values() {
    let (socket, actions) = SubscribeBuilder::default()
        .socket_builder(SocketBuilder::default())
        .conflate(true)
        .invert_matching(true)
        .subscribe("topic")
        .build_from_context();
    let SocketAction::SetOption(conflate) = &actions[0] else { panic!("not an option write") };
    assert_eq!(socket.get_sockopt_bool(SocketOption::Conflate, conflate), Ok(true));
    let SocketAction::SetOption(invert) = &actions[1] else { panic!("not an option write") };
    assert_eq!(socket.invert_matching(invert), Ok(true));
    assert_eq!(
        actions,
        vec![
            set_i32(SocketOption::Conflate, 1),
            set_i32(SocketOption::InvertMatching, 1),
            set(SocketOption::Subscribe, b"topic"),
        ]
    );
}

#[test]
fn default_xsubscribe_builder() {
    let (_socket, actions) = XSubscribeBuilder::default().build_from_context();
    assert!(actions.is_empty());
}

#[test]
fn xsubscribe_builder_with_custom_values() {
    let (_socket, actions) = XSubscribeBuilder::default()
        .socket_builder(SocketBuilder::default())
        .subscribe("asdf")
        .only_first_subscribe(true)
        .build_from_context();
    assert_eq!(
        actions,
        vec![
            SocketAction::Send(Message::from(b"\x01asdf".to_vec()), SendFlags::empty()),
            set_i32(SocketOption::OnlyFirstSubscribe, 1),
        ]
    );
}

#[test]
fn pull_builder_default_sets_nothing() {
    let (_socket, actions) = PullBuilder::default().build_from_context();
    assert!(actions.is_empty());
}

#[test]
fn pull_builder_with_custom_settings() {
    let (socket, actions) = PullBuilder::default()
        .socket_builder(SocketBuilder::default())
        .conflate(true)
        .build_from_context();
    let SocketAction::SetOption(conflate) = &actions[0] else { panic!("not an option write") };
    assert_eq!(socket.get_sockopt_bool(SocketOption::Conflate, conflate), Ok(true));
    assert_eq!(actions, vec![set_i32(SocketOption::Conflate, 1)]);
}

#[test]
fn default_dish_builder() {
    let (_socket, actions) = DishBuilder::default().build_from_context();
    assert!(actions.is_empty());
}

#[test]
fn dish_builder_with_custom_settings() {
    let (_socket, actions) = DishBuilder::default()
        .join("asdf")
        .build_from_context();
    assert_eq!(actions, vec![SocketAction::Join("asdf".to_string())]);
}

#[test]
fn nested_socket_builder_comes_first() {
    let (_socket, actions) = PullBuilder::default()
        .socket_builder(SocketBuilder::default().linger(0))
        .conflate(false)
        .build_from_context();
    assert_eq!(
        actions,
        vec![set_i32(SocketOption::Linger, 0), set_i32(SocketOption::Conflate, 0)]
    );
}
