use arzmq::auth::ZapDomain;
use arzmq::security::{SecurityMechanism, SecurityQuery};
use arzmq::socket::{
    MonitorFlags, PairSocket, PollEvents, ReconnectStop, SocketAction, SocketOption, Sockopt,
};
use arzmq::ZmqError;

/// What `zmq_getsockopt` gives back for a string option that was written: the bytes and a
/// terminating NUL.
fn stored_string(w: &Sockopt) -> Sockopt {
    let mut value = w.value.clone();
    value.push(0);
    Sockopt { option: w.option, value }
}

fn reply(option: SocketOption, value: &[u8]) -> Sockopt {
    Sockopt { option, value: value.to_vec() }
}

#[test]
fn set_affinity_sets_affinity() {
    let socket = PairSocket::from_context();
    let w = socket.set_affinity(42);
    assert_eq!(w.option, SocketOption::Affinity);
    assert_eq!(socket.affinity(&w), Ok(42));
}

#[test]
fn set_backlog_sets_backlog() {
    let socket = PairSocket::from_context();
    let w = socket.set_backlog(42);
    assert_eq!(socket.backlog(&w), Ok(42));
}

#[test]
fn set_connect_timeout_sets_connect_timeout() {
    let socket = PairSocket::from_context();
    let w = socket.set_connect_timeout(42);
    assert_eq!(socket.connect_timeout(&w), Ok(42));
}

#[test]
fn events_when_no_events_available() {
    let socket = PairSocket::from_context();
    let r = reply(SocketOption::Events, &0i32.to_le_bytes());
    assert_eq!(socket.events(&r), Ok(PollEvents::empty()));
}

#[test]
fn events_when_connected() {
    let socket = PairSocket::from_context();
    let r = reply(SocketOption::Events, &2i32.to_le_bytes());
    assert_eq!(socket.events(&r), Ok(PollEvents::POLL_OUT()));
}

#[test]
fn set_handshake_interval_sets_handshake_interval() {
    let socket = PairSocket::from_context();
    let w = socket.set_handshake_interval(42);
    assert_eq!(socket.handshake_interval(&w), Ok(42));
}

#[test]
fn set_heartbeat_interval_sets_heartbeat_interval() {
    let socket = PairSocket::from_context();
    let w = socket.set_heartbeat_interval(42);
    assert_eq!(socket.heartbeat_interval(&w), Ok(42));
}

#[test]
fn set_heartbeat_timeout_sets_heartbeat_timeout() {
    let socket = PairSocket::from_context();
    let w = socket.set_heartbeat_timeout(42);
    assert_eq!(socket.heartbeat_timeout(&w), Ok(42));
}

#[test]
fn set_heartbeat_timetolive_sets_heartbeat_ttl() {
    let socket = PairSocket::from_context();
    let w = socket.set_heartbeat_timetolive(42_000);
    assert_eq!(socket.heartbeat_timetolive(&w), Ok(42_000));
}

#[test]
fn set_immediate_sets_immediate() {
    let socket = PairSocket::from_context();
    let w = socket.set_immediate(true);
    assert_eq!(socket.immediate(&w), Ok(true));
}

#[test]
fn set_ipv6_sets_ipv6() {
    let socket = PairSocket::from_context();
    let w = socket.set_ipv6(true);
    assert_eq!(socket.ipv6(&w), Ok(true));
}

#[test]
fn set_linger_sets_linger() {
    let socket = PairSocket::from_context();
    let w = socket.set_linger(42);
    assert_eq!(socket.linger(&w), Ok(42));
}

#[test]
fn last_endpoint_when_not_bound_or_connected() {
    let socket = PairSocket::from_context();
    let r = reply(SocketOption::LastEndpoint, &[0]);
    assert_eq!(socket.last_endpoint(&r), Ok("".to_string()));
}

#[test]
fn last_endpoint_when_bound() {
    let socket = PairSocket::from_context();
    assert_eq!(
        socket.bind("inproc://last-endpoint-test"),
        SocketAction::Bind("inproc://last-endpoint-test".to_string())
    );
    let r = reply(SocketOption::LastEndpoint, b"inproc://last-endpoint-test\0");
    assert_eq!(socket.last_endpoint(&r), Ok("inproc://last-endpoint-test".to_string()));
}

#[test]
fn set_max_msg_size_sets_max_msg_size() {
    let socket = PairSocket::from_context();
    let w = socket.set_max_message_size(42);
    assert_eq!(socket.max_message_size(&w), Ok(42));
}

#[test]
fn set_security_mechanism_set_security_mechanism() {
    let socket = PairSocket::from_context();
    let security = SecurityMechanism::Plain {
        username: "username".into(),
        password: "supersecret".into(),
    };
    let writes = socket.set_security_mechanism(&security);
    assert_eq!(writes.len(), 3);
    let mut replies = vec![reply(SocketOption::Mechanism, &1i32.to_le_bytes())];
    replies.push(stored_string(&writes[1]));
    replies.push(stored_string(&writes[2]));
    assert_eq!(
        socket.security_mechanism(&replies),
        SecurityQuery::Known(Ok(SecurityMechanism::Plain {
            username: "username".into(),
            password: "supersecret".into()
        }))
    );
}

#[test]
fn set_multicast_hops_sets_multicast_hops() {
    let socket = PairSocket::from_context();
    let w = socket.set_multicast_hops(42);
    assert_eq!(socket.multicast_hops(&w), Ok(42));
}

#[test]
fn set_rate_sets_rate() {
    let socket = PairSocket::from_context();
    let w = socket.set_rate(42);
    assert_eq!(socket.rate(&w), Ok(42));
}

#[test]
fn set_receive_buffer_sets_receive_buffer() {
    let socket = PairSocket::from_context();
    let w = socket.set_receive_buffer(42);
    assert_eq!(socket.receive_buffer(&w), Ok(42));
}

#[test]
fn set_receive_high_watermark_sets_receive_high_watermark() {
    let socket = PairSocket::from_context();
    let w = socket.set_receive_highwater_mark(42);
    assert_eq!(socket.receive_highwater_mark(&w), Ok(42));
}

#[test]
fn set_receive_timeout_sets_receive_timeout() {
    let socket = PairSocket::from_context();
    let w = socket.set_receive_timeout(42);
    assert_eq!(socket.receive_timeout(&w), Ok(42));
}

#[test]
fn set_reconnect_interval_sets_reconnect_interval() {
    let socket = PairSocket::from_context();
    let w = socket.set_reconnect_interval(42);
    assert_eq!(socket.reconnect_interval(&w), Ok(42));
}

#[test]
fn set_reconnect_interval_max_sets_reconnect_interval_max() {
    let socket = PairSocket::from_context();
    let w = socket.set_reconnect_interval_max(42);
    assert_eq!(socket.reconnect_interval_max(&w), Ok(42));
}

#[test]
fn set_reconnect_stop_sets_reconnect_stop() {
    let socket = PairSocket::from_context();
    let stop = ReconnectStop::AFTER_DISCONNECT().union(ReconnectStop::CONNECTION_REFUSED());
    let w = socket.set_reconnect_stop(stop);
    assert_eq!(socket.reconnect_stop(&w), Ok(stop));
}

#[test]
fn set_recoveery_interval_sets_recovery_interval() {
    let socket = PairSocket::from_context();
    let w = socket.set_recovery_interval(42);
    assert_eq!(socket.recovery_interval(&w), Ok(42));
}

#[test]
fn set_send_buffer_sets_send_buffer() {
    let socket = PairSocket::from_context();
    let w = socket.set_send_buffer(42);
    assert_eq!(socket.send_buffer(&w), Ok(42));
}

#[test]
fn set_send_high_watermark_sets_send_high_watermark() {
    let socket = PairSocket::from_context();
    let w = socket.set_send_highwater_mark(42);
    assert_eq!(socket.send_highwater_mark(&w), Ok(42));
}

#[test]
fn set_send_timeout_sets_send_timeout() {
    let socket = PairSocket::from_context();
    let w = socket.set_send_timeout(42);
    assert_eq!(socket.send_timeout(&w), Ok(42));
}

#[test]
fn set_socks_proxy_sets_proxy_value() {
    let socket = PairSocket::from_context();
    let w = socket.set_socks_proxy(Some("asdf"));
    assert_eq!(w.option, SocketOption::SocksProxy);
    assert_eq!(socket.socks_proxy(&stored_string(&w)), Ok("asdf".to_string()));
}

#[test]
fn set_socks_proxy_to_none_clears_the_username() {
    let socket = PairSocket::from_context();
    let w = socket.set_socks_proxy(None);
    assert_eq!(w, Sockopt { option: SocketOption::SocksUsername, value: vec![] });
}

#[test]
fn set_socks_username_sets_proxy_username() {
    let socket = PairSocket::from_context();
    let w = socket.set_socks_username("username");
    assert_eq!(socket.socks_username(&stored_string(&w)), Ok("username".to_string()));
}

#[test]
fn set_socks_password_sets_proxy_password() {
    let socket = PairSocket::from_context();
    let w = socket.set_socks_password("password");
    assert_eq!(socket.socks_password(&stored_string(&w)), Ok("password".to_string()));
}

#[test]
fn set_tcp_keepalive_sets_tcp_keepalive() {
    let socket = PairSocket::from_context();
    let w = socket.set_tcp_keepalive(1);
    assert_eq!(socket.tcp_keepalive(&w), Ok(1));
}

#[test]
fn set_tcp_keepalive_count_sets_tcp_keepalive_count() {
    let socket = PairSocket::from_context();
    let w = socket.set_tcp_keepalive_count(42);
    assert_eq!(socket.tcp_keepalive_count(&w), Ok(42));
}

#[test]
fn set_tcp_keepalive_idle_sets_tcp_keepalive_idle() {
    let socket = PairSocket::from_context();
    let w = socket.set_tcp_keepalive_idle(42);
    assert_eq!(socket.tcp_keepalive_idle(&w), Ok(42));
}

#[test]
fn set_tcp_keepalive_interval_sets_tcp_keepalive_interval() {
    let socket = PairSocket::from_context();
    let w = socket.set_tcp_keepalive_interval(42);
    assert_eq!(socket.tcp_keepalive_interval(&w), Ok(42));
}

#[test]
fn set_tcp_max_retransmit_timout_set_retransmit_timeout() {
    let socket = PairSocket::from_context();
    let w = socket.set_tcp_max_retransmit_timeout(42);
    assert_eq!(socket.tcp_max_retransmit_timeout(&w), Ok(42));
}

#[test]
fn set_type_of_service_sets_type_of_service() {
    let socket = PairSocket::from_context();
    let w = socket.set_type_of_service(42);
    assert_eq!(socket.type_of_service(&w), Ok(42));
}

#[test]
fn set_zap_domain_sets_zap_domain() {
    let socket = PairSocket::from_context();
    let w = socket.set_zap_domain(&"zap".into());
    assert_eq!(socket.zap_domain(&stored_string(&w)), Ok(ZapDomain::new("zap".into())));
}

#[test]
fn unbind_unbinds_endpoint() {
    let socket = PairSocket::from_context();
    assert_eq!(
        socket.unbind("inproc://unbind-test"),
        SocketAction::Unbind("inproc://unbind-test".to_string())
    );
}

#[test]
fn connect_connects_to_endpoint() {
    let socket = PairSocket::from_context();
    assert_eq!(
        socket.connect("inproc://connect-test"),
        SocketAction::Connect("inproc://connect-test".to_string())
    );
}

#[test]
fn disconnect_disconnects_from_endpoint() {
    let socket = PairSocket::from_context();
    assert_eq!(
        socket.disconnect("inproc://disconnect-test"),
        SocketAction::Disconnect("inproc://disconnect-test".to_string())
    );
}

#[test]
fn poll_on_socket_when_no_events_available() {
    let socket = PairSocket::from_context();
    assert_eq!(socket.poll(0), Ok(PollEvents::empty()));
}

#[test]
fn poll_on_socket_when_event_available() {
    let socket = PairSocket::from_context();
    assert_eq!(socket.poll(1), Ok(PollEvents::POLL_IN()));
}

#[test]
fn poll_with_events_out_of_range_is_invalid() {
    let socket = PairSocket::from_context();
    assert_eq!(socket.poll(1 << 20), Err(ZmqError::InvalidArgument));
}

#[test]
fn poll_drops_unknown_event_bits() {
    let socket = PairSocket::from_context();
    assert_eq!(socket.poll(0x41), Ok(PollEvents::POLL_IN()));
}

#[test]
fn getter_refuses_reply_for_another_option() {
    let socket = PairSocket::from_context();
    let w = socket.set_linger(42);
    assert_eq!(socket.rate(&w), Err(ZmqError::InvalidArgument));
}

#[test]
fn getter_refuses_reply_of_wrong_length() {
    let socket = PairSocket::from_context();
    let r = reply(SocketOption::Linger, &[1, 2, 3]);
    assert_eq!(socket.linger(&r), Err(ZmqError::InvalidArgument));
}

#[test]
fn integer_options_are_little_endian() {
    let socket = PairSocket::from_context();
    assert_eq!(socket.set_linger(-1).value, vec![0xff, 0xff, 0xff, 0xff]);
    assert_eq!(socket.set_linger(258).value, vec![2, 1, 0, 0]);
    assert_eq!(socket.set_immediate(true).value, vec![1, 0, 0, 0]);
    assert_eq!(socket.set_max_message_size(1).value, vec![1, 0, 0, 0, 0, 0, 0, 0]);
}

#[test]
fn monitor_endpoint_names_the_file_descriptor() {
    let socket = PairSocket::from_context();
    let r = reply(SocketOption::FileDescriptor, &17u64.to_le_bytes());
    let setup = socket.monitor(&r, MonitorFlags::Connected()).unwrap();
    assert_eq!(setup.endpoint, "inproc://monitor.s-17");
    assert_eq!(setup.events, 1);
}

#[test]
fn option_numbers_are_those_of_libzmq() {
    assert_eq!(SocketOption::Affinity.raw(), 4);
    assert_eq!(SocketOption::Linger.raw(), 17);
    assert_eq!(SocketOption::Mechanism.raw(), 43);
    assert_eq!(SocketOption::ZapDomain.raw(), 55);
}

#[test]
fn option_and_type_numbers_convert_to_i32() {
    assert_eq!(i32::from(SocketOption::Linger), 17);
    assert_eq!(i32::from(SocketOption::Subscribe), 6);
    assert_eq!(i32::from(arzmq::socket::SocketType::Dish), 15);
    assert_eq!(i32::from(arzmq::socket::SocketType::Peer), 19);
}
