use arzmq::security::{GssApiNametype, SecurityMechanism, SecurityQuery};
use arzmq::socket::{PairSocket, SocketOption, Sockopt};
use arzmq::ZmqError;

fn reply(option: SocketOption, value: &[u8]) -> Sockopt {
    Sockopt { option, value: value.to_vec() }
}

fn with_nul(w: &Sockopt) -> Sockopt {
    let mut value = w.value.clone();
    value.push(0);
    Sockopt { option: w.option, value }
}

fn curve_key(seed: u8) -> Vec<u8> {
    (0..41).map(|i: u8| if i == 40 { 0 } else { b'a' + (i + seed) % 26 }).collect()
}

#[test]
fn apply_null_security() {
    let socket = PairSocket::from_context();
    let writes = SecurityMechanism::Null.apply(&socket);
    assert_eq!(writes, vec![reply(SocketOption::PlainServer, &0i32.to_le_bytes())]);
    let replies = vec![reply(SocketOption::Mechanism, &0i32.to_le_bytes())];
    assert_eq!(
        socket.security_mechanism(&replies),
        SecurityQuery::Known(Ok(SecurityMechanism::Null))
    );
}

#[test]
fn apply_plain_security() {
    let socket = PairSocket::from_context();
    let security = SecurityMechanism::Plain {
        username: "username".into(),
        password: "supersecret".into(),
    };
    let writes = security.apply(&socket);
    assert_eq!(
        writes,
        vec![
            reply(SocketOption::PlainServer, &1i32.to_le_bytes()),
            reply(SocketOption::PlainUsername, b"username"),
            reply(SocketOption::PlainPassword, b"supersecret"),
        ]
    );
    let replies = vec![
        reply(SocketOption::Mechanism, &1i32.to_le_bytes()),
        with_nul(&writes[1]),
        with_nul(&writes[2]),
    ];
    assert_eq!(socket.security_mechanism(&replies), SecurityQuery::Known(Ok(security)));
}

#[test]
fn apply_curve_server_security() {
    let socket = PairSocket::from_context();
    let secret_key = curve_key(3);
    let security = SecurityMechanism::CurveServer { secret_key: secret_key.clone() };
    let writes = security.apply(&socket);
    assert_eq!(
        writes,
        vec![
            reply(SocketOption::CurveServer, &1i32.to_le_bytes()),
            reply(SocketOption::CurveSecretKey, &secret_key),
        ]
    );
    let mut replies = vec![reply(SocketOption::Mechanism, &2i32.to_le_bytes())];
    replies.extend(writes);
    assert_eq!(socket.security_mechanism(&replies), SecurityQuery::Known(Ok(security)));
}

#[test]
fn apply_curve_client_security() {
    let socket = PairSocket::from_context();
    let security = SecurityMechanism::CurveClient {
        server_key: curve_key(1),
        public_key: curve_key(2),
        secret_key: curve_key(3),
    };
    let writes = security.apply(&socket);
    assert_eq!(writes.len(), 3);
    assert_eq!(writes[0].option, SocketOption::CurveServerKey);
    assert_eq!(writes[1].option, SocketOption::CurvePublicKey);
    assert_eq!(writes[2].option, SocketOption::CurveSecretKey);
    let mut replies = vec![
        reply(SocketOption::Mechanism, &2i32.to_le_bytes()),
        reply(SocketOption::CurveServer, &0i32.to_le_bytes()),
    ];
    replies.extend(writes);
    assert_eq!(socket.security_mechanism(&replies), SecurityQuery::Known(Ok(security)));
}

#[test]
fn try_from_socket_with_no_security() {
    let replies = vec![reply(SocketOption::Mechanism, &0i32.to_le_bytes())];
    assert_eq!(
        SecurityMechanism::from_replies(&replies),
        SecurityQuery::Known(Ok(SecurityMechanism::Null))
    );
}

#[test]
fn try_from_socket_with_plain_security() {
    let mut replies = vec![reply(SocketOption::Mechanism, &1i32.to_le_bytes())];
    assert_eq!(
        SecurityMechanism::from_replies(&replies),
        SecurityQuery::Read(SocketOption::PlainUsername)
    );
    replies.push(reply(SocketOption::PlainUsername, b"username\0"));
    assert_eq!(
        SecurityMechanism::from_replies(&replies),
        SecurityQuery::Read(SocketOption::PlainPassword)
    );
    replies.push(reply(SocketOption::PlainPassword, b"supersecret\0"));
    assert_eq!(
        SecurityMechanism::from_replies(&replies),
        SecurityQuery::Known(Ok(SecurityMechanism::Plain {
            username: "username".into(),
            password: "supersecret".into()
        }))
    );
}

#[test]
fn try_from_socket_with_curve_security() {
    let secret_key = curve_key(5);
    let replies = vec![
        reply(SocketOption::Mechanism, &2i32.to_le_bytes()),
        reply(SocketOption::CurveSecretKey, &secret_key),
        reply(SocketOption::CurveServer, &1i32.to_le_bytes()),
    ];
    assert_eq!(
        SecurityMechanism::from_replies(&replies),
        SecurityQuery::Known(Ok(SecurityMechanism::CurveServer { secret_key }))
    );
}

#[test]
fn try_from_socket_with_curve_client_security() {
    let replies = vec![
        reply(SocketOption::Mechanism, &2i32.to_le_bytes()),
        reply(SocketOption::CurveSecretKey, &curve_key(3)),
        reply(SocketOption::CurveServer, &0i32.to_le_bytes()),
        reply(SocketOption::CurveServerKey, &curve_key(1)),
    ];
    assert_eq!(
        SecurityMechanism::from_replies(&replies),
        SecurityQuery::Read(SocketOption::CurvePublicKey)
    );
    let mut replies = replies;
    replies.push(reply(SocketOption::CurvePublicKey, &curve_key(2)));
    assert_eq!(
        SecurityMechanism::from_replies(&replies),
        SecurityQuery::Known(Ok(SecurityMechanism::CurveClient {
            server_key: curve_key(1),
            public_key: curve_key(2),
            secret_key: curve_key(3),
        }))
    );
}

#[test]
fn security_query_starts_with_the_mechanism() {
    assert_eq!(
        SecurityMechanism::from_replies(&vec![]),
        SecurityQuery::Read(SocketOption::Mechanism)
    );
}

#[test]
fn security_query_refuses_unknown_mechanism() {
    let replies = vec![reply(SocketOption::Mechanism, &3i32.to_le_bytes())];
    assert_eq!(
        SecurityMechanism::from_replies(&replies),
        SecurityQuery::Known(Err(ZmqError::Unsupported))
    );
}

#[test]
fn security_query_reports_undecodable_mechanism() {
    let replies = vec![reply(SocketOption::Mechanism, &[1, 0])];
    assert_eq!(
        SecurityMechanism::from_replies(&replies),
        SecurityQuery::Known(Err(ZmqError::InvalidArgument))
    );
}

#[test]
fn security_mechanism_defaults_to_null() {
    assert_eq!(SecurityMechanism::default(), SecurityMechanism::Null);
}

#[test]
fn nametype_try_from() {
    assert_eq!(GssApiNametype::try_from(0), Ok(GssApiNametype::NtHostbased));
    assert_eq!(GssApiNametype::try_from(1), Ok(GssApiNametype::NtUsername));
    assert_eq!(GssApiNametype::try_from(2), Ok(GssApiNametype::NtKrb5Principal));
    assert_eq!(GssApiNametype::try_from(666), Err(ZmqError::Unsupported));
}

#[test]
fn security_mechanism_as_text() {
    assert_eq!(SecurityMechanism::Null.to_string(), "Null");
    assert_eq!(
        SecurityMechanism::Plain { username: "user".into(), password: "pw".into() }.to_string(),
        "Plain { username = user, password = pw }"
    );
    assert_eq!(
        SecurityMechanism::CurveServer { secret_key: curve_key(1) }.to_string(),
        "CurveServer { ... }"
    );
    assert_eq!(
        SecurityMechanism::CurveClient {
            server_key: curve_key(1),
            public_key: curve_key(2),
            secret_key: curve_key(3)
        }
        .to_string(),
        "CurveClient { ... }"
    );
}
