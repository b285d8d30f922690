//! 0MQ security mechanisms.
//!
//! Supports [`Null`](SecurityMechanism::Null), [`Plain`](SecurityMechanism::Plain) and the
//! CURVE mechanism.
use vstd::prelude::*;
use vstd::utf8::{encode_utf8, encode_utf8_decode_utf8, encode_utf8_valid_utf8};

use crate::error::{ZmqError, ZmqResult};
use crate::sealed;
use crate::socket::codec::{string_from_utf8, lemma_encode_utf8_concat, bool_bytes, i32_bytes, lemma_bool_round_trip, lemma_i32_round_trip, lemma_string_round_trip, decode_bool, decode_i32, decode_string, decoded_bool, decoded_i32, decoded_string, str_bytes};
use crate::socket::{writes, Socket, SocketOption, Sockopt};

pub mod curve;
pub mod gssapi;

pub use gssapi::GssApiNametype;

verus! {

/// 0MQ's number of the NULL mechanism.
pub const ZMQ_NULL: i32 = 0;

/// 0MQ's number of the PLAIN mechanism.
pub const ZMQ_PLAIN: i32 = 1;

/// 0MQ's number of the CURVE mechanism.
pub const ZMQ_CURVE: i32 = 2;

/// A security mechanism of a socket.
#[derive(Debug, PartialEq, Eq, Clone, Hash)]
pub enum SecurityMechanism {
    /// No security.
    Null,
    /// Clear-text authentication with a username and a password.
    Plain {
        /// The username.
        username: String,
        /// The password.
        password: String,
    },
    /// CURVE encryption, on the client side.
    CurveClient {
        /// The long-term public key of the server.
        server_key: Vec<u8>,
        /// The long-term public key of the client.
        public_key: Vec<u8>,
        /// The long-term secret key of the client.
        secret_key: Vec<u8>,
    },
    /// CURVE encryption, on the server side.
    CurveServer {
        /// The long-term secret key of the server.
        secret_key: Vec<u8>,
    },
}

/// The option writes that put `security` in place, in the order they are made.
pub open spec fn security_writes(security: SecurityMechanism) -> Seq<(SocketOption, Seq<u8>)> {
    match security {
        SecurityMechanism::Null => seq![(SocketOption::PlainServer, bool_bytes(false))],
        SecurityMechanism::Plain { username, password } => seq![
            (SocketOption::PlainServer, bool_bytes(true)),
            (SocketOption::PlainUsername, str_bytes(username@)),
            (SocketOption::PlainPassword, str_bytes(password@)),
        ],
        SecurityMechanism::CurveServer { secret_key } => seq![
            (SocketOption::CurveServer, bool_bytes(true)),
            (SocketOption::CurveSecretKey, secret_key@),
        ],
        SecurityMechanism::CurveClient { server_key, public_key, secret_key } => seq![
            (SocketOption::CurveServerKey, server_key@),
            (SocketOption::CurvePublicKey, public_key@),
            (SocketOption::CurveSecretKey, secret_key@),
        ],
    }
}

/// Option writes as (option, bytes) pairs.
pub open spec fn writes_view(w: Seq<Sockopt>) -> Seq<(SocketOption, Seq<u8>)> {
    w.map_values(|x: Sockopt| x@)
}

/// Whether `w` is exactly the sequence of option writes that puts `security` in place.
pub open spec fn applies(security: SecurityMechanism, w: Seq<Sockopt>) -> bool {
    writes_view(w) == security_writes(security)
}

/// The next step in finding out the security mechanism of a socket: either an option to
/// read, or the outcome.
#[derive(Debug, PartialEq, Eq)]
pub enum SecurityQuery {
    /// The option that must be read next.
    Read(SocketOption),
    /// The security mechanism, or why it cannot be told.
    Known(ZmqResult<SecurityMechanism>),
}

/// The value of the first reply for `option` among `replies`, if there is one.
pub open spec fn find_reply(replies: Seq<Sockopt>, option: SocketOption) -> Option<Seq<u8>>
    decreases replies.len(),
{
    if replies.len() == 0 {
        None
    } else if replies[0].option == option {
        Some(replies[0].value@)
    } else {
        find_reply(replies.drop_first(), option)
    }
}

/// Whether `r` is the known outcome `Err(e)`.
pub open spec fn is_failure(r: SecurityQuery, e: ZmqError) -> bool {
    r matches SecurityQuery::Known(Err(x)) && x == e
}

/// Whether `r` is the step that reads `option`.
pub open spec fn is_read(r: SecurityQuery, option: SocketOption) -> bool {
    r matches SecurityQuery::Read(o) && o == option
}

/// The outcome once the replies give a value for `option`: `k` applied to the decoded value,
/// an error where it cannot be decoded, or the read of `option` where it was not read yet.
pub open spec fn with_string(
    r: SecurityQuery,
    replies: Seq<Sockopt>,
    option: SocketOption,
    k: spec_fn(Seq<char>) -> bool,
) -> bool {
    match find_reply(replies, option) {
        None => is_read(r, option),
        Some(bytes) => match decoded_string(bytes) {
            Err(e) => is_failure(r, e),
            Ok(s) => k(s),
        },
    }
}

/// Like [`with_string`], for raw byte values.
pub open spec fn with_bytes(
    r: SecurityQuery,
    replies: Seq<Sockopt>,
    option: SocketOption,
    k: spec_fn(Seq<u8>) -> bool,
) -> bool {
    match find_reply(replies, option) {
        None => is_read(r, option),
        Some(bytes) => k(bytes),
    }
}

/// Like [`with_string`], for boolean values.
pub open spec fn with_bool(
    r: SecurityQuery,
    replies: Seq<Sockopt>,
    option: SocketOption,
    k: spec_fn(bool) -> bool,
) -> bool {
    match find_reply(replies, option) {
        None => is_read(r, option),
        Some(bytes) => match decoded_bool(bytes) {
            Err(e) => is_failure(r, e),
            Ok(b) => k(b),
        },
    }
}

/// How the security mechanism follows from the option replies: the mechanism number
/// (`Mechanism`) first; for PLAIN the username and the password; for CURVE the secret key
/// and the server role, and for a client the server key and the public key; any other
/// mechanism number is `Unsupported`.
pub open spec fn security_query_is(r: SecurityQuery, replies: Seq<Sockopt>) -> bool {
    match find_reply(replies, SocketOption::Mechanism) {
        None => is_read(r, SocketOption::Mechanism),
        Some(m) => match decoded_i32(m) {
            Err(e) => is_failure(r, e),
            Ok(v) => if v == ZMQ_NULL {
                r matches SecurityQuery::Known(Ok(SecurityMechanism::Null))
            } else if v == ZMQ_PLAIN {
                with_string(
                    r,
                    replies,
                    SocketOption::PlainUsername,
                    |u: Seq<char>|
                        with_string(
                            r,
                            replies,
                            SocketOption::PlainPassword,
                            |p: Seq<char>|
                                r matches SecurityQuery::Known(
                                    Ok(SecurityMechanism::Plain { username, password }),
                                ) && username@ == u && password@ == p,
                        ),
                )
            } else if v == ZMQ_CURVE {
                with_bytes(
                    r,
                    replies,
                    SocketOption::CurveSecretKey,
                    |sk: Seq<u8>|
                        with_bool(
                            r,
                            replies,
                            SocketOption::CurveServer,
                            |server: bool|
                                if server {
                                    r matches SecurityQuery::Known(
                                        Ok(SecurityMechanism::CurveServer { secret_key }),
                                    ) && secret_key@ == sk
                                } else {
                                    with_bytes(
                                        r,
                                        replies,
                                        SocketOption::CurveServerKey,
                                        |svk: Seq<u8>|
                                            with_bytes(
                                                r,
                                                replies,
                                                SocketOption::CurvePublicKey,
                                                |pk: Seq<u8>|
                                                    r matches SecurityQuery::Known(
                                                        Ok(
                                                            SecurityMechanism::CurveClient {
                                                                server_key,
                                                                public_key,
                                                                secret_key,
                                                            },
                                                        ),
                                                    ) && server_key@ == svk && public_key@
                                                        == pk && secret_key@ == sk,
                                            ),
                                    )
                                },
                        ),
                )
            } else {
                is_failure(r, ZmqError::Unsupported)
            },
        },
    }
}

/// The position of the first reply for `option`, if there is one.
fn find_reply_index(replies: &Vec<Sockopt>, option: SocketOption) -> (r: Option<usize>)
    ensures
        match r {
            None => find_reply(replies@, option) is None,
            Some(i) => i < replies@.len() && find_reply(replies@, option) == Some(
                replies@[i as int].value@,
            ) && replies@[i as int].option == option,
        },
{
    let mut i: usize = 0;
    proof {
        assert(replies@.skip(0) =~= replies@);
    }
    while i < replies.len()
        invariant
            i <= replies@.len(),
            find_reply(replies@, option) == find_reply(replies@.skip(i as int), option),
        decreases replies@.len() - i,
    {
        proof {
            assert(replies@.skip(i as int).drop_first() =~= replies@.skip(i + 1));
        }
        if replies[i].option == option {
            return Some(i);
        }
        i = i + 1;
    }
    None
}

impl SecurityMechanism {
    /// The option writes that put this mechanism in place on a socket, in the order they are
    /// made.
    pub fn apply<T: sealed::SocketType>(&self, socket: &Socket<T>) -> (r: Vec<Sockopt>)
        ensures
            applies(*self, r@),
    {
        let mut r: Vec<Sockopt> = Vec::new();
        match self {
            SecurityMechanism::Null => {
                r.push(socket.set_sockopt_bool(SocketOption::PlainServer, false));
            },
            SecurityMechanism::Plain { username, password } => {
                r.push(socket.set_sockopt_bool(SocketOption::PlainServer, true));
                r.push(socket.set_sockopt_string(SocketOption::PlainUsername, username.as_str()));
                r.push(socket.set_sockopt_string(SocketOption::PlainPassword, password.as_str()));
            },
            SecurityMechanism::CurveServer { secret_key } => {
                r.push(socket.set_sockopt_bool(SocketOption::CurveServer, true));
                r.push(socket.set_sockopt_bytes(SocketOption::CurveSecretKey, secret_key.as_slice()));
            },
            SecurityMechanism::CurveClient { server_key, public_key, secret_key } => {
                r.push(socket.set_sockopt_bytes(SocketOption::CurveServerKey, server_key.as_slice()));
                r.push(socket.set_sockopt_bytes(SocketOption::CurvePublicKey, public_key.as_slice()));
                r.push(socket.set_sockopt_bytes(SocketOption::CurveSecretKey, secret_key.as_slice()));
            },
        }
        proof {
            assert(writes_view(r@) =~= security_writes(*self));
        }
        r
    }

    /// The security mechanism of a socket, from the replies to the option reads made so far:
    /// the next option to read where a needed one was not read yet, else the mechanism.
    /// The first reply for an option counts.
    pub fn from_replies(replies: &Vec<Sockopt>) -> (r: SecurityQuery)
        ensures
            security_query_is(r, replies@),
    {
        let m = match find_reply_index(replies, SocketOption::Mechanism) {
            None => return SecurityQuery::Read(SocketOption::Mechanism),
            Some(i) => i,
        };
        let v = match decode_i32(replies[m].value.as_slice()) {
            Err(e) => return SecurityQuery::Known(Err(e)),
            Ok(v) => v,
        };
        if v == ZMQ_NULL {
            SecurityQuery::Known(Ok(SecurityMechanism::Null))
        } else if v == ZMQ_PLAIN {
            let u = match find_reply_index(replies, SocketOption::PlainUsername) {
                None => return SecurityQuery::Read(SocketOption::PlainUsername),
                Some(i) => i,
            };
            let username = match decode_string(replies[u].value.as_slice()) {
                Err(e) => return SecurityQuery::Known(Err(e)),
                Ok(s) => s,
            };
            let p = match find_reply_index(replies, SocketOption::PlainPassword) {
                None => return SecurityQuery::Read(SocketOption::PlainPassword),
                Some(i) => i,
            };
            let password = match decode_string(replies[p].value.as_slice()) {
                Err(e) => return SecurityQuery::Known(Err(e)),
                Ok(s) => s,
            };
            SecurityQuery::Known(Ok(SecurityMechanism::Plain { username, password }))
        } else if v == ZMQ_CURVE {
            let s = match find_reply_index(replies, SocketOption::CurveSecretKey) {
                None => return SecurityQuery::Read(SocketOption::CurveSecretKey),
                Some(i) => i,
            };
            let secret_key = vstd::slice::slice_to_vec(replies[s].value.as_slice());
            let c = match find_reply_index(replies, SocketOption::CurveServer) {
                None => return SecurityQuery::Read(SocketOption::CurveServer),
                Some(i) => i,
            };
            let server = match decode_bool(replies[c].value.as_slice()) {
                Err(e) => return SecurityQuery::Known(Err(e)),
                Ok(b) => b,
            };
            if server {
                return SecurityQuery::Known(Ok(SecurityMechanism::CurveServer { secret_key }));
            }
            let k = match find_reply_index(replies, SocketOption::CurveServerKey) {
                None => return SecurityQuery::Read(SocketOption::CurveServerKey),
                Some(i) => i,
            };
            let server_key = vstd::slice::slice_to_vec(replies[k].value.as_slice());
            let q = match find_reply_index(replies, SocketOption::CurvePublicKey) {
                None => return SecurityQuery::Read(SocketOption::CurvePublicKey),
                Some(i) => i,
            };
            let public_key = vstd::slice::slice_to_vec(replies[q].value.as_slice());
            SecurityQuery::Known(
                Ok(SecurityMechanism::CurveClient { server_key, public_key, secret_key }),
            )
        } else {
            SecurityQuery::Known(Err(ZmqError::Unsupported))
        }
    }
}

/// How a security mechanism is shown: the PLAIN credentials in full, the CURVE keys not.
pub open spec fn security_text(security: SecurityMechanism) -> Seq<char> {
    match security {
        SecurityMechanism::Null => "Null"@,
        SecurityMechanism::Plain { username, password } => "Plain { username = "@ + username@
            + ", password = "@ + password@ + " }"@,
        SecurityMechanism::CurveClient { .. } => "CurveClient { ... }"@,
        SecurityMechanism::CurveServer { .. } => "CurveServer { ... }"@,
    }
}

/// Appends the UTF-8 bytes of `s`.
fn push_utf8(out: &mut Vec<u8>, s: &str)
    ensures
        final(out)@ == old(out)@ + encode_utf8(s@),
{
    let bytes = s.as_bytes();
    let ghost start = out@;
    let mut i: usize = 0;
    while i < bytes.len()
        invariant
            i <= bytes@.len(),
            bytes@ == encode_utf8(s@),
            out@ == start + bytes@.subrange(0, i as int),
        decreases bytes@.len() - i,
    {
        out.push(bytes[i]);
        i = i + 1;
        proof {
            assert(out@ =~= start + bytes@.subrange(0, i as int));
        }
    }
    proof {
        assert(bytes@.subrange(0, i as int) =~= bytes@);
    }
}

impl SecurityMechanism {
    /// The mechanism as text: `Null`, `Plain { username = .., password = .. }`,
    /// `CurveClient { ... }` or `CurveServer { ... }`.
    pub fn to_string(&self) -> (r: String)
        ensures
            r@ == security_text(*self),
    {
        let mut out: Vec<u8> = Vec::new();
        let ghost text = security_text(*self);
        match self {
            SecurityMechanism::Null => push_utf8(&mut out, "Null"),
            SecurityMechanism::Plain { username, password } => {
                let a = "Plain { username = ";
                let b = ", password = ";
                let c = " }";
                push_utf8(&mut out, a);
                push_utf8(&mut out, username.as_str());
                push_utf8(&mut out, b);
                push_utf8(&mut out, password.as_str());
                push_utf8(&mut out, c);
                proof {
                    lemma_encode_utf8_concat(a@, username@);
                    lemma_encode_utf8_concat(a@ + username@, b@);
                    lemma_encode_utf8_concat(a@ + username@ + b@, password@);
                    lemma_encode_utf8_concat(a@ + username@ + b@ + password@, c@);
                    assert(Seq::<u8>::empty() + encode_utf8(a@) + encode_utf8(username@) + encode_utf8(b@)
                        + encode_utf8(password@) + encode_utf8(c@) =~= encode_utf8(text));
                }
            },
            SecurityMechanism::CurveClient { .. } => push_utf8(&mut out, "CurveClient { ... }"),
            SecurityMechanism::CurveServer { .. } => push_utf8(&mut out, "CurveServer { ... }"),
        }
        proof {
            assert(out@ =~= encode_utf8(text));
            encode_utf8_valid_utf8(text);
            encode_utf8_decode_utf8(text);
        }
        match string_from_utf8(out) {
            Some(s) => s,
            None => String::new(),
        }
    }
}

impl Default for SecurityMechanism {
    fn default() -> (r: Self)
        ensures
            r matches SecurityMechanism::Null,
    {
        SecurityMechanism::Null
    }
}

/// 0MQ's number of a security mechanism, as the `Mechanism` option reads.
pub open spec fn mechanism_number(security: SecurityMechanism) -> i32 {
    match security {
        SecurityMechanism::Null => ZMQ_NULL,
        SecurityMechanism::Plain { .. } => ZMQ_PLAIN,
        SecurityMechanism::CurveServer { .. } => ZMQ_CURVE,
        SecurityMechanism::CurveClient { .. } => ZMQ_CURVE,
    }
}

/// What reading an option gives back after `bytes` were written to it: the string options of
/// the PLAIN mechanism come back with 0MQ's terminating NUL, the others as written.
pub open spec fn stored_bytes(option: SocketOption, bytes: Seq<u8>) -> Seq<u8> {
    if option == SocketOption::PlainUsername || option == SocketOption::PlainPassword {
        bytes.push(0u8)
    } else {
        bytes
    }
}

/// Whether `replies` answer option reads as a socket does once `security` was put in place on
/// it: `Mechanism` reads as the mechanism's number, each option that was written reads back
/// as it was stored, and a CURVE client reads `CurveServer` as false.
pub open spec fn answers_for(security: SecurityMechanism, replies: Seq<Sockopt>) -> bool {
    let w = security_writes(security);
    &&& find_reply(replies, SocketOption::Mechanism) == Some(i32_bytes(mechanism_number(security)))
    &&& forall|i: int|
        0 <= i < w.len() ==> find_reply(replies, #[trigger] w[i].0) == Some(stored_bytes(w[i].0, w[i].1))
    &&& security is CurveClient ==> find_reply(replies, SocketOption::CurveServer) == Some(
        bool_bytes(false),
    )
}

/// Whether the outcome `r` is the mechanism `security`.
pub open spec fn recovers(r: SecurityQuery, security: SecurityMechanism) -> bool {
    match r {
        SecurityQuery::Known(Ok(found)) => match (found, security) {
            (SecurityMechanism::Null, SecurityMechanism::Null) => true,
            (
                SecurityMechanism::Plain { username: u1, password: p1 },
                SecurityMechanism::Plain { username: u2, password: p2 },
            ) => u1@ == u2@ && p1@ == p2@,
            (
                SecurityMechanism::CurveServer { secret_key: k1 },
                SecurityMechanism::CurveServer { secret_key: k2 },
            ) => k1@ == k2@,
            (
                SecurityMechanism::CurveClient { server_key: s1, public_key: p1, secret_key: k1 },
                SecurityMechanism::CurveClient { server_key: s2, public_key: p2, secret_key: k2 },
            ) => s1@ == s2@ && p1@ == p2@ && k1@ == k2@,
            _ => false,
        },
        _ => false,
    }
}

/// Reading the security mechanism back from a socket on which it was put in place gives that
/// mechanism back.
pub proof fn lemma_security_read_back(security: SecurityMechanism, replies: Seq<Sockopt>, r: SecurityQuery)
    requires
        answers_for(security, replies),
        security_query_is(r, replies),
    ensures
        recovers(r, security),
{
    let w = security_writes(security);
    lemma_i32_round_trip(mechanism_number(security));
    match security {
        SecurityMechanism::Null => {},
        SecurityMechanism::Plain { username, password } => {
            assert(w[1].0 == SocketOption::PlainUsername);
            assert(w[2].0 == SocketOption::PlainPassword);
            lemma_string_round_trip(username@);
            lemma_string_round_trip(password@);
        },
        SecurityMechanism::CurveServer { secret_key } => {
            assert(w[0].0 == SocketOption::CurveServer);
            assert(w[1].0 == SocketOption::CurveSecretKey);
            lemma_bool_round_trip(true);
        },
        SecurityMechanism::CurveClient { server_key, public_key, secret_key } => {
            assert(w[0].0 == SocketOption::CurveServerKey);
            assert(w[1].0 == SocketOption::CurvePublicKey);
            assert(w[2].0 == SocketOption::CurveSecretKey);
            lemma_bool_round_trip(false);
        },
    }
}

} // verus!
