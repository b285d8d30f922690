//! GSSAPI name types.
use vstd::prelude::*;

use crate::error::ZmqError;

verus! {

/// The type of a GSSAPI principal name.
#[derive(Debug, PartialEq, Eq, Clone, Copy, Hash, Structural)]
pub enum GssApiNametype {
    /// A host-based service name (`ZMQ_GSSAPI_NT_HOSTBASED`).
    NtHostbased,
    /// A user name (`ZMQ_GSSAPI_NT_USER_NAME`).
    NtUsername,
    /// A Kerberos principal name (`ZMQ_GSSAPI_NT_KRB5_PRINCIPAL`).
    NtKrb5Principal,
}

/// The name type that 0MQ numbers `value`, or `Unsupported` for any other number.
pub open spec fn nametype_of(value: i32) -> Result<GssApiNametype, ZmqError> {
    if value == 0 {
        Ok(GssApiNametype::NtHostbased)
    } else if value == 1 {
        Ok(GssApiNametype::NtUsername)
    } else if value == 2 {
        Ok(GssApiNametype::NtKrb5Principal)
    } else {
        Err(ZmqError::Unsupported)
    }
}

impl vstd::std_specs::convert::TryFromSpecImpl<i32> for GssApiNametype {
    open spec fn obeys_try_from_spec() -> bool {
        true
    }

    open spec fn try_from_spec(value: i32) -> Result<GssApiNametype, ZmqError> {
        nametype_of(value)
    }
}

impl TryFrom<i32> for GssApiNametype {
    type Error = ZmqError;

    fn try_from(value: i32) -> (r: Result<Self, Self::Error>) {
        if value == 0 {
            Ok(GssApiNametype::NtHostbased)
        } else if value == 1 {
            Ok(GssApiNametype::NtUsername)
        } else if value == 2 {
            Ok(GssApiNametype::NtKrb5Principal)
        } else {
            Err(ZmqError::Unsupported)
        }
    }
}

} // verus!
