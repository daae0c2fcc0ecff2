//! DISCONNECT reason codes.

use vstd::prelude::*;

verus! {

/// The reason code of a normal disconnection.
pub const NORMAL_DISCONNECTION: u8 = 0;

/// The MQTT 5.0 DISCONNECT reason codes.
pub open spec fn is_disconnect_reason_code(code: u8) -> bool {
    code == 0 || code == 4 || (128 <= code <= 131) || code == 135 || code == 137 || (139 <= code
        <= 144) || (147 <= code <= 162)
}

/// `DisconnectReasonCode::try_from(u8)` of `rmqtt_codec`: it succeeds exactly on
/// the DISCONNECT reason codes (0, 4, 128-131, 135, 137, 139-144, 147-162) and
/// fails with `MalformedPacket` on every other byte.
#[verifier::external_body]
fn decodes_as_disconnect_reason(code: u8) -> (r: bool)
    ensures
        r == is_disconnect_reason_code(code),
{
    rmqtt_codec::v5::DisconnectReasonCode::try_from(code).is_ok()
}

/// The reason code a DISCONNECT carries when the caller asks for `reason`: the
/// code itself when it is a DISCONNECT reason code, a normal disconnection when
/// it is not or when none is asked for.
pub open spec fn spec_disconnect_reason(reason: Option<u8>) -> u8 {
    match reason {
        Some(c) => if is_disconnect_reason_code(c) { c } else { NORMAL_DISCONNECTION },
        None => NORMAL_DISCONNECTION,
    }
}

pub fn disconnect_reason(reason: Option<u8>) -> (r: u8)
    ensures
        r == spec_disconnect_reason(reason),
        is_disconnect_reason_code(r),
{
    match reason {
        Some(c) => if decodes_as_disconnect_reason(c) { c } else { NORMAL_DISCONNECTION },
        None => NORMAL_DISCONNECTION,
    }
}

/// The contents of a DISCONNECT.
#[derive(Debug, Clone, Copy, PartialEq, Eq, Structural)]
pub struct DisconnectFields {
    pub reason_code: u8,
    pub session_expiry_interval_secs: Option<u32>,
}

/// The DISCONNECT with the reason the caller asks for and no session expiry
/// property.
pub fn disconnect_fields(reason: Option<u8>) -> (r: DisconnectFields)
    ensures
        r.reason_code == spec_disconnect_reason(reason),
        r.session_expiry_interval_secs is None,
{
    DisconnectFields { reason_code: disconnect_reason(reason), session_expiry_interval_secs: None }
}

/// The normal DISCONNECT that sets the session expiry interval of the ending
/// session to `expiry_secs`; `None` leaves the property out.
pub fn disconnect_fields_with_session_expiry(expiry_secs: Option<u32>) -> (r: DisconnectFields)
    ensures
        r.reason_code == NORMAL_DISCONNECTION,
        r.session_expiry_interval_secs == expiry_secs,
{
    DisconnectFields { reason_code: NORMAL_DISCONNECTION, session_expiry_interval_secs: expiry_secs }
}

} // verus!
