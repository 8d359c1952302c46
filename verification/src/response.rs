//! Normalization of foreign response records and status codes.
//!
//! Every response-style callback carries a possibly-absent response-info
//! record with an integer `ErrorID` and a fixed-width `ErrorMsg` text field.
//! Normalization turns that into a plain success/failure value, so handlers
//! never see raw status codes or raw encoded bytes.

use vstd::prelude::*;
use crate::text::{decoded_i8, slice_to_string, push_char};
use vstd::string::StringExecFns;

verus! {

/// Why the gateway connection was lost, derived from an integer status code;
/// codes outside the documented set collapse to `Unknown`, never an error.
#[derive(Clone, Copy, Debug, PartialEq, Eq, Structural)]
pub enum DisconnectionReason {
    ReadError,
    WriteError,
    HeartbeatTimeout,
    HeartbeatSendError,
    ErrorMessageReceived,
    Unknown,
}

/// The disconnection reason a status code denotes.
pub open spec fn reason_of_code(code: i32) -> DisconnectionReason {
    if code == 0x1001 {
        DisconnectionReason::ReadError
    } else if code == 0x1002 {
        DisconnectionReason::WriteError
    } else if code == 0x2001 {
        DisconnectionReason::HeartbeatTimeout
    } else if code == 0x2002 {
        DisconnectionReason::HeartbeatSendError
    } else if code == 0x2003 {
        DisconnectionReason::ErrorMessageReceived
    } else {
        DisconnectionReason::Unknown
    }
}

impl From<i32> for DisconnectionReason {
    fn from(reason: i32) -> (r: DisconnectionReason)
        ensures
            r == reason_of_code(reason),
    {
        if reason == 0x1001 {
            DisconnectionReason::ReadError
        } else if reason == 0x1002 {
            DisconnectionReason::WriteError
        } else if reason == 0x2001 {
            DisconnectionReason::HeartbeatTimeout
        } else if reason == 0x2002 {
            DisconnectionReason::HeartbeatSendError
        } else if reason == 0x2003 {
            DisconnectionReason::ErrorMessageReceived
        } else {
            DisconnectionReason::Unknown
        }
    }
}

impl vstd::std_specs::convert::FromSpecImpl<i32> for DisconnectionReason {
    open spec fn obeys_from_spec() -> bool {
        true
    }

    open spec fn from_spec(v: i32) -> Self {
        reason_of_code(v)
    }
}

/// Every status code outside the five documented disconnection codes is
/// reported as `Unknown`: deriving a reason never fails.
pub proof fn lemma_unmapped_code_is_unknown(code: i32)
    requires
        code != 0x1001,
        code != 0x1002,
        code != 0x2001,
        code != 0x2002,
        code != 0x2003,
    ensures
        reason_of_code(code) == DisconnectionReason::Unknown,
{
}

/// A failed response: the gateway's numeric error identifier and its decoded
/// human-readable message.
#[derive(Clone, Debug, PartialEq)]
pub struct RspError {
    pub id: i32,
    pub msg: String,
}

/// The outcome of normalizing one response record.
pub type RspResult = Result<(), RspError>;

/// What the routing layer reads of a foreign response-info record: the
/// integer error identifier and the fixed-width message bytes, as the
/// foreign record declares them.
#[derive(Clone, Debug, PartialEq)]
pub struct RspInfoField {
    pub error_id: i32,
    pub error_msg: Vec<i8>,
}

/// Normalize a possibly-absent response-info record.  Absence is success;
/// a present record with `ErrorID` zero is success whatever its message;
/// a nonzero `ErrorID` is a failure carrying the id and the decoded message.
pub fn get_rsp_info(rsp_info: Option<&RspInfoField>) -> (r: RspResult)
    ensures
        rsp_info is None ==> r == RspResult::Ok(()),
        rsp_info matches Some(info) ==> if info.error_id == 0 {
            r == RspResult::Ok(())
        } else {
            (r matches Err(e) && e.id == info.error_id && e.msg@ == decoded_i8(
                info.error_msg@,
            ))
        },
{
    match rsp_info {
        Some(info) => {
            if info.error_id == 0 {
                Ok(())
            } else {
                Err(RspError { id: info.error_id, msg: slice_to_string(info.error_msg.as_slice()) })
            }
        },
        None => Ok(()),
    }
}

/// The decimal digit character for a value in 0..=9.
pub open spec fn dec_digit(d: int) -> char {
    ((48 + d) as u8) as char
}

/// The decimal digit string of a non-negative integer, most significant
/// digit first, with no leading zero except for zero itself.
pub open spec fn dec_seq(n: nat) -> Seq<char>
    decreases n,
{
    if n < 10 {
        seq![dec_digit(n as int)]
    } else {
        dec_seq(n / 10).push(dec_digit((n % 10) as int))
    }
}

/// The decimal string of an integer, with a leading minus sign when negative.
pub open spec fn dec_int(n: int) -> Seq<char> {
    if n < 0 {
        seq!['-'] + dec_seq((-n) as nat)
    } else {
        dec_seq(n as nat)
    }
}

fn u64_dec_string(m: u64) -> (s: String)
    ensures
        s@ == dec_seq(m as nat),
    decreases m,
{
    if m < 10 {
        let mut s = String::new();
        let d = (48 + m) as u8;
        push_char(&mut s, d as char);
        assert(d as char == dec_digit(m as int));
        s
    } else {
        let mut s = u64_dec_string(m / 10);
        let d = (48 + m % 10) as u8;
        push_char(&mut s, d as char);
        assert(d as char == dec_digit((m % 10) as int));
        s
    }
}

fn i32_dec_string(n: i32) -> (s: String)
    ensures
        s@ == dec_int(n as int),
{
    if n >= 0 {
        u64_dec_string(n as u64)
    } else {
        let mag = (-(n as i64)) as u64;
        let mut s = String::from_str("-");
        proof {
            reveal_strlit("-");
            assert(s@ =~= seq!['-']);
        }
        let digits = u64_dec_string(mag);
        s.append(digits.as_str());
        assert(s@ =~= dec_int(n as int));
        s
    }
}

/// The readable rendering of a normalized outcome.
pub open spec fn result_string(r: RspResult) -> Seq<char> {
    match r {
        Ok(_) => "Ok(())"@,
        Err(e) => "Err(RspError{ id: "@ + dec_int(e.id as int) + ", msg: "@ + e.msg@ + " })"@,
    }
}

/// Render a normalized outcome for logging: `Ok(())`, or the error's id and
/// message in a readable form.
pub fn result_to_string(rsp_result: &RspResult) -> (r: String)
    ensures
        r@ == result_string(*rsp_result),
{
    match rsp_result {
        Ok(()) => String::from_str("Ok(())"),
        Err(err) => {
            let mut s = String::from_str("Err(RspError{ id: ");
            let digits = i32_dec_string(err.id);
            s.append(digits.as_str());
            s.append(", msg: ");
            s.append(err.msg.as_str());
            s.append(" })");
            s
        },
    }
}

} // verus!
