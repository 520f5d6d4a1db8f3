use vstd::prelude::*;
use crate::control_block::{ControlBlock, TokenError, token_check_outcome};
use crate::engine::return_code::{ReturnCode, failed_with, succeeded_with};
use crate::text::{decimal, decimal_string};
use crate::codec::{crc32_checksum, crc32_iso_hdlc};

verus! {

/// Announces an upload: the file's name and size.
pub struct PresendReq {
    pub file_name: String,
    pub file_size: u64,
}

/// One block of an upload, with the checksum its bytes must have.
pub struct SendReq {
    pub file_id: u32,
    pub block_id: u64,
    pub block_checksum: u32,
    pub block_payload: Vec<u8>,
}

/// Ends an upload.
pub struct FinishReq {
    pub file_id: u32,
    pub file_checksum: u32,
}

/// The characters of a token check's outcome: whether the token is still valid,
/// or the text of the error that stopped the check.
pub open spec fn validation_view(v: Result<bool, TokenError>) -> Result<bool, Seq<char>> {
    match v {
        Ok(b) => Ok(b),
        Err(e) => Err(e.message@),
    }
}

/// Why a request is refused after checking its token: `None` lets it through.
pub open spec fn jwt_refusal(validation: Result<bool, Seq<char>>) -> Option<Seq<char>> {
    match validation {
        Ok(true) => None,
        Ok(false) => Some("jwt expired"@),
        Err(e) => Some("invalid jwt: "@ + e),
    }
}

/// `r` answers as `refusal` says: nothing when there is no refusal, else a failed
/// answer with the refusal's text.
pub open spec fn refused_as(r: Option<ReturnCode>, refusal: Option<Seq<char>>) -> bool {
    match refusal {
        None => r is None,
        Some(t) => r matches Some(rc) && failed_with(rc, t),
    }
}

/// The answer to a token check for uploads: let the request through on a valid
/// token, refuse it otherwise.
pub fn jwt_gate(validation: Result<bool, TokenError>) -> (r: Option<ReturnCode>)
    ensures
        refused_as(r, jwt_refusal(validation_view(validation))),
{
    match validation {
        Ok(true) => None,
        Ok(false) => Some(ReturnCode { success: false, payload: Some(String::from_str("jwt expired")), control_block: None }),
        Err(e) => {
            let mut t = String::from_str("invalid jwt: ");
            t.append(e.message.as_str());
            Some(ReturnCode { success: false, payload: Some(t), control_block: None })
        },
    }
}

/// `r` is what `jwt_gate` answers for some outcome of checking the token `jwt`.
pub open spec fn gated_by_check(jwt: Seq<char>, r: Option<ReturnCode>) -> bool {
    exists|v: Result<bool, TokenError>| #[trigger] token_check_outcome(jwt, v)
        && refused_as(r, jwt_refusal(validation_view(v)))
}

/// Checks the token of `block` and answers as `jwt_gate` does for the outcome.
pub fn check_jwt(block: &ControlBlock) -> (r: Option<ReturnCode>)
    ensures
        gated_by_check(block.jwt@, r),
{
    let validation = block.validate_jwt();
    let r = jwt_gate(validation);
    assert(token_check_outcome(block.jwt@, validation) && refused_as(r, jwt_refusal(validation_view(validation))));
    r
}

/// The answer to an announced upload: the new file's number, or the database error.
pub fn presend_reply(created: Result<u32, String>) -> (rc: ReturnCode)
    ensures
        match created {
            Ok(id) => succeeded_with(rc, decimal(id as nat)),
            Err(e) => failed_with(rc, e@),
        },
{
    match created {
        Ok(id) => ReturnCode { success: true, payload: Some(decimal_string(id as u64)), control_block: None },
        Err(e) => ReturnCode { success: false, payload: Some(e), control_block: None },
    }
}

/// A name under `./storage/` for block `block_id` of file `file_id`, made unique by
/// a random UUID: `./storage/<file_id>-<block_id>_<uuid>`.
pub open spec fn block_name_with(file_id: u32, block_id: u64, uuid: Seq<char>) -> Seq<char> {
    "./storage/"@ + decimal(file_id as nat) + "-"@ + decimal(block_id as nat) + "_"@ + uuid
}

/// A UUID written in its hyphenated lower-case form: 36 characters, hyphens at
/// positions 8, 13, 18 and 23, lower-case hexadecimal digits elsewhere.
pub open spec fn is_hyphenated_uuid(u: Seq<char>) -> bool {
    &&& u.len() == 36
    &&& forall|i: int| 0 <= i < 36 ==> (if i == 8 || i == 13 || i == 18 || i == 23 {
        #[trigger] u[i] == '-'
    } else {
        ('0' as u32) <= (u[i] as u32) <= ('9' as u32) || ('a' as u32) <= (u[i] as u32) <= ('f' as u32)
    })
}

/// `uuid::Uuid::new_v4().to_string()`: a random UUID in its hyphenated lower-case
/// form (the crate's `Display` writes `LowerHex`, hyphenated). Which UUID comes out
/// is not claimed; the call panics if the system's random source fails.
#[verifier::external_body]
fn uuid_v4_text() -> (u: String)
    ensures
        is_hyphenated_uuid(u@),
{
    uuid::Uuid::new_v4().to_string()
}

/// Names the file that will hold a block.
pub fn make_block_name(file_id: u32, block_id: u64) -> (name: String)
    ensures
        exists|u: Seq<char>| is_hyphenated_uuid(u) && name@ == block_name_with(file_id, block_id, u),
{
    let uuid = uuid_v4_text();
    let mut name = String::from_str("./storage/");
    name.append(decimal_string(file_id as u64).as_str());
    name.append("-");
    name.append(decimal_string(block_id).as_str());
    name.append("_");
    name.append(uuid.as_str());
    assert(name@ == block_name_with(file_id, block_id, uuid@));
    name
}

/// What the checks on a block answer: the refusal of its token check, if any;
/// else `name` when its payload's CRC-32 is the announced checksum (`checksum_ok`),
/// else a `wrong checksum` refusal.
pub open spec fn send_answer(refusal: Option<Seq<char>>, checksum_ok: bool, name: Seq<char>, r: Result<String, ReturnCode>) -> bool {
    match refusal {
        Some(t) => r matches Err(rc) && failed_with(rc, t),
        None => if checksum_ok {
            r matches Ok(n) && n@ == name
        } else {
            r matches Err(rc) && failed_with(rc, "wrong checksum"@)
        },
    }
}

/// The payload of `req` has the CRC-32 that `req` announces.
pub open spec fn checksum_matches(req: &SendReq) -> bool {
    req.block_checksum == crc32_iso_hdlc(req.block_payload@)
}

/// Decides on a block given the outcome of its token check: refused as
/// `jwt_gate` says, else stored under `name` when its payload's CRC-32 is the
/// announced checksum, else refused with `wrong checksum`.
pub fn send_decision(validation: Result<bool, TokenError>, req: &SendReq, name: String) -> (r: Result<String, ReturnCode>)
    ensures
        send_answer(jwt_refusal(validation_view(validation)), checksum_matches(req), name@, r),
{
    match jwt_gate(validation) {
        Some(rc) => Err(rc),
        None => {
            if req.block_checksum != crc32_checksum(req.block_payload.as_slice()) {
                Err(ReturnCode { success: false, payload: Some(String::from_str("wrong checksum")), control_block: None })
            } else {
                Ok(name)
            }
        },
    }
}

/// The checks a block passes before it is stored: a valid token, then a payload
/// whose CRC-32 is the announced checksum. Gives the name to store it under, made
/// once the token has passed.
pub fn send_check(block: &ControlBlock, req: &SendReq) -> (r: Result<String, ReturnCode>)
    ensures
        exists|v: Result<bool, TokenError>, u: Seq<char>| #[trigger] token_check_outcome(block.jwt@, v)
            && is_hyphenated_uuid(u)
            && #[trigger] send_answer(jwt_refusal(validation_view(v)), checksum_matches(req),
                block_name_with(req.file_id, req.block_id, u), r),
{
    let validation = block.validate_jwt();
    let passed = match validation {
        Ok(b) => b,
        Err(_) => false,
    };
    let name = if passed {
        make_block_name(req.file_id, req.block_id)
    } else {
        String::new()
    };
    let ghost u: Seq<char> = if passed {
        choose|u: Seq<char>| is_hyphenated_uuid(u) && name@ == block_name_with(req.file_id, req.block_id, u)
    } else {
        choose|u: Seq<char>| is_hyphenated_uuid(u)
    };
    proof {
        if !passed {
            let w: Seq<char> = Seq::new(36, |i: int| if i == 8 || i == 13 || i == 18 || i == 23 { '-' } else { '0' });
            assert(is_hyphenated_uuid(w));
        }
    }
    let r = send_decision(validation, req, name);
    assert(token_check_outcome(block.jwt@, validation) && is_hyphenated_uuid(u)
        && send_answer(jwt_refusal(validation_view(validation)), checksum_matches(req),
            block_name_with(req.file_id, req.block_id, u), r));
    r
}

} // verus!
