use vstd::prelude::*;
use vstd::utf8::encode_utf8;
use crate::control_block::{ControlBlock, TokenError, token_check_outcome};
use crate::engine::return_code::ReturnCode;
use crate::text::{split_spaces, split_chars, chars_of, lemma_split_nonempty};
use crate::codec::{crc32_checksum, crc32_iso_hdlc, string_of};

verus! {

/// The content of a direct upload: the target file, how much of it was already
/// sent, and the block with its checksum.
pub struct FileContentBlock {
    pub file_name: String,
    pub file_checksum: u32,
    pub file_transferred: usize,
    pub block_checksum: u32,
    pub block_payload: String,
}

/// A failed answer with `payload` that hands `block` back.
pub open spec fn failed_keeping(rc: ReturnCode, payload: Seq<char>, block: ControlBlock) -> bool {
    &&& !rc.success
    &&& rc.payload matches Some(p) && p@ == payload
    &&& rc.control_block == Some(block)
}

/// The CRC-32 of the UTF-8 bytes of `payload`.
fn checksum(payload: &str) -> (c: u32)
    ensures
        c == crc32_iso_hdlc(encode_utf8(payload@)),
{
    crc32_checksum(payload.as_bytes())
}

/// Splits a direct upload `method block content` into its block and content
/// texts; anything but three pieces is refused with `invalid params`.
pub fn split_send_request(payload: &str) -> (r: Result<(String, String), ReturnCode>)
    ensures
        split_spaces(payload@).len() == 3 <==> r is Ok,
        r matches Ok((b, c)) ==> b@ == split_spaces(payload@)[1] && c@ == split_spaces(payload@)[2],
        r matches Err(rc) ==> !rc.success && rc.control_block is None
            && (rc.payload matches Some(p) && p@ == "invalid params"@),
{
    let chars = chars_of(payload);
    let parts = split_chars(&chars);
    proof {
        lemma_split_nonempty(payload@);
    }
    if parts.len() != 3 {
        return Err(ReturnCode { success: false, payload: Some(String::from_str("invalid params")), control_block: None });
    }
    Ok((string_of(parts[1].as_slice()), string_of(parts[2].as_slice())))
}

/// What the token check of a direct upload answers for the check's outcome `v`.
pub open spec fn token_answer(v: Result<bool, TokenError>, block: ControlBlock, r: Result<ControlBlock, ReturnCode>) -> bool {
    match v {
        Ok(true) => r == Ok::<ControlBlock, ReturnCode>(block),
        Ok(false) => r matches Err(rc) && failed_keeping(rc, "jwt expired"@, block),
        Err(e) => r matches Err(rc) && failed_keeping(rc, "invalid jwt: "@ + e.message@, block),
    }
}

/// The answer to a direct upload's token check, given its outcome: the block back
/// on a valid token, else a refusal that hands the block back.
pub fn token_gate(validation: Result<bool, TokenError>, block: ControlBlock) -> (r: Result<ControlBlock, ReturnCode>)
    ensures
        token_answer(validation, block, r),
{
    match validation {
        Ok(true) => Ok(block),
        Ok(false) => Err(ReturnCode { success: false, payload: Some(String::from_str("jwt expired")), control_block: Some(block) }),
        Err(e) => {
            let mut t = String::from_str("invalid jwt: ");
            t.append(e.message.as_str());
            Err(ReturnCode { success: false, payload: Some(t), control_block: Some(block) })
        },
    }
}

/// Checks the token of a direct upload and answers as `token_gate` does for the
/// outcome.
pub fn check_token(block: ControlBlock) -> (r: Result<ControlBlock, ReturnCode>)
    ensures
        exists|v: Result<bool, TokenError>| #[trigger] token_check_outcome(block.jwt@, v) && token_answer(v, block, r),
{
    let v = block.validate_jwt();
    let ghost outcome = v;
    let ghost jwt = block.jwt@;
    let ghost kept = block;
    let r = token_gate(v, block);
    assert(token_check_outcome(jwt, outcome) && token_answer(outcome, kept, r));
    r
}

/// The checksum check of a direct upload: the CRC-32 of the content text must be
/// the announced checksum; a refusal hands the block back.
pub fn check_checksum(block: ControlBlock, block_checksum: u32, content: &str) -> (r: Result<ControlBlock, ReturnCode>)
    ensures
        r is Ok <==> block_checksum == crc32_iso_hdlc(encode_utf8(content@)),
        r matches Ok(b) ==> b == block,
        r matches Err(rc) ==> failed_keeping(rc, "错误的checksum"@, block),
{
    if block_checksum != checksum(content) {
        return Err(ReturnCode { success: false, payload: Some(String::from_str("错误的checksum")), control_block: Some(block) });
    }
    Ok(block)
}

/// A direct upload whose control block cannot be read: a failure carrying
/// `invalid control block: ` and the reading error's text, with no block.
pub fn control_block_refusal(error: &str) -> (rc: ReturnCode)
    ensures
        !rc.success,
        rc.payload matches Some(p) && p@ == "invalid control block: "@ + error@,
        rc.control_block is None,
{
    let mut t = String::from_str("invalid control block: ");
    t.append(error);
    ReturnCode { success: false, payload: Some(t), control_block: None }
}

/// A direct upload whose content cannot be read: a failure carrying
/// `invalid payload: ` and the reading error's text, handing the block back.
pub fn payload_refusal(error: &str, block: ControlBlock) -> (rc: ReturnCode)
    ensures
        failed_keeping(rc, "invalid payload: "@ + error@, block),
{
    let mut t = String::from_str("invalid payload: ");
    t.append(error);
    ReturnCode { success: false, payload: Some(t), control_block: Some(block) }
}

/// A stored direct upload: a success with no text, handing the block back.
pub fn upload_reply(block: ControlBlock) -> (rc: ReturnCode)
    ensures
        rc.success,
        rc.payload is None,
        rc.control_block == Some(block),
{
    ReturnCode { success: true, payload: None, control_block: Some(block) }
}

} // verus!
