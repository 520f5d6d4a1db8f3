use vstd::prelude::*;
use crate::engine::return_code::{ReturnCode, succeeded_with};

pub mod download;
pub mod info;
pub mod upload;
pub mod user;

verus! {

/// Answers a ping with `pong: ` followed by what was sent.
pub fn ping(payload: &str) -> (rc: ReturnCode)
    ensures
        succeeded_with(rc, "pong: "@ + payload@),
{
    let mut text = String::from_str("pong: ");
    text.append(payload);
    ReturnCode { success: true, payload: Some(text), control_block: None }
}

} // verus!
