use vstd::prelude::*;
use crate::control_block::ControlBlock;

verus! {

/// What a handler answers: whether the request succeeded, an optional text for
/// the client and an optional control block (a token) to hand back.
#[derive(Clone, Debug)]
pub struct ReturnCode {
    pub success: bool,
    pub payload: Option<String>,
    pub control_block: Option<ControlBlock>,
}

/// A failed answer that carries `payload` and no control block.
pub open spec fn failed_with(rc: ReturnCode, payload: Seq<char>) -> bool {
    &&& !rc.success
    &&& rc.payload matches Some(p) && p@ == payload
    &&& rc.control_block is None
}

/// A successful answer that carries `payload` and no control block.
pub open spec fn succeeded_with(rc: ReturnCode, payload: Seq<char>) -> bool {
    &&& rc.success
    &&& rc.payload matches Some(p) && p@ == payload
    &&& rc.control_block is None
}

/// A successful answer with neither payload nor control block.
pub open spec fn succeeded_bare(rc: ReturnCode) -> bool {
    &&& rc.success
    &&& rc.payload is None
    &&& rc.control_block is None
}

/// The answer to a step whose only outcome is done or an error text (a database
/// write or delete): a bare success, or a failure carrying the error's text.
pub fn outcome_reply(outcome: Result<(), String>) -> (rc: ReturnCode)
    ensures
        match outcome {
            Ok(()) => succeeded_bare(rc),
            Err(e) => failed_with(rc, e@),
        },
{
    match outcome {
        Ok(()) => ReturnCode { success: true, payload: None, control_block: None },
        Err(e) => ReturnCode { success: false, payload: Some(e), control_block: None },
    }
}

} // verus!
