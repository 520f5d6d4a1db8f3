use vstd::prelude::*;
use crate::db::FileBlock;

verus! {

/// Asks for the numbers of the blocks of a file.
pub struct GetBlockIdsByFileIdReq {
    pub file_id: i32,
}

/// The numbers of the blocks of a file.
pub struct GetBlockIdsByFileIdResp {
    pub block_ids: Vec<i32>,
}

/// Asks for one block, by its number.
pub struct GetBlockReq {
    pub block_id: i32,
}

/// A block's record together with its bytes.
pub struct GetBlockResp {
    pub block_info: FileBlock,
    pub block_data: Vec<u8>,
}

} // verus!
