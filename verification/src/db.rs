use vstd::prelude::*;

verus! {

/// The timestamp type of `chrono` that the database rows carry; it is passed along
/// untouched.
#[verifier::external_type_specification]
#[verifier::external_body]
pub struct ExNaiveDateTime(chrono::NaiveDateTime);

/// A stored block of an uploaded file: where its bytes lie and how to check them.
pub struct FileBlock {
    pub id: i32,
    pub file_id: i32,
    pub block_name: String,
    pub block_id: i64,
    pub block_checksum: u32,
    pub block_size: u32,
    pub created_at: chrono::NaiveDateTime,
}

/// A file's record. Its status is 0 while it is being uploaded, 1 once finished
/// and 2 once deleted.
pub struct FileInfo {
    pub id: i32,
    pub file_name: String,
    pub file_size: i64,
    pub file_checksum: u32,
    pub file_status: i32,
    pub created_at: chrono::NaiveDateTime,
}

/// A registered user.
pub struct User {
    pub id: i32,
    pub user_name: String,
    pub password: String,
    pub created_at: chrono::NaiveDateTime,
}

/// The status of a file whose upload has finished.
pub const FILE_FINISHED: i32 = 1;

} // verus!
