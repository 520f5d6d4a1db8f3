use vstd::prelude::*;
use crate::control_block::{ControlBlock, TokenError, token_check_outcome};
use crate::engine::return_code::{ReturnCode, failed_with};
use crate::db::{FileInfo, FILE_FINISHED};
use crate::text::{occurs_in, contains_text};
use crate::handler::upload::{refused_as, validation_view};

verus! {

/// Asks for the finished files whose names contain `filter`.
pub struct ListFileReq {
    pub filter: String,
}

/// The files a listing found.
pub struct ListFileResp {
    pub file_info: Vec<FileInfo>,
}

/// Asks to delete a file.
pub struct DeleteFileReq {
    pub file_id: i32,
}

/// Asks for one file's record.
pub struct GetFileInfoReq {
    pub file_id: i32,
}

/// A file is listed when its upload has finished and its name contains the filter.
pub open spec fn is_listed(f: FileInfo, filter: Seq<char>) -> bool {
    f.file_status == FILE_FINISHED && occurs_in(f.file_name@, filter)
}

/// The listed files among `files`, in their order.
pub open spec fn listed(files: Seq<FileInfo>, filter: Seq<char>) -> Seq<FileInfo>
    decreases files.len(),
{
    if files.len() == 0 {
        Seq::empty()
    } else if is_listed(files[0], filter) {
        seq![files[0]] + listed(files.drop_first(), filter)
    } else {
        listed(files.drop_first(), filter)
    }
}

/// Keeps, in order, the files whose upload has finished and whose names contain
/// `filter`.
pub fn select_files(files: Vec<FileInfo>, filter: &str) -> (kept: Vec<FileInfo>)
    ensures
        kept@ == listed(files@, filter@),
{
    let mut rest = files;
    let mut kept: Vec<FileInfo> = Vec::new();
    let ghost all = rest@;
    while rest.len() > 0
        invariant
            kept@ + listed(rest@, filter@) == listed(all, filter@),
        decreases rest@.len(),
    {
        let ghost before = rest@;
        let f = rest.remove(0);
        assert(rest@ =~= before.drop_first());
        let keep = f.file_status == FILE_FINISHED && contains_text(f.file_name.as_str(), filter);
        if keep {
            assert(kept@.push(f) + listed(rest@, filter@) =~= kept@ + listed(before, filter@));
            kept.push(f);
        }
    }
    assert(kept@ + listed(rest@, filter@) =~= kept@);
    kept
}

/// The text `filter` is found in `name` at some position.
pub open spec fn found_at_some_position(name: Seq<char>, filter: Seq<char>) -> bool {
    exists|i: int| 0 <= i && i + filter.len() <= name.len() && #[trigger] name.subrange(i, i + filter.len()) == filter
}

/// A sequence holds `x` exactly when `x` is its first item or its rest holds `x`.
proof fn lemma_contains_first_or_rest<A>(s: Seq<A>, x: A)
    requires
        s.len() > 0,
    ensures
        s.contains(x) <==> (x == s[0] || s.drop_first().contains(x)),
{
    if s.contains(x) {
        let k = choose|k: int| 0 <= k < s.len() && s[k] == x;
        if k > 0 {
            assert(s.drop_first()[k - 1] == x);
        }
    }
    if s.drop_first().contains(x) {
        let k = choose|k: int| 0 <= k < s.drop_first().len() && s.drop_first()[k] == x;
        assert(s[k + 1] == x);
    }
    if x == s[0] {
        assert(s[0] == x);
    }
}

/// The spec search `occurs_in` is the same as finding the text at some position.
proof fn lemma_occurs_in_found(name: Seq<char>, filter: Seq<char>)
    ensures
        occurs_in(name, filter) == found_at_some_position(name, filter),
{
    if occurs_in(name, filter) {
        let i = choose|i: int| 0 <= i <= name.len() - filter.len() && #[trigger] name.subrange(i, i + filter.len()) == filter;
        assert(name.subrange(i, i + filter.len()) == filter);
    }
    if found_at_some_position(name, filter) {
        let i = choose|i: int| 0 <= i && i + filter.len() <= name.len() && #[trigger] name.subrange(i, i + filter.len()) == filter;
        assert(name.subrange(i, i + filter.len()) == filter);
    }
}

/// A listing keeps exactly the files of `files` whose upload has finished (status
/// 1) and whose name holds `filter` at some position; in particular a finished
/// file is found by its own full name.
pub proof fn law_listing_keeps_finished_matches(files: Seq<FileInfo>, filter: Seq<char>)
    ensures
        forall|f: FileInfo| #[trigger] listed(files, filter).contains(f) <==> (files.contains(f)
            && f.file_status == 1 && found_at_some_position(f.file_name@, filter)),
        forall|f: FileInfo| files.contains(f) && f.file_status == 1 && f.file_name@ == filter
            ==> #[trigger] listed(files, filter).contains(f),
    decreases files.len(),
{
    if files.len() > 0 {
        let rest = files.drop_first();
        let head = files[0];
        law_listing_keeps_finished_matches(rest, filter);
        lemma_occurs_in_found(head.file_name@, filter);
        assert forall|f: FileInfo| #[trigger] listed(files, filter).contains(f) <==> (files.contains(f)
            && f.file_status == 1 && found_at_some_position(f.file_name@, filter)) by {
            lemma_contains_first_or_rest(files, f);
            assert(listed(rest, filter).contains(f) <==> (rest.contains(f)
                && f.file_status == 1 && found_at_some_position(f.file_name@, filter)));
            if is_listed(head, filter) {
                let l = listed(files, filter);
                assert(l.drop_first() =~= listed(rest, filter));
                lemma_contains_first_or_rest(l, f);
            } else {
                assert(listed(files, filter) == listed(rest, filter));
            }
        }
    }
    assert forall|f: FileInfo| files.contains(f) && f.file_status == 1 && f.file_name@ == filter
        implies #[trigger] listed(files, filter).contains(f) by {
        let i: int = 0;
        assert(f.file_name@.subrange(i, i + filter.len()) =~= filter);
        assert(found_at_some_position(f.file_name@, filter));
        if files.len() == 0 {
            assert(!files.contains(f));
        }
    }
}

/// Why a deletion is refused after checking its token: `None` lets it through.
pub open spec fn delete_refusal(validation: Result<bool, Seq<char>>) -> Option<Seq<char>> {
    match validation {
        Ok(true) => None,
        Ok(false) => Some("jwt validate failed"@),
        Err(e) => Some(e),
    }
}

/// The answer to a deletion's token check, given its outcome: nothing on a valid
/// token; else a failed answer with `jwt validate failed` when it has expired, or
/// the error's text.
pub fn delete_gate(validation: Result<bool, TokenError>) -> (r: Option<ReturnCode>)
    ensures
        refused_as(r, delete_refusal(validation_view(validation))),
{
    match validation {
        Ok(true) => None,
        Ok(false) => Some(ReturnCode { success: false, payload: Some(String::from_str("jwt validate failed")), control_block: None }),
        Err(e) => Some(ReturnCode { success: false, payload: Some(e.message), control_block: None }),
    }
}

/// Checks the token of a deletion and answers as `delete_gate` does for the
/// outcome.
pub fn delete_check(block: &ControlBlock) -> (r: Option<ReturnCode>)
    ensures
        exists|v: Result<bool, TokenError>| #[trigger] token_check_outcome(block.jwt@, v)
            && refused_as(r, delete_refusal(validation_view(v))),
{
    let v = block.validate_jwt();
    let ghost outcome = v;
    let r = delete_gate(v);
    assert(token_check_outcome(block.jwt@, outcome) && refused_as(r, delete_refusal(validation_view(outcome))));
    r
}

} // verus!
