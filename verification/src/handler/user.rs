use vstd::prelude::*;
use crate::control_block::{ControlBlock, token_for, spec_validate_at, spec_unexpired, refreshed_at, refresh_jwt_at, TOKEN_LIFETIME_SECS, MAX_TIMESTAMP, answered_at_some_time, refused_at_some_time, refreshed_from, checks_out_until_expiry};
use crate::engine::return_code::{ReturnCode, failed_with, succeeded_with};
use crate::control_block::TokenError;
use crate::handler::upload::jwt_gate;

verus! {

/// Asks to create an account.
pub struct RegisterReq {
    pub user_name: String,
    pub password: String,
}

/// Asks to log in.
pub struct LoginReq {
    pub user_name: String,
    pub password: String,
}

/// A successful answer whose only content is a control block holding a token
/// freshly issued to `user_name`, which checks out with `user_name` and its expiry
/// until a minute past that expiry.
pub open spec fn grants_token(rc: ReturnCode, user_name: Seq<char>) -> bool {
    &&& rc.success
    &&& rc.payload is None
    &&& rc.control_block matches Some(b) && b.jwt@ == token_for(user_name, b.exp)
        && TOKEN_LIFETIME_SECS <= b.exp < MAX_TIMESTAMP + TOKEN_LIFETIME_SECS
        && checks_out_until_expiry(b.jwt@, user_name, b.exp)
}

/// Answers a ping with `payload: {` what was sent `}`.
pub fn ping(payload: &str) -> (rc: ReturnCode)
    ensures
        succeeded_with(rc, "payload: {"@ + payload@ + "}"@),
{
    let mut text = String::from_str("payload: {");
    text.append(payload);
    text.append("}");
    ReturnCode { success: true, payload: Some(text), control_block: None }
}

/// The answer to a registration once the database has stored (or refused) the
/// account: a token for the new user, or the database error.
pub fn register_reply(stored: Result<(), String>, user_name: &str) -> (rc: ReturnCode)
    ensures
        match stored {
            Ok(_) => grants_token(rc, user_name@),
            Err(e) => failed_with(rc, e@),
        },
{
    match stored {
        Err(e) => ReturnCode { success: false, payload: Some(e), control_block: None },
        Ok(_) => {
            let block = ControlBlock::from_user_name(user_name);
            ReturnCode { success: true, payload: None, control_block: Some(block) }
        },
    }
}

/// The answer to a login once the database has checked the password: a token when
/// it matched, `login failed` when it did not, or the database error.
pub fn login_reply(checked: Result<bool, String>, user_name: &str) -> (rc: ReturnCode)
    ensures
        match checked {
            Ok(true) => grants_token(rc, user_name@),
            Ok(false) => failed_with(rc, "login failed"@),
            Err(e) => failed_with(rc, e@),
        },
{
    match checked {
        Err(e) => ReturnCode { success: false, payload: Some(e), control_block: None },
        Ok(false) => ReturnCode { success: false, payload: Some(String::from_str("login failed")), control_block: None },
        Ok(true) => {
            let block = ControlBlock::from_user_name(user_name);
            ReturnCode { success: true, payload: None, control_block: Some(block) }
        },
    }
}

/// What a refresh of the token `jwt` answers: on success, the block with a token
/// freshly issued to the token's user, after the token was found unexpired; on a
/// refusal, `invalid jwt: ` and the error when the token does not check out,
/// `jwt expired` when it has expired, or `refresh jwt err: ` and the error when
/// the renewal's own check refused it.
pub open spec fn refresh_answer(jwt: Seq<char>, rc: ReturnCode) -> bool {
    if rc.success {
        &&& rc.payload is None
        &&& answered_at_some_time(jwt, true)
        &&& rc.control_block matches Some(b) && refreshed_from(jwt, b)
    } else {
        &&& rc.control_block is None
        &&& rc.payload matches Some(p) && {
            ||| exists|m: Seq<char>| #[trigger] refused_at_some_time(jwt, m) && p@ == "invalid jwt: "@ + m
            ||| answered_at_some_time(jwt, false) && p@ == "jwt expired"@
            ||| answered_at_some_time(jwt, true)
                && exists|m: Seq<char>| #[trigger] refused_at_some_time(jwt, m) && p@ == "refresh jwt err: "@ + m
        }
    }
}

/// The answer when renewing a token that checked out failed: `refresh jwt err: `
/// and the error's text.
pub fn refresh_failed_reply(e: TokenError) -> (rc: ReturnCode)
    ensures
        failed_with(rc, "refresh jwt err: "@ + e.message@),
{
    let mut t = String::from_str("refresh jwt err: ");
    t.append(e.message.as_str());
    ReturnCode { success: false, payload: Some(t), control_block: None }
}

/// The answer to a refresh: when the token checks out and has not expired, the
/// block with a fresh token for the same user; otherwise the refusal that
/// `jwt_gate` gives, or the renewal's error.
pub fn refresh_reply(block: ControlBlock) -> (rc: ReturnCode)
    ensures
        refresh_answer(block.jwt@, rc),
{
    let ghost jwt = block.jwt@;
    let mut block = block;
    let v = block.validate_jwt();
    let ghost outcome = v;
    match jwt_gate(v) {
        Some(rc) => {
            proof {
                match outcome {
                    Err(e) => {
                        assert(refused_at_some_time(jwt, e.message@));
                    },
                    _ => {},
                }
            }
            rc
        },
        None => match block.refresh_jwt() {
            Err(e) => {
                proof {
                    assert(refused_at_some_time(jwt, e.message@));
                }
                refresh_failed_reply(e)
            },
            Ok(()) => ReturnCode { success: true, payload: None, control_block: Some(block) },
        },
    }
}

/// A successful answer whose only content is a control block holding a token
/// issued to `user_name` at second `now`: it expires 24 hours later and checks out
/// with `user_name` and that expiry until a minute past it.
pub open spec fn grants_token_at(rc: ReturnCode, user_name: Seq<char>, now: i64) -> bool {
    &&& rc.success
    &&& rc.payload is None
    &&& rc.control_block matches Some(b) && b.exp == now + TOKEN_LIFETIME_SECS
        && b.jwt@ == token_for(user_name, b.exp) && checks_out_until_expiry(b.jwt@, user_name, b.exp)
}

/// The answer to a login checked at second `now`: a token issued at `now` when the
/// password matched, `login failed` when it did not, or the database error.
pub fn login_reply_at(checked: Result<bool, String>, user_name: &str, now: i64) -> (rc: ReturnCode)
    requires
        0 <= now < MAX_TIMESTAMP,
    ensures
        match checked {
            Ok(true) => grants_token_at(rc, user_name@, now),
            Ok(false) => failed_with(rc, "login failed"@),
            Err(e) => failed_with(rc, e@),
        },
{
    match checked {
        Err(e) => ReturnCode { success: false, payload: Some(e), control_block: None },
        Ok(false) => ReturnCode { success: false, payload: Some(String::from_str("login failed")), control_block: None },
        Ok(true) => {
            let block = ControlBlock::from_user_name_at(user_name, now);
            ReturnCode { success: true, payload: None, control_block: Some(block) }
        },
    }
}

/// The answer to a registration stored (or refused) at second `now`: a token for
/// the new user issued at `now`, or the database error.
pub fn register_reply_at(stored: Result<(), String>, user_name: &str, now: i64) -> (rc: ReturnCode)
    requires
        0 <= now < MAX_TIMESTAMP,
    ensures
        match stored {
            Ok(_) => grants_token_at(rc, user_name@, now),
            Err(e) => failed_with(rc, e@),
        },
{
    match stored {
        Err(e) => ReturnCode { success: false, payload: Some(e), control_block: None },
        Ok(_) => {
            let block = ControlBlock::from_user_name_at(user_name, now);
            ReturnCode { success: true, payload: None, control_block: Some(block) }
        },
    }
}

/// The answer to a refresh at second `now`: `invalid jwt: ` and the error when the
/// token does not check out then, `jwt expired` when its expiry has passed, else
/// a block with a token issued at `now` to the token's user.
pub fn refresh_reply_at(block: ControlBlock, now: i64) -> (rc: ReturnCode)
    requires
        0 <= now < MAX_TIMESTAMP,
    ensures
        match spec_validate_at(block.jwt@, now) {
            Err(m) => failed_with(rc, "invalid jwt: "@ + m),
            Ok((_, exp)) => if spec_unexpired(exp, now) {
                &&& rc.success
                &&& rc.payload is None
                &&& rc.control_block matches Some(b) && refreshed_at(block.jwt@, now, b.jwt@, b.exp)
            } else {
                failed_with(rc, "jwt expired"@)
            },
        },
{
    let v = block.validate_jwt_at(now);
    match jwt_gate(v) {
        Some(rc) => rc,
        None => match refresh_jwt_at(block.jwt.as_str(), now) {
            Err(e) => refresh_failed_reply(e),
            Ok((jwt, exp)) => ReturnCode { success: true, payload: None, control_block: Some(ControlBlock { jwt, exp }) },
        },
    }
}

/// A login or registration at second `now` grants a token that expires exactly 24
/// hours after `now`, and a refresh of that token at any later second `t` up to its
/// expiry succeeds with a token for the same user that expires 24 hours after `t`,
/// so strictly later than the first when `t` is after `now`.
pub proof fn law_login_then_refresh(user_name: Seq<char>, now: i64, rc: ReturnCode, t: i64, refreshed: ReturnCode)
    requires
        0 <= now <= t < MAX_TIMESTAMP,
        grants_token_at(rc, user_name, now),
        t <= now + TOKEN_LIFETIME_SECS,
        match spec_validate_at(rc.control_block.unwrap().jwt@, t) {
            Err(m) => failed_with(refreshed, "invalid jwt: "@ + m),
            Ok((_, exp)) => if spec_unexpired(exp, t) {
                &&& refreshed.success
                &&& refreshed.payload is None
                &&& refreshed.control_block matches Some(b) && refreshed_at(rc.control_block.unwrap().jwt@, t, b.jwt@, b.exp)
            } else {
                failed_with(refreshed, "jwt expired"@)
            },
        },
        now + TOKEN_LIFETIME_SECS <= usize::MAX,
    ensures
        rc.control_block.unwrap().exp == now + TOKEN_LIFETIME_SECS,
        refreshed.success,
        refreshed.control_block matches Some(b) && b.exp == t + TOKEN_LIFETIME_SECS
            && b.jwt@ == token_for(user_name, b.exp) && checks_out_until_expiry(b.jwt@, user_name, b.exp),
        now < t ==> refreshed.control_block.unwrap().exp > rc.control_block.unwrap().exp,
{
    let b = rc.control_block.unwrap();
    assert((b.exp as usize) as int == b.exp);
    assert((t as usize) as int == t);
    assert(spec_validate_at(b.jwt@, t) == crate::control_block::claims_read(user_name, (b.exp as usize) as nat));
}

} // verus!
