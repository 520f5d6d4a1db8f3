use vstd::prelude::*;
use vstd::utf8::{valid_utf8, decode_utf8};
use crate::text::{split_spaces, split_chars, chars_of, lemma_split_nonempty};
use crate::codec::{base64_decode, base64_standard_decode, utf8_decode, utf8_error_text, string_of};

verus! {

/// The error type of `jsonwebtoken`, carried through unchanged.
#[verifier::external_type_specification]
#[verifier::external_body]
pub struct ExJwtError(jsonwebtoken::errors::Error);

/// The token that `jsonwebtoken::encode` produces for an HS256 header, the claims
/// object `{"user_name": user_name, "exp": exp}` and the HMAC secret `key`.
pub uninterp spec fn jwt_hs256_token(key: Seq<u8>, user_name: Seq<char>, exp: nat) -> Seq<char>;

/// What `jsonwebtoken::decode` reads from `token` with `DecodingKey::from_secret(key)`
/// and an HS256 validation that leaves the expiry unchecked: the claims `user_name`
/// and `exp`, or the text of the error.
pub uninterp spec fn jwt_hs256_claims(key: Seq<u8>, token: Seq<char>) -> Result<(Seq<char>, nat), Seq<char>>;

/// The header of a request and of a reply: the session token and the second at
/// which it expires.
#[derive(Debug, Clone)]
pub struct ControlBlock {
    pub jwt: String,
    pub exp: i64,
}

/// Why a token could not be checked or renewed: the text of the token library's
/// error.
#[derive(Debug, Clone)]
pub struct TokenError {
    pub message: String,
}

/// The claims a token carries: who it was issued to and when it expires.
#[derive(Debug)]
pub struct Claims {
    pub user_name: String,
    pub exp: usize,
}

/// Seconds in the 24 hours for which an issued token stays valid.
pub const TOKEN_LIFETIME_SECS: i64 = 86400;

/// Seconds past its expiry for which a token is still accepted.
pub const EXPIRY_LEEWAY_SECS: i64 = 60;

/// Upper bound (exclusive) on the timestamps that `chrono` can represent.
pub const MAX_TIMESTAMP: i64 = 10_000_000_000_000;

/// The bytes of the key that signs and checks every token.
pub open spec fn secret_key_bytes() -> Seq<u8> {
    seq![115u8, 101, 99, 114, 101, 116, 32, 107, 101, 121, 32, 100, 101, 109, 111]
}

/// The token issued to `user_name` that expires at second `exp` (the expiry is
/// written as a `usize`).
pub open spec fn token_for(user_name: Seq<char>, exp: i64) -> Seq<char> {
    jwt_hs256_token(secret_key_bytes(), user_name, (exp as usize) as nat)
}

/// Claims read as `user_name` and `exp`.
pub open spec fn claims_read(user_name: Seq<char>, exp: nat) -> Result<(Seq<char>, nat), Seq<char>> {
    Ok((user_name, exp))
}

/// A token refused with the error text `message`.
pub open spec fn claims_refused(message: Seq<char>) -> Result<(Seq<char>, nat), Seq<char>> {
    Err(message)
}

/// What checking `token` at second `now` gives: its claims when it is signed with
/// the secret key, well formed, and at most a minute past its expiry; else the
/// error's text.
pub open spec fn spec_validate_at(token: Seq<char>, now: i64) -> Result<(Seq<char>, nat), Seq<char>> {
    match jwt_hs256_claims(secret_key_bytes(), token) {
        Err(m) => Err(m),
        Ok((user_name, exp)) => if exp < now - EXPIRY_LEEWAY_SECS {
            Err("ExpiredSignature"@)
        } else {
            Ok((user_name, exp))
        },
    }
}

/// The characters of a token check's result.
pub open spec fn claims_view(r: Result<Claims, TokenError>) -> Result<(Seq<char>, nat), Seq<char>> {
    match r {
        Ok(c) => Ok((c.user_name@, c.exp as nat)),
        Err(e) => Err(e.message@),
    }
}

/// A token's claimed expiry has not passed at second `now`.
pub open spec fn spec_unexpired(claims_exp: nat, now: i64) -> bool {
    !(claims_exp < (now as usize))
}

/// `b` answers whether checked claims `claims` are unexpired at second `now`.
pub open spec fn unexpired_answer(claims: Result<(Seq<char>, nat), Seq<char>>, now: i64, b: bool) -> bool {
    claims matches Ok((_, exp)) && b == spec_unexpired(exp, now)
}

/// What checking a token and its expiry can answer, at some second of the clock:
/// whether the checked claims are unexpired, or the refusal's text.
pub open spec fn token_check_outcome(jwt: Seq<char>, r: Result<bool, TokenError>) -> bool {
    match r {
        Ok(b) => answered_at_some_time(jwt, b),
        Err(e) => refused_at_some_time(jwt, e.message@),
    }
}

/// At some second `now` the token's claims checked out and their expiry gave `b`.
pub open spec fn answered_at_some_time(jwt: Seq<char>, b: bool) -> bool {
    exists|now: i64| 0 <= now < MAX_TIMESTAMP && #[trigger] unexpired_answer(spec_validate_at(jwt, now), now, b)
}

/// At some second the token was refused with `message`.
pub open spec fn refused_at_some_time(jwt: Seq<char>, message: Seq<char>) -> bool {
    exists|checked: i64| 0 <= checked < MAX_TIMESTAMP
        && #[trigger] spec_validate_at(jwt, checked) == claims_refused(message)
}

/// Until a minute past second `exp` the token `jwt` checks out, giving back
/// `user_name` and `exp` as its claims.
pub open spec fn checks_out_until_expiry(jwt: Seq<char>, user_name: Seq<char>, exp: i64) -> bool {
    forall|later: i64| later <= (exp as usize) + EXPIRY_LEEWAY_SECS ==> #[trigger] spec_validate_at(jwt, later)
        == claims_read(user_name, (exp as usize) as nat)
}

/// Checking `old_jwt` at second `now` gave the claims of some user, and `new_jwt`
/// is the token issued to that user at `now`: it expires 24 hours later, at `exp`,
/// and until a minute past `exp` it checks out with that user and `exp`.
pub open spec fn refreshed_at(old_jwt: Seq<char>, now: i64, new_jwt: Seq<char>, exp: i64) -> bool {
    &&& exp == now + TOKEN_LIFETIME_SECS
    &&& spec_validate_at(old_jwt, now) matches Ok((user_name, _))
    &&& new_jwt == token_for(user_name, exp)
    &&& checks_out_until_expiry(new_jwt, user_name, exp)
}

/// `new_jwt`, expiring at `exp`, was issued in place of `old_jwt` at some second of
/// the clock (see `refreshed_at`).
pub open spec fn renewed(old_jwt: Seq<char>, new_jwt: Seq<char>, exp: i64) -> bool {
    exists|now: i64| 0 <= now < MAX_TIMESTAMP && #[trigger] refreshed_at(old_jwt, now, new_jwt, exp)
}

/// `block` holds a token renewed from `old_jwt` (see `renewed`).
pub open spec fn refreshed_from(old_jwt: Seq<char>, block: ControlBlock) -> bool {
    renewed(old_jwt, block.jwt@, block.exp)
}

/// `chrono::Utc::now().timestamp()`: the current second since the Unix epoch.
/// Claimed: it is not negative and lies inside `chrono`'s range of dates. Which
/// second it is, is not claimed. `Utc::now` panics on a system clock before the
/// epoch or beyond that range, so not panicking here rests on the machine's clock.
#[verifier::external_body]
fn now_timestamp() -> (now: i64)
    ensures
        0 <= now < MAX_TIMESTAMP,
{
    chrono::Utc::now().timestamp()
}

/// `jsonwebtoken::encode` with an HS256 header, the claims object
/// `{"user_name": .., "exp": ..}` (built as a `serde_json::Map`, fields in that
/// order) and `EncodingKey::from_secret(key)`.
/// Claimed: it succeeds (the key family matches the algorithm, the JSON cannot fail
/// to serialise, and HMAC signing cannot fail); the token is the named
/// `jwt_hs256_token` of the key, the user name and the expiry; and decoding it with
/// the same key gives those claims back.
#[verifier::external_body]
fn jwt_encode_hs256(key: &[u8], user_name: &str, exp: usize) -> (r: Result<String, jsonwebtoken::errors::Error>)
    ensures
        r is Ok,
        r matches Ok(t) ==> t@ == jwt_hs256_token(key@, user_name@, exp as nat),
        r matches Ok(t) ==> jwt_hs256_claims(key@, t@) == claims_read(user_name@, exp as nat),
{
    let mut claims = serde_json::Map::new();
    claims.insert("user_name".to_string(), serde_json::Value::from(user_name));
    claims.insert("exp".to_string(), serde_json::Value::from(exp));
    let header = jsonwebtoken::Header::new(jsonwebtoken::Algorithm::HS256);
    jsonwebtoken::encode(&header, &claims, &jsonwebtoken::EncodingKey::from_secret(key))
}

/// `jsonwebtoken::decode` of `token` with `DecodingKey::from_secret(key)` and
/// `Validation::new(Algorithm::HS256)` with `validate_exp` off, reading the claims
/// `user_name` and `exp` with `serde_json::from_value`; an error is given as the
/// text of the `jsonwebtoken` error. Claimed: the result is the named
/// `jwt_hs256_claims` of the key and the token. Left unsaid: the claims are read
/// after the token library's own claim checks (required `exp`, `aud`), and through
/// `from_value`, so a signed token with a missing or mistyped claim gets a different
/// error text (and no line and column) than a direct read into a claims struct.
#[verifier::external_body]
fn jwt_decode_hs256(key: &[u8], token: &str) -> (r: Result<(String, usize), String>)
    ensures
        match r {
            Ok((user_name, exp)) => jwt_hs256_claims(key@, token@) == claims_read(user_name@, exp as nat),
            Err(m) => jwt_hs256_claims(key@, token@) == claims_refused(m@),
        },
{
    let mut validation = jsonwebtoken::Validation::new(jsonwebtoken::Algorithm::HS256);
    validation.validate_exp = false;
    let key = jsonwebtoken::DecodingKey::from_secret(key);
    let data = jsonwebtoken::decode::<serde_json::Map<String, serde_json::Value>>(token, &key, &validation).map_err(|e| e.to_string())?;
    let user_name: String = serde_json::from_value(data.claims.get("user_name").cloned().unwrap_or_default())
        .map_err(|e| jsonwebtoken::errors::Error::from(e).to_string())?;
    let exp: usize = serde_json::from_value(data.claims.get("exp").cloned().unwrap_or_default())
        .map_err(|e| jsonwebtoken::errors::Error::from(e).to_string())?;
    Ok((user_name, exp))
}

/// The text that `jsonwebtoken` displays for an expired token,
/// `ErrorKind::ExpiredSignature`: the kind's name.
#[verifier::external_body]
fn expired_signature_text() -> (t: String)
    ensures
        t@ == "ExpiredSignature"@,
{
    jsonwebtoken::errors::Error::from(jsonwebtoken::errors::ErrorKind::ExpiredSignature).to_string()
}

/// The HMAC secret shared by token issuing and token checking.
pub fn get_secret_key() -> (key: &'static [u8])
    ensures
        key@ == secret_key_bytes(),
{
    let key: &'static [u8; 15] = &[115u8, 101, 99, 114, 101, 116, 32, 107, 101, 121, 32, 100, 101, 109, 111];
    let key: &'static [u8] = key.as_slice();
    key
}

/// The token and expiry issued to `user_name` at second `now`: the token expires
/// 24 hours later, and until a minute past that expiry it checks out with the user
/// name and expiry it was issued with.
pub fn issue_jwt_at(user_name: &str, now: i64) -> (r: (String, i64))
    requires
        0 <= now < MAX_TIMESTAMP,
    ensures
        r.1 == now + TOKEN_LIFETIME_SECS,
        r.0@ == token_for(user_name@, r.1),
        checks_out_until_expiry(r.0@, user_name@, r.1),
{
    let expiration = now + TOKEN_LIFETIME_SECS;
    let token = match jwt_encode_hs256(get_secret_key(), user_name, expiration as usize) {
        Ok(t) => t,
        Err(_) => {
            proof {
                assert(false);
            }
            String::new()
        },
    };
    (token, expiration)
}

/// Issues a token for `user_name` that expires 24 hours from now; until a minute
/// past that expiry it checks out with `user_name` and the expiry.
pub fn issue_jwt(user_name: &str) -> (r: Result<(String, i64), TokenError>)
    ensures
        r matches Ok((token, exp)) && TOKEN_LIFETIME_SECS <= exp < MAX_TIMESTAMP + TOKEN_LIFETIME_SECS
            && token@ == token_for(user_name@, exp) && checks_out_until_expiry(token@, user_name@, exp),
{
    let now = now_timestamp();
    Ok(issue_jwt_at(user_name, now))
}

/// Checks `token` at second `now`: its signature, its form, and that it is at most
/// a minute past its expiry; gives back its claims.
pub fn validate_jwt_at(token: &str, now: i64) -> (r: Result<Claims, TokenError>)
    ensures
        claims_view(r) == spec_validate_at(token@, now),
{
    match jwt_decode_hs256(get_secret_key(), token) {
        Err(m) => Err(TokenError { message: m }),
        Ok((user_name, exp)) => {
            if (exp as i128) < (now as i128) - (EXPIRY_LEEWAY_SECS as i128) {
                Err(TokenError { message: expired_signature_text() })
            } else {
                Ok(Claims { user_name, exp })
            }
        },
    }
}

/// Checks `token` now: its signature, its form and its expiry; gives back its
/// claims.
pub fn validate_jwt(token: &str) -> (r: Result<Claims, TokenError>)
    ensures
        exists|now: i64| 0 <= now < MAX_TIMESTAMP && claims_view(r) == #[trigger] spec_validate_at(token@, now),
{
    let now = now_timestamp();
    validate_jwt_at(token, now)
}

/// Checks `token` at second `now` and, when it checks out, issues a fresh token to
/// the user named in its claims, expiring 24 hours after `now`; else gives the
/// check's error.
pub fn refresh_jwt_at(token: &str, now: i64) -> (r: Result<(String, i64), TokenError>)
    requires
        0 <= now < MAX_TIMESTAMP,
    ensures
        r is Ok <==> spec_validate_at(token@, now) is Ok,
        r matches Ok((new_token, exp)) ==> refreshed_at(token@, now, new_token@, exp),
        r matches Err(e) ==> spec_validate_at(token@, now) == claims_refused(e.message@),
{
    match validate_jwt_at(token, now) {
        Err(e) => Err(e),
        Ok(claims) => Ok(issue_jwt_at(claims.user_name.as_str(), now)),
    }
}

/// Issues a fresh token, expiring 24 hours from now, to the user named in the
/// claims of `token`, once `token` checks out; the fresh token checks out with that
/// user until a minute past its expiry.
pub fn refresh_jwt(token: &str) -> (r: Result<(String, i64), TokenError>)
    ensures
        r matches Ok((new_token, exp)) ==> renewed(token@, new_token@, exp),
        r matches Err(e) ==> refused_at_some_time(token@, e.message@),
{
    let now = now_timestamp();
    let r = refresh_jwt_at(token, now);
    assert(r matches Ok((new_token, exp)) ==> refreshed_at(token@, now, new_token@, exp));
    r
}

/// A token issued to `user_name` for a lifetime ending at `old_exp` (so at second
/// `old_exp - TOKEN_LIFETIME_SECS`), and refreshed at a second `now` no earlier
/// than its issue, is replaced by a token for the same user whose expiry is no
/// earlier than `old_exp`: a refresh keeps the user and never shortens the token's
/// life.
pub proof fn law_refresh_keeps_user_and_expiry(user_name: Seq<char>, old_exp: i64, now: i64, new_jwt: Seq<char>, exp: i64)
    requires
        0 <= old_exp - TOKEN_LIFETIME_SECS <= now < MAX_TIMESTAMP,
        checks_out_until_expiry(token_for(user_name, old_exp), user_name, old_exp),
        refreshed_at(token_for(user_name, old_exp), now, new_jwt, exp),
    ensures
        exp >= old_exp,
        old_exp - TOKEN_LIFETIME_SECS < now ==> exp > old_exp,
        exp == now + TOKEN_LIFETIME_SECS,
        new_jwt == token_for(user_name, exp),
        checks_out_until_expiry(new_jwt, user_name, exp),
{
    let old_jwt = token_for(user_name, old_exp);
    if now <= (old_exp as usize) + EXPIRY_LEEWAY_SECS {
        assert(spec_validate_at(old_jwt, now) == claims_read(user_name, (old_exp as usize) as nat));
    } else {
        assert(spec_validate_at(old_jwt, 0) == claims_read(user_name, (old_exp as usize) as nat));
    }
}

/// Whether claims that expire at `claims_exp` are still valid at second `now`.
pub fn claims_unexpired(claims_exp: usize, now: i64) -> (ok: bool)
    ensures
        ok == spec_unexpired(claims_exp as nat, now),
{
    !(claims_exp < now as usize)
}

impl ControlBlock {
    /// Whether the token carried here checks out and has not expired: `Err` when the
    /// token does not check out, else whether its expiry is not yet past.
    pub fn validate_jwt(&self) -> (r: Result<bool, TokenError>)
        ensures
            token_check_outcome(self.jwt@, r),
    {
        let now = now_timestamp();
        let r = self.validate_jwt_at(now);
        assert(r matches Ok(b) ==> unexpired_answer(spec_validate_at(self.jwt@, now), now, b));
        assert(r matches Err(e) ==> spec_validate_at(self.jwt@, now) == claims_refused(e.message@));
        r
    }

    /// Whether the token carried here checks out at second `now` and has not
    /// expired then: `Err` with the check's error when it does not check out, else
    /// whether its expiry is not yet past at `now`.
    pub fn validate_jwt_at(&self, now: i64) -> (r: Result<bool, TokenError>)
        ensures
            match spec_validate_at(self.jwt@, now) {
                Ok((_, exp)) => r == Ok::<bool, TokenError>(spec_unexpired(exp, now)),
                Err(m) => r matches Err(e) && e.message@ == m,
            },
    {
        match validate_jwt_at(self.jwt.as_str(), now) {
            Err(e) => Err(e),
            Ok(claims) => Ok(claims_unexpired(claims.exp, now)),
        }
    }

    /// Replaces the token with a fresh one for the same user; on an error the
    /// block is left as it was.
    pub fn refresh_jwt(&mut self) -> (r: Result<(), TokenError>)
        ensures
            r is Err ==> *final(self) == *old(self),
            r is Ok ==> refreshed_from(old(self).jwt@, *final(self)),
            r matches Err(e) ==> refused_at_some_time(old(self).jwt@, e.message@),
    {
        let (jwt, exp) = refresh_jwt(self.jwt.as_str())?;
        self.jwt = jwt;
        self.exp = exp;
        Ok(())
    }

    /// A block holding a token freshly issued to `user_name`; until a minute past
    /// its expiry the token checks out with that user name and expiry.
    pub fn from_user_name(user_name: &str) -> (block: Self)
        ensures
            TOKEN_LIFETIME_SECS <= block.exp < MAX_TIMESTAMP + TOKEN_LIFETIME_SECS,
            block.jwt@ == token_for(user_name@, block.exp),
            checks_out_until_expiry(block.jwt@, user_name@, block.exp),
    {
        let now = now_timestamp();
        Self::from_user_name_at(user_name, now)
    }

    /// A block holding a token issued to `user_name` at second `now`: it expires 24
    /// hours later, and until a minute past that it checks out with that user name
    /// and expiry.
    pub fn from_user_name_at(user_name: &str, now: i64) -> (block: Self)
        requires
            0 <= now < MAX_TIMESTAMP,
        ensures
            block.exp == now + TOKEN_LIFETIME_SECS,
            block.jwt@ == token_for(user_name@, block.exp),
            checks_out_until_expiry(block.jwt@, user_name@, block.exp),
    {
        let (jwt, exp) = issue_jwt_at(user_name, now);
        ControlBlock { jwt, exp }
    }
}

/// A token issued at second `issued`, so expiring at `exp = issued +
/// TOKEN_LIFETIME_SECS`, and checked at any second from its issue up to its expiry
/// reads back as its user and expiry and is answered as unexpired; checked in the
/// minute after its expiry it still reads back but is answered as expired; later
/// it is refused. Seconds are taken within the machine's `usize`, as the claims
/// are.
pub proof fn law_token_lifetime(user_name: Seq<char>, issued: i64, exp: i64, now: i64)
    requires
        0 <= issued,
        0 <= now <= usize::MAX,
        exp == issued + TOKEN_LIFETIME_SECS,
        exp + EXPIRY_LEEWAY_SECS + 1 <= usize::MAX,
        checks_out_until_expiry(token_for(user_name, exp), user_name, exp),
    ensures
        issued <= now <= exp ==> spec_validate_at(token_for(user_name, exp), now) == claims_read(user_name, exp as nat)
            && spec_unexpired(exp as nat, now),
        exp < now <= exp + EXPIRY_LEEWAY_SECS ==> spec_validate_at(token_for(user_name, exp), now)
            == claims_read(user_name, exp as nat) && !spec_unexpired(exp as nat, now),
        now > exp + EXPIRY_LEEWAY_SECS ==> spec_validate_at(token_for(user_name, exp), now) is Err,
{
    let token = token_for(user_name, exp);
    assert((exp as usize) as int == exp);
    assert((now as usize) as int == now);
    assert(spec_validate_at(token, 0) == claims_read(user_name, (exp as usize) as nat));
}

impl Default for ControlBlock {
    fn default() -> (block: Self)
        ensures
            block.jwt@ == Seq::<char>::empty(),
            block.exp == 0,
    {
        ControlBlock { jwt: String::new(), exp: 0 }
    }
}

/// A base64 field of a request, decoded and read as UTF-8 text; the error text
/// names the failing step's error.
pub open spec fn decode_field(field: Seq<char>) -> Result<Seq<char>, Seq<char>> {
    match base64_standard_decode(field) {
        Err(e) => Err("b64 decode err "@ + e),
        Ok(bytes) => if valid_utf8(bytes) {
            Ok(decode_utf8(bytes))
        } else {
            Err("b64 decode err "@ + utf8_error_text(bytes))
        },
    }
}

/// The control block field of a request: `None` when it is written `.`, else the
/// decoded JSON text; or the error text.
pub open spec fn block_field(field: Seq<char>) -> Result<Option<Seq<char>>, Seq<char>> {
    if field == "."@ {
        Ok(None)
    } else {
        match decode_field(field) {
            Ok(t) => Ok(Some(t)),
            Err(e) => Err(e),
        }
    }
}

/// The content field of a request: the decoded JSON text of its third piece, or,
/// when the request has only a method and a block, the JSON text `0` (no payload).
pub open spec fn content_field(parts: Seq<Seq<char>>) -> Result<Seq<char>, Seq<char>> {
    if parts.len() == 2 {
        Ok("0"@)
    } else {
        decode_field(parts[2])
    }
}

/// What a request carries: the JSON text of its control block (`None` when the
/// block is written `.`) and the JSON text of its content; or the error text.
pub open spec fn spec_parse_input(request: Seq<char>) -> Result<(Option<Seq<char>>, Seq<char>), Seq<char>> {
    let parts = split_spaces(request);
    if parts.len() != 2 && parts.len() != 3 {
        Err("invalid params"@)
    } else {
        match block_field(parts[1]) {
            Err(e) => Err(e),
            Ok(b) => match content_field(parts) {
                Ok(c) => Ok((b, c)),
                Err(e) => Err(e),
            },
        }
    }
}

/// The characters of what `parse_input` returns.
pub open spec fn parsed_view(r: Result<(Option<String>, String), String>) -> Result<(Option<Seq<char>>, Seq<char>), Seq<char>> {
    match r {
        Ok((b, c)) => Ok((
            match b {
                Some(t) => Some(t@),
                None => None,
            },
            c@,
        )),
        Err(e) => Err(e@),
    }
}

/// Decodes one base64 field of a request into text.
fn decode_text_field(field: &[char]) -> (r: Result<String, String>)
    ensures
        match r {
            Ok(t) => decode_field(field@) == Ok::<Seq<char>, Seq<char>>(t@),
            Err(e) => decode_field(field@) == Err::<Seq<char>, Seq<char>>(e@),
        },
{
    match base64_decode(field) {
        Err(e) => {
            let mut m = String::from_str("b64 decode err ");
            m.append(e.as_str());
            Err(m)
        },
        Ok(bytes) => match utf8_decode(bytes) {
            Ok(t) => Ok(t),
            Err(e) => {
                let mut m = String::from_str("b64 decode err ");
                m.append(e.as_str());
                Err(m)
            },
        },
    }
}

/// Splits a request `method block content` into the texts of its control block and
/// content. The block is base64 of JSON, or `.` for none; the content is base64 of
/// JSON. A request with no content (a method and a block alone) carries no payload,
/// which is read as the JSON text `0`.
pub fn parse_input(payload: &str) -> (r: Result<(Option<String>, String), String>)
    ensures
        parsed_view(r) == spec_parse_input(payload@),
{
    let chars = chars_of(payload);
    let parts = split_chars(&chars);
    proof {
        lemma_split_nonempty(payload@);
        reveal_strlit("0");
        reveal_strlit(".");
    }
    assert(parts@.len() == split_spaces(payload@).len());
    assert(forall|i: int| 0 <= i < parts@.len() ==> #[trigger] parts@[i]@ == split_spaces(payload@)[i]);
    if parts.len() != 2 && parts.len() != 3 {
        return Err(String::from_str("invalid params"));
    }
    let is_dot = parts[1].len() == 1 && parts[1][0] == '.';
    assert(is_dot == (parts@[1]@ == "."@)) by {
        if parts@[1]@.len() == 1 && parts@[1]@[0] == '.' {
            assert(parts@[1]@ =~= "."@);
        }
    }
    let block = if is_dot {
        None
    } else {
        match decode_text_field(parts[1].as_slice()) {
            Ok(t) => Some(t),
            Err(e) => {
                return Err(e);
            },
        }
    };
    if parts.len() == 2 {
        return Ok((block, String::from_str("0")));
    }
    match decode_text_field(parts[2].as_slice()) {
        Ok(c) => Ok((block, c)),
        Err(e) => Err(e),
    }
}

/// A request of a method and a control block alone carries no payload: it reads as
/// its control block with the content `0`, and with no block (`.`) it is accepted
/// as no block and content `0`.
pub proof fn law_missing_content_reads_as_zero(request: Seq<char>)
    requires
        split_spaces(request).len() == 2,
    ensures
        spec_parse_input(request) == match block_field(split_spaces(request)[1]) {
            Ok(b) => Ok::<(Option<Seq<char>>, Seq<char>), Seq<char>>((b, "0"@)),
            Err(e) => Err(e),
        },
        split_spaces(request)[1] == "."@ ==> spec_parse_input(request) == Ok::<(Option<Seq<char>>, Seq<char>), Seq<char>>((None, "0"@)),
{
}

} // verus!
