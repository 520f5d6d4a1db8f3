use ssl_file_server::control_block::{
    claims_unexpired, get_secret_key, issue_jwt, issue_jwt_at, refresh_jwt, refresh_jwt_at, validate_jwt, validate_jwt_at, ControlBlock,
    TokenError,
};
use ssl_file_server::db::FileInfo;
use ssl_file_server::engine::return_code::outcome_reply;
use ssl_file_server::file::{check_checksum, check_token, control_block_refusal, payload_refusal, token_gate, upload_reply};
use ssl_file_server::handler::info::{delete_check, delete_gate, select_files};
use ssl_file_server::log::{level_color, level_label, LogLevel};
use ssl_file_server::handler::upload::{check_jwt, jwt_gate, make_block_name, presend_reply, send_check, send_decision, SendReq};
use ssl_file_server::handler::user::{login_reply, refresh_reply, register_reply};
use ssl_file_server::handler::{ping, user};

fn claims_of(token: &str) -> serde_json::Map<String, serde_json::Value> {
    let mut v = jsonwebtoken::Validation::new(jsonwebtoken::Algorithm::HS256);
    v.validate_exp = false;
    let key = jsonwebtoken::DecodingKey::from_secret(b"secret key demo");
    jsonwebtoken::decode::<serde_json::Map<String, serde_json::Value>>(token, &key, &v).unwrap().claims
}

fn file(id: i32, name: &str, status: i32) -> FileInfo {
    FileInfo {
        id,
        file_name: name.to_string(),
        file_size: 10,
        file_checksum: 0,
        file_status: status,
        created_at: chrono::DateTime::from_timestamp(0, 0).unwrap().naive_utc(),
    }
}

#[test]
fn secret_key_bytes() {
    assert_eq!(get_secret_key(), b"secret key demo");
}

#[test]
fn pings() {
    let rc = ping("hi");
    assert!(rc.success);
    assert_eq!(rc.payload, Some("pong: hi".to_string()));
    let rc = user::ping("hi");
    assert_eq!(rc.payload, Some("payload: {hi}".to_string()));
    assert!(rc.control_block.is_none());
}

#[test]
fn issued_token_carries_user_and_expiry() {
    let (token, exp) = issue_jwt_at("alice", 1_000);
    assert_eq!(exp, 87_400);
    let claims = claims_of(&token);
    assert_eq!(claims["user_name"], serde_json::Value::from("alice"));
    assert_eq!(claims["exp"], serde_json::Value::from(87_400u64));
    let keys: Vec<&String> = claims.keys().collect();
    assert_eq!(keys, vec!["user_name", "exp"]);
}

#[test]
fn issued_token_validates() {
    let (token, exp) = issue_jwt("bob").unwrap();
    let claims = validate_jwt(&token).unwrap();
    assert_eq!(claims.user_name, "bob");
    assert_eq!(claims.exp as i64, exp);
    let block = ControlBlock { jwt: token, exp };
    assert_eq!(block.validate_jwt().unwrap(), true);
}

#[test]
fn expired_token_is_refused() {
    let (token, _) = issue_jwt_at("carol", 1_000);
    assert!(validate_jwt(&token).is_err());
    let block = ControlBlock { jwt: token, exp: 87_400 };
    let rc = check_jwt(&block).unwrap();
    assert!(!rc.success);
    assert!(rc.payload.unwrap().starts_with("invalid jwt: "));
}

#[test]
fn token_accepted_until_a_minute_past_expiry() {
    let (token, exp) = issue_jwt_at("jill", 1_000);
    let claims = validate_jwt_at(&token, exp + 60).unwrap();
    assert_eq!(claims.user_name, "jill");
    assert_eq!(claims.exp, 87_400);
    let err = validate_jwt_at(&token, exp + 61).unwrap_err();
    assert_eq!(err.message, "ExpiredSignature");
    let err = validate_jwt_at("a.b.c", 0).unwrap_err();
    assert!(!err.message.is_empty());
}

#[test]
fn garbage_token_is_refused() {
    assert!(validate_jwt("not a token").is_err());
    assert!(ControlBlock::default().validate_jwt().is_err());
    assert!(refresh_jwt("x.y.z").is_err());
}

#[test]
fn unexpired_check() {
    assert!(claims_unexpired(100, 100));
    assert!(claims_unexpired(100, 99));
    assert!(!claims_unexpired(100, 101));
}

#[test]
fn refresh_keeps_user() {
    let block = ControlBlock::from_user_name("dave");
    let mut fresh = block.clone();
    fresh.refresh_jwt().unwrap();
    assert_eq!(claims_of(&fresh.jwt)["user_name"], serde_json::Value::from("dave"));
    assert!(fresh.exp >= block.exp);
}

#[test]
fn refresh_at_a_given_second() {
    let (token, old_exp) = issue_jwt_at("erin", 1_000);
    assert_eq!(old_exp, 87_400);
    let (fresh, exp) = refresh_jwt_at(&token, 5_000).unwrap();
    assert_eq!(exp, 91_400);
    assert!(exp >= old_exp);
    let claims = validate_jwt_at(&fresh, 5_000).unwrap();
    assert_eq!(claims.user_name, "erin");
    assert_eq!(claims.exp, 91_400);
    assert!(refresh_jwt_at(&token, 87_460).is_ok());
    let err = refresh_jwt_at(&token, 87_461).unwrap_err();
    assert_eq!(err.message, "ExpiredSignature");
}

#[test]
fn refresh_failure_leaves_block() {
    let mut block = ControlBlock { jwt: "bad".to_string(), exp: 3 };
    assert!(block.refresh_jwt().is_err());
    assert_eq!(block.jwt, "bad");
    assert_eq!(block.exp, 3);
}

#[test]
fn jwt_gate_outcomes() {
    assert!(jwt_gate(Ok(true)).is_none());
    let rc = jwt_gate(Ok(false)).unwrap();
    assert!(!rc.success);
    assert_eq!(rc.payload, Some("jwt expired".to_string()));
    let rc = jwt_gate(Err(TokenError { message: "boom".to_string() })).unwrap();
    assert_eq!(rc.payload, Some("invalid jwt: boom".to_string()));
}

#[test]
fn valid_token_passes_checks() {
    let block = ControlBlock::from_user_name("erin");
    assert!(check_jwt(&block).is_none());
    assert!(delete_check(&block).is_none());
}

#[test]
fn delete_check_shows_raw_error() {
    let rc = delete_check(&ControlBlock::default()).unwrap();
    assert!(!rc.success);
    assert_eq!(rc.payload, Some("InvalidToken".to_string()));
}

#[test]
fn presend_replies() {
    let rc = presend_reply(Ok(42));
    assert!(rc.success);
    assert_eq!(rc.payload, Some("42".to_string()));
    let rc = presend_reply(Err("db down".to_string()));
    assert!(!rc.success);
    assert_eq!(rc.payload, Some("db down".to_string()));
}

#[test]
fn block_names() {
    let name = make_block_name(3, 17);
    assert!(name.starts_with("./storage/3-17_"));
    assert_eq!(name.len(), "./storage/3-17_".len() + 36);
    assert_ne!(make_block_name(3, 17), name);
}

#[test]
fn send_check_checksums() {
    let block = ControlBlock::from_user_name("frank");
    let good = SendReq { file_id: 1, block_id: 2, block_checksum: 0x3610a686, block_payload: b"hello".to_vec() };
    let name = send_check(&block, &good).unwrap();
    assert!(name.starts_with("./storage/1-2_"));
    let bad = SendReq { file_id: 1, block_id: 2, block_checksum: 5, block_payload: b"hello".to_vec() };
    let rc = send_check(&block, &bad).unwrap_err();
    assert_eq!(rc.payload, Some("wrong checksum".to_string()));
    let rc = send_check(&ControlBlock::default(), &good).unwrap_err();
    assert!(rc.payload.unwrap().starts_with("invalid jwt: "));
}

#[test]
fn send_decision_on_given_outcomes() {
    let good = SendReq { file_id: 1, block_id: 2, block_checksum: 0x3610a686, block_payload: b"hello".to_vec() };
    let bad = SendReq { file_id: 1, block_id: 2, block_checksum: 7, block_payload: b"hello".to_vec() };
    assert_eq!(send_decision(Ok(true), &good, "n".to_string()).unwrap(), "n");
    let rc = send_decision(Ok(true), &bad, "n".to_string()).unwrap_err();
    assert!(!rc.success);
    assert_eq!(rc.payload, Some("wrong checksum".to_string()));
    let rc = send_decision(Ok(false), &good, "n".to_string()).unwrap_err();
    assert_eq!(rc.payload, Some("jwt expired".to_string()));
    let rc = send_decision(Ok(false), &bad, "n".to_string()).unwrap_err();
    assert_eq!(rc.payload, Some("jwt expired".to_string()));
    let rc = send_decision(Err(TokenError { message: "InvalidToken".to_string() }), &good, "n".to_string()).unwrap_err();
    assert_eq!(rc.payload, Some("invalid jwt: InvalidToken".to_string()));
}

#[test]
fn direct_upload_checks_keep_block() {
    let block = ControlBlock::from_user_name("gina");
    let ok = check_token(block.clone()).unwrap();
    assert_eq!(ok.jwt, block.jwt);
    let ok = check_checksum(block.clone(), 0x3610a686, "hello").unwrap();
    assert_eq!(ok.jwt, block.jwt);
    let rc = check_checksum(block.clone(), 1, "hello").unwrap_err();
    assert!(!rc.success);
    assert_eq!(rc.payload, Some("错误的checksum".to_string()));
    assert_eq!(rc.control_block.unwrap().jwt, block.jwt);
    let rc = check_token(ControlBlock::default()).unwrap_err();
    assert_eq!(rc.payload, Some("invalid jwt: InvalidToken".to_string()));
    assert_eq!(rc.control_block.unwrap().jwt, "");
}

#[test]
fn register_and_login_replies() {
    let rc = register_reply(Ok(()), "hank");
    assert!(rc.success);
    assert!(rc.payload.is_none());
    let block = rc.control_block.unwrap();
    assert_eq!(claims_of(&block.jwt)["user_name"], serde_json::Value::from("hank"));
    let rc = register_reply(Err("duplicate".to_string()), "hank");
    assert_eq!(rc.payload, Some("duplicate".to_string()));
    assert!(!rc.success);
    let rc = login_reply(Ok(false), "hank");
    assert_eq!(rc.payload, Some("login failed".to_string()));
    let rc = login_reply(Err("db".to_string()), "hank");
    assert_eq!(rc.payload, Some("db".to_string()));
    let rc = login_reply(Ok(true), "hank");
    assert!(rc.success);
    assert!(rc.control_block.is_some());
}

#[test]
fn refresh_replies() {
    let rc = refresh_reply(ControlBlock::default());
    assert!(!rc.success);
    assert_eq!(rc.payload, Some("invalid jwt: InvalidToken".to_string()));
    let rc = refresh_reply(ControlBlock::from_user_name("ivy"));
    assert!(rc.success);
    let block = rc.control_block.unwrap();
    assert_eq!(claims_of(&block.jwt)["user_name"], serde_json::Value::from("ivy"));
}

#[test]
fn listing_selects_finished_matches_in_order() {
    let files = vec![file(1, "a.txt", 1), file(2, "b.txt", 0), file(3, "ab.pdf", 1), file(4, "c.txt", 2), file(5, "ba.txt", 1)];
    let kept = select_files(files, "a");
    let ids: Vec<i32> = kept.iter().map(|f| f.id).collect();
    assert_eq!(ids, vec![1, 3, 5]);
    let all = select_files(vec![file(1, "x", 1), file(2, "y", 1)], "");
    assert_eq!(all.len(), 2);
    assert!(select_files(vec![], "a").is_empty());
}

#[test]
fn crc_check_value() {
    let block = ControlBlock::from_user_name("kim");
    assert!(check_checksum(block.clone(), 0xCBF4_3926, "123456789").is_ok());
    assert!(check_checksum(block, 0, "").is_ok());
}

#[test]
fn block_name_uuid_form() {
    let name = make_block_name(0, 0);
    let uuid = &name["./storage/0-0_".len()..];
    assert_eq!(uuid.len(), 36);
    for (i, c) in uuid.chars().enumerate() {
        if i == 8 || i == 13 || i == 18 || i == 23 {
            assert_eq!(c, '-');
        } else {
            assert!(c.is_ascii_digit() || ('a'..='f').contains(&c));
        }
    }
}

#[test]
fn level_colours() {
    assert_eq!(level_color(LogLevel::Error), (196, 0, 0));
    assert_eq!(level_color(LogLevel::Warn), (255, 145, 0));
    assert_eq!(level_color(LogLevel::Info), (0, 196, 196));
    assert_eq!(level_color(LogLevel::Debug), (128, 196, 0));
    assert_eq!(level_color(LogLevel::Trace), (128, 128, 128));
}

#[test]
fn gates_on_given_outcomes() {
    assert!(delete_gate(Ok(true)).is_none());
    assert_eq!(delete_gate(Ok(false)).unwrap().payload, Some("jwt validate failed".to_string()));
    assert_eq!(delete_gate(Err(TokenError { message: "x".to_string() })).unwrap().payload, Some("x".to_string()));
    let block = ControlBlock { jwt: "j".to_string(), exp: 9 };
    assert_eq!(token_gate(Ok(true), block.clone()).unwrap().jwt, "j");
    let rc = token_gate(Ok(false), block.clone()).unwrap_err();
    assert_eq!(rc.payload, Some("jwt expired".to_string()));
    assert_eq!(rc.control_block.unwrap().exp, 9);
    let rc = token_gate(Err(TokenError { message: "bad".to_string() }), block).unwrap_err();
    assert_eq!(rc.payload, Some("invalid jwt: bad".to_string()));
    let rc = user::refresh_failed_reply(TokenError { message: "e".to_string() });
    assert!(!rc.success);
    assert_eq!(rc.payload, Some("refresh jwt err: e".to_string()));
}

#[test]
fn login_token_checks_out_with_user() {
    let rc = login_reply(Ok(true), "lena");
    let block = rc.control_block.unwrap();
    let claims = validate_jwt(&block.jwt).unwrap();
    assert_eq!(claims.user_name, "lena");
    assert_eq!(claims.exp as i64, block.exp);
    let refreshed = refresh_reply(block).control_block.unwrap();
    assert_eq!(validate_jwt(&refreshed.jwt).unwrap().user_name, "lena");
}

#[test]
fn level_labels_are_padded() {
    assert_eq!(level_label(LogLevel::Error), "ERROR");
    assert_eq!(level_label(LogLevel::Warn), "WARN ");
    assert_eq!(level_label(LogLevel::Info), "INFO ");
    assert_eq!(level_label(LogLevel::Debug), "DEBUG");
    assert_eq!(level_label(LogLevel::Trace), "TRACE");
}

#[test]
fn step_outcome_replies() {
    let rc = outcome_reply(Ok(()));
    assert!(rc.success);
    assert!(rc.payload.is_none());
    assert!(rc.control_block.is_none());
    let rc = outcome_reply(Err("db down".to_string()));
    assert!(!rc.success);
    assert_eq!(rc.payload, Some("db down".to_string()));
    assert!(rc.control_block.is_none());
}

#[test]
fn direct_upload_replies() {
    let block = ControlBlock { jwt: "j".to_string(), exp: 4 };
    let rc = control_block_refusal("bad json");
    assert!(!rc.success);
    assert_eq!(rc.payload, Some("invalid control block: bad json".to_string()));
    assert!(rc.control_block.is_none());
    let rc = payload_refusal("eof", block.clone());
    assert!(!rc.success);
    assert_eq!(rc.payload, Some("invalid payload: eof".to_string()));
    assert_eq!(rc.control_block.unwrap().jwt, "j");
    let rc = upload_reply(block);
    assert!(rc.success);
    assert!(rc.payload.is_none());
    assert_eq!(rc.control_block.unwrap().exp, 4);
}
