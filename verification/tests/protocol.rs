use base64::Engine as _;
use ssl_file_server::control_block::parse_input;
use ssl_file_server::engine::engine::{encode_response, Engine};
use ssl_file_server::file::split_send_request;
use ssl_file_server::text::{contains_text, decimal_string};

fn b64(s: &str) -> String {
    base64::engine::general_purpose::STANDARD.encode(s)
}

#[test]
fn parse_input_reads_block_and_content() {
    let req = format!("login {} {}", b64("{\"jwt\":\"t\",\"exp\":5}"), b64("{\"user_name\":\"a\"}"));
    let (block, content) = parse_input(&req).unwrap();
    assert_eq!(block, Some("{\"jwt\":\"t\",\"exp\":5}".to_string()));
    assert_eq!(content, "{\"user_name\":\"a\"}");
}

#[test]
fn parse_input_dot_means_no_block() {
    let req = format!("list_file . {}", b64("{\"filter\":\"\"}"));
    let (block, content) = parse_input(&req).unwrap();
    assert_eq!(block, None);
    assert_eq!(content, "{\"filter\":\"\"}");
}

#[test]
fn parse_input_two_pieces_read_as_zero_content() {
    assert_eq!(parse_input("refresh ."), Ok((None, "0".to_string())));
    let req = format!("refresh {}", b64("{\"jwt\":\"t\",\"exp\":5}"));
    assert_eq!(parse_input(&req), Ok((Some("{\"jwt\":\"t\",\"exp\":5}".to_string()), "0".to_string())));
    let err = parse_input("refresh %%").unwrap_err();
    assert!(err.starts_with("b64 decode err "));
    // a third piece `0` is decoded as base64, and is not valid base64
    assert!(parse_input("refresh . 0").unwrap_err().starts_with("b64 decode err "));
}

#[test]
fn parse_input_wrong_piece_count() {
    assert_eq!(parse_input("a b c d"), Err("invalid params".to_string()));
    assert_eq!(parse_input("ping"), Err("invalid params".to_string()));
    assert_eq!(parse_input(""), Err("invalid params".to_string()));
}

#[test]
fn parse_input_bad_base64() {
    let err = parse_input("ping . %%%").unwrap_err();
    assert!(err.starts_with("b64 decode err "));
    assert!(err.len() > "b64 decode err ".len());
}

#[test]
fn parse_input_bad_base64_in_block() {
    let req = format!("ping !! {}", b64("1"));
    let err = parse_input(&req).unwrap_err();
    assert!(err.starts_with("b64 decode err "));
}

#[test]
fn parse_input_invalid_utf8() {
    // "/w==" is the single byte 0xFF.
    let err = parse_input("ping . /w==").unwrap_err();
    assert_eq!(err, "b64 decode err invalid utf-8 sequence of 1 bytes from index 0");
}

#[test]
fn encode_response_with_everything() {
    let r = encode_response(true, Some("{\"jwt\":\"x\",\"exp\":1}"), Some("pong"));
    assert_eq!(r, format!("true {} {}\n", b64("{\"jwt\":\"x\",\"exp\":1}"), b64("pong")));
    assert_eq!(r, "true eyJqd3QiOiJ4IiwiZXhwIjoxfQ== cG9uZw==\n");
}

#[test]
fn encode_response_with_nothing() {
    assert_eq!(encode_response(false, None, None), "false . \n");
}

#[test]
fn encode_response_fields_decode_back() {
    let r = encode_response(true, None, Some("héllo wörld"));
    let field = r.trim_end().split(' ').nth(2).unwrap().to_string();
    let req = format!("m . {}", field);
    assert_eq!(parse_input(&req).unwrap(), (None, "héllo wörld".to_string()));
}

#[test]
fn decimal_string_values() {
    assert_eq!(decimal_string(0), "0");
    assert_eq!(decimal_string(7), "7");
    assert_eq!(decimal_string(10), "10");
    assert_eq!(decimal_string(12345), "12345");
    assert_eq!(decimal_string(u64::MAX), u64::MAX.to_string());
}

#[test]
fn contains_text_cases() {
    assert!(contains_text("report.pdf", ""));
    assert!(contains_text("report.pdf", "port"));
    assert!(contains_text("report.pdf", "report.pdf"));
    assert!(!contains_text("report.pdf", "reports"));
    assert!(!contains_text("", "a"));
    assert!(contains_text("ääb", "äb"));
}

#[test]
fn split_send_request_pieces() {
    let (b, c) = split_send_request("send {} x").unwrap();
    assert_eq!(b, "{}");
    assert_eq!(c, "x");
    let rc = split_send_request("send a").unwrap_err();
    assert!(!rc.success);
    assert_eq!(rc.payload, Some("invalid params".to_string()));
    assert!(rc.control_block.is_none());
}

#[test]
fn engine_defaults_and_setters() {
    let mut e = Engine::new();
    assert_eq!(e.private_key_file(), "private.key");
    assert_eq!(e.cert_file(), "certificate.crt");
    assert_eq!(e.bind_address(), "127.0.0.1:7878");
    e.set_private_key_file("ssl/key.pem").set_cert_file("ssl/cert.pem").set_port(17878).set_addr("0.0.0.0");
    assert_eq!(e.private_key_file(), "ssl/key.pem");
    assert_eq!(e.cert_file(), "ssl/cert.pem");
    assert_eq!(e.bind_address(), "0.0.0.0:17878");
    let d = Engine::default();
    assert_eq!(d.bind_address(), ":0");
}

#[test]
fn engine_routes_by_method() {
    let mut e = Engine::new();
    e.register("ping", 0).register("login", 1);
    assert_eq!(e.route("ping . x"), Some(0));
    assert_eq!(e.route("login abc def"), Some(1));
    assert_eq!(e.route("logout . x"), None);
    assert_eq!(e.route(""), None);
    e.register("ping", 7);
    assert_eq!(e.route("ping"), Some(7));
    assert_eq!(e.route("login"), Some(1));
}

#[test]
fn reply_fields_read_back_as_request() {
    let r = encode_response(true, Some("{\"jwt\":\"a b\",\"exp\":2}"), Some("x y"));
    let fields: Vec<&str> = r.trim_end_matches('\n').split(' ').collect();
    assert_eq!(fields.len(), 3);
    let req = format!("refresh {} {}", fields[1], fields[2]);
    assert_eq!(
        parse_input(&req).unwrap(),
        (Some("{\"jwt\":\"a b\",\"exp\":2}".to_string()), "x y".to_string())
    );
    let r = encode_response(false, None, Some("p"));
    let fields: Vec<&str> = r.trim_end_matches('\n').split(' ').collect();
    let req = format!("m {} {}", fields[1], fields[2]);
    assert_eq!(parse_input(&req).unwrap(), (None, "p".to_string()));
}
