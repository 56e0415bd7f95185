//! Scenario tests for the line protocol: exact wire texts, one response
//! per command, silence for garbage.
use linebridge::bridge::Bridge;
use linebridge::protocol::{render_response, Response};
use linebridge::service::CallbackReply;
use linebridge::json::Json;
use linebridge::ser::render_json;

fn text_of(r: &Response) -> String {
    render_response(r).iter().collect()
}

fn line(b: &mut Bridge, s: &str) -> Option<Response> {
    b.handle_line(s, CallbackReply::Never)
}

#[test]
fn ping_exact_wire_text() {
    let mut b = Bridge::new();
    let r = line(&mut b, r#"{"id":1,"command":"ping"}"#).expect("ping must answer");
    assert_eq!(
        text_of(&r),
        r#"{"id":1,"success":true,"result":{"pong":true},"error":null}"#
    );
}

#[test]
fn guilds_before_initialize_exact_wire_text() {
    let mut b = Bridge::new();
    let r = line(&mut b, r#"{"id":2,"command":"get_guilds"}"#).expect("must answer");
    assert_eq!(
        text_of(&r),
        r#"{"id":2,"success":false,"result":null,"error":"SDK not initialized"}"#
    );
}

#[test]
fn malformed_lines_get_no_response() {
    let mut b = Bridge::new();
    assert!(line(&mut b, "this is not json").is_none());
    assert!(line(&mut b, "").is_none());
    assert!(line(&mut b, "   ").is_none());
    assert!(line(&mut b, r#"{"id":1}"#).is_none());
    assert!(line(&mut b, r#"{"command":"ping"}"#).is_none());
    assert!(line(&mut b, r#"{"id":"one","command":"ping"}"#).is_none());
    assert!(line(&mut b, r#"{"id":1,"command":7}"#).is_none());
    assert!(line(&mut b, r#"[1,2,3]"#).is_none());
    assert!(line(&mut b, r#"{"id":1,"command":"ping""#).is_none());
}

#[test]
fn script_emits_one_response_per_command_in_order() {
    let mut b = Bridge::new();
    let lines: Vec<String> = vec![
        "garbage".to_string(),
        r#"{"id":11,"command":"ping"}"#.to_string(),
        "".to_string(),
        r#"{"id":12,"command":"no_such_thing"}"#.to_string(),
        r#"{"notid":5}"#.to_string(),
        r#"{"id":13,"command":"ping"}"#.to_string(),
    ];
    let replies = vec![
        CallbackReply::Never,
        CallbackReply::Never,
        CallbackReply::Never,
        CallbackReply::Never,
        CallbackReply::Never,
        CallbackReply::Never,
    ];
    let out = b.run_script(&lines, replies);
    let ids: Vec<u64> = out.iter().map(|r| r.id).collect();
    assert_eq!(ids, vec![11, 12, 13]);
}

#[test]
fn unknown_command_names_the_command() {
    let mut b = Bridge::new();
    let r = line(&mut b, r#"{"id":9,"command":"frobnicate"}"#).expect("must answer");
    assert!(!r.success);
    assert_eq!(r.error.as_deref(), Some("Unknown: frobnicate"));
}

#[test]
fn args_null_counts_as_missing() {
    let mut b = Bridge::new();
    let r = line(&mut b, r#"{"id":3,"command":"initialize","args":null}"#).expect("must answer");
    assert!(!r.success);
    assert_eq!(r.error.as_deref(), Some("Missing args"));
}

#[test]
fn unknown_fields_are_ignored() {
    let mut b = Bridge::new();
    let r = line(&mut b, r#"{"id":4,"command":"ping","extra":[1,2],"more":"x"}"#)
        .expect("must answer");
    assert!(r.success);
}

#[test]
fn duplicate_key_takes_last_binding() {
    let mut b = Bridge::new();
    let r = line(&mut b, r#"{"id":1,"id":5,"command":"ping"}"#).expect("must answer");
    assert_eq!(r.id, 5);
}

#[test]
fn ping_is_idempotent_across_session_states() {
    let mut b = Bridge::new();
    for _ in 0..3 {
        let r = line(&mut b, r#"{"id":7,"command":"ping"}"#).expect("must answer");
        assert!(r.success);
        assert_eq!(
            text_of(&r),
            r#"{"id":7,"success":true,"result":{"pong":true},"error":null}"#
        );
    }
    // A failed initialize and a disconnect change nothing for ping.
    let _ = line(&mut b, r#"{"id":8,"command":"initialize","args":{}}"#);
    let _ = line(&mut b, r#"{"id":9,"command":"disconnect"}"#);
    let r = line(&mut b, r#"{"id":10,"command":"ping"}"#).expect("must answer");
    assert!(r.success);
    assert_eq!(
        text_of(&r),
        r#"{"id":10,"success":true,"result":{"pong":true},"error":null}"#
    );
}

#[test]
fn escaped_strings_render_as_json() {
    let v = Json::Obj(vec![
        ("a\"b".to_string(), Json::Str("back\\slash".to_string())),
        ("nl".to_string(), Json::Str("x\ny\tz\rw".to_string())),
        ("ctl".to_string(), Json::Str("\u{1}".to_string())),
    ]);
    let s: String = render_json(&v).iter().collect();
    assert_eq!(s, "{\"a\\\"b\":\"back\\\\slash\",\"nl\":\"x\\ny\\tz\\rw\",\"ctl\":\"\\u0001\"}");
}

#[test]
fn json_values_render_compactly() {
    let v = Json::Arr(vec![
        Json::Null,
        Json::Bool(true),
        Json::Bool(false),
        Json::Num(0),
        Json::Num(18446744073709551615),
        Json::Arr(vec![]),
        Json::Obj(vec![]),
    ]);
    let s: String = render_json(&v).iter().collect();
    assert_eq!(s, "[null,true,false,0,18446744073709551615,[],{}]");
}

#[test]
fn object_lookup_takes_last_binding() {
    let v = Json::Obj(vec![
        ("k".to_string(), Json::Num(1)),
        ("k".to_string(), Json::Num(2)),
    ]);
    match v.get("k") {
        Some(Json::Num(n)) => assert_eq!(*n, 2),
        _ => panic!("expected the later binding"),
    }
}
