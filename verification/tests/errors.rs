//! Tests that reach each remaining failure answer, and the discarding of
//! late callbacks at the command level.
use linebridge::bridge::Bridge;
use linebridge::protocol::Response;
use linebridge::service::{AuthReply, CallbackReply, GuildEntry, ServiceData};

fn fired_at(at_ms: u64, data: ServiceData) -> CallbackReply {
    CallbackReply::Fired { at_ms, data }
}

fn ready_session() -> Bridge {
    let mut b = Bridge::new();
    let r = b
        .handle_line(
            r#"{"id":1,"command":"initialize","args":{"token":"type=1:AAAAAAAAAAAAAAAAAAAAAAAAAA","app_id":"42"}}"#,
            fired_at(0, ServiceData::Statuses(vec![3])),
        )
        .expect("initialize must answer");
    assert!(r.success);
    b
}

fn err_of(b: &mut Bridge, line: &str, reply: CallbackReply) -> String {
    let r: Response = b.handle_line(line, reply).expect("must answer");
    assert!(!r.success);
    r.error.expect("a failure carries its message")
}

#[test]
fn late_guild_callback_is_discarded() {
    // The guild list deadline is fifteen seconds; a callback that fires
    // only at twenty answers exactly as one that never fires.
    let mut b = ready_session();
    let guilds = vec![GuildEntry { id: 9, name: "late".to_string() }];
    let late = err_of(
        &mut b,
        r#"{"id":2,"command":"get_guilds"}"#,
        fired_at(20000, ServiceData::Guilds(Some(guilds))),
    );
    let never = err_of(&mut b, r#"{"id":3,"command":"get_guilds"}"#, CallbackReply::Never);
    assert_eq!(late, "Guild fetch timeout");
    assert_eq!(late, never);
}

#[test]
fn guild_fetch_timeout_is_a_failure() {
    let mut b = ready_session();
    let e = err_of(&mut b, r#"{"id":2,"command":"get_guilds"}"#, CallbackReply::Never);
    assert_eq!(e, "Guild fetch timeout");
}

#[test]
fn message_listing_argument_errors() {
    let mut b = ready_session();
    let e = err_of(&mut b, r#"{"id":2,"command":"get_lobby_messages","args":{}}"#, CallbackReply::Never);
    assert_eq!(e, "Missing lobby_id");
    let e = err_of(
        &mut b,
        r#"{"id":3,"command":"get_lobby_messages","args":{"lobby_id":"zzz"}}"#,
        CallbackReply::Never,
    );
    assert_eq!(e, "Invalid lobby_id");
    let e = err_of(&mut b, r#"{"id":4,"command":"get_message","args":{}}"#, CallbackReply::Never);
    assert_eq!(e, "Missing message_id");
    let e = err_of(
        &mut b,
        r#"{"id":5,"command":"get_message","args":{"message_id":"-3"}}"#,
        CallbackReply::Never,
    );
    assert_eq!(e, "Invalid message_id");
    let e = err_of(&mut b, r#"{"id":6,"command":"get_user_messages","args":{}}"#, CallbackReply::Never);
    assert_eq!(e, "Missing recipient_id");
    let e = err_of(
        &mut b,
        r#"{"id":7,"command":"get_user_messages","args":{"recipient_id":"18446744073709551616"}}"#,
        CallbackReply::Never,
    );
    assert_eq!(e, "Invalid recipient_id");
    let e = err_of(
        &mut b,
        r#"{"id":8,"command":"send_dm","args":{"recipient_id":"x","content":"hi"}}"#,
        CallbackReply::Never,
    );
    assert_eq!(e, "Invalid recipient_id");
    let e = err_of(&mut b, r#"{"id":9,"command":"send_dm","args":{"content":"hi"}}"#, CallbackReply::Never);
    assert_eq!(e, "Missing recipient_id or content");
}

#[test]
fn create_lobby_timeout() {
    let mut b = ready_session();
    let e = err_of(
        &mut b,
        r#"{"id":2,"command":"create_lobby","args":{"secret":"s"}}"#,
        CallbackReply::Never,
    );
    assert_eq!(e, "Lobby creation timeout");
}

#[test]
fn leave_lobby_timeout() {
    let mut b = ready_session();
    let e = err_of(
        &mut b,
        r#"{"id":2,"command":"leave_lobby","args":{"lobby_id":5}}"#,
        CallbackReply::Never,
    );
    assert_eq!(e, "Leave lobby timeout");
}

#[test]
fn voice_disconnect_timeout() {
    let mut b = ready_session();
    let e = err_of(
        &mut b,
        r#"{"id":2,"command":"disconnect_lobby_voice","args":{"lobby_id":"5"}}"#,
        CallbackReply::Never,
    );
    assert_eq!(e, "Voice disconnect timeout");
    let e = err_of(
        &mut b,
        r#"{"id":3,"command":"disconnect_lobby_voice","args":{"lobby_id":"zzz"}}"#,
        CallbackReply::Never,
    );
    assert_eq!(e, "Invalid lobby ID");
}

#[test]
fn remaining_authorization_errors() {
    let mut b = Bridge::new();
    let line = r#"{"id":1,"command":"initialize","args":{"token":"SDK_AUTH_REQUIRED","app_id":"42"}}"#;
    let e = err_of(
        &mut b,
        line,
        fired_at(
            0,
            ServiceData::Auth(AuthReply {
                fired: true,
                code: Some("abc".to_string()),
                token_fired: false,
                access_token: None,
                statuses: vec![],
            }),
        ),
    );
    assert_eq!(e, "GetToken timeout");
    let e = err_of(
        &mut b,
        line,
        fired_at(
            0,
            ServiceData::Auth(AuthReply {
                fired: true,
                code: Some("abc".to_string()),
                token_fired: true,
                access_token: None,
                statuses: vec![],
            }),
        ),
    );
    assert_eq!(e, "No access token received");
    let e = err_of(
        &mut b,
        line,
        fired_at(
            0,
            ServiceData::Auth(AuthReply {
                fired: true,
                code: Some("abc".to_string()),
                token_fired: true,
                access_token: Some("".to_string()),
                statuses: vec![],
            }),
        ),
    );
    assert_eq!(e, "Access token is empty");
}

#[test]
fn interactive_status_trace_still_decides() {
    let mut b = Bridge::new();
    let line = r#"{"id":1,"command":"initialize","args":{"token":"SDK_AUTH_REQUIRED","app_id":"42"}}"#;
    let e = err_of(
        &mut b,
        line,
        fired_at(
            0,
            ServiceData::Auth(AuthReply {
                fired: true,
                code: Some("abc".to_string()),
                token_fired: true,
                access_token: Some("AAAAAAAAAAAAAAAAAAAAAAAAAA".to_string()),
                statuses: vec![0, 2, 0],
            }),
        ),
    );
    assert_eq!(e, "SDK error 4004 - app not configured for SDK in Developer Portal");
}

#[test]
fn empty_status_trace_is_stuck_at_naught() {
    let mut b = Bridge::new();
    let e = err_of(
        &mut b,
        r#"{"id":1,"command":"initialize","args":{"token":"type=1:AAAAAAAAAAAAAAAAAAAAAAAAAA","app_id":"42"}}"#,
        CallbackReply::Never,
    );
    assert_eq!(e, "SDK connection timeout - stuck at status=0");
}

#[test]
fn app_id_must_parse_as_a_number_string() {
    // A malformed app identifier reads as naught and is rejected.
    let mut b = Bridge::new();
    let e = err_of(
        &mut b,
        r#"{"id":1,"command":"initialize","args":{"token":"type=1:AAAAAAAAAAAAAAAAAAAAAAAAAA","app_id":"abc"}}"#,
        CallbackReply::Never,
    );
    assert_eq!(e, "No application ID provided");
}
