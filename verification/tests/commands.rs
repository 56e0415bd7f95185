//! Scenario tests for the command catalogue: session lifecycle,
//! validation errors, and each operation's result shape.
use linebridge::bridge::Bridge;
use linebridge::protocol::{render_response, Response};
use linebridge::service::{
    AuthReply, CallbackReply, ChannelEntry, DiscordUInt64Span, GuildEntry, MessageEntry, RelEntry,
    ServiceData,
};
use linebridge::json::Json;
use linebridge::ops::{plan_command, Operation, Plan, TokenPlan};
use linebridge::protocol::Command;

fn text_of(r: &Response) -> String {
    render_response(r).iter().collect()
}

fn fired(data: ServiceData) -> CallbackReply {
    CallbackReply::Fired { at_ms: 100, data }
}

fn ready_bridge() -> Bridge {
    let mut b = Bridge::new();
    let r = b
        .handle_line(
            r#"{"id":1,"command":"initialize","args":{"token":"type=1:AAAAAAAAAAAAAAAAAAAAAAAAAA","app_id":"42"}}"#,
            fired(ServiceData::Statuses(vec![0, 1, 2, 3])),
        )
        .expect("initialize must answer");
    assert!(r.success, "initialize failed: {:?}", r.error);
    b
}

#[test]
fn initialize_success_reports_status() {
    let mut b = Bridge::new();
    let r = b
        .handle_line(
            r#"{"id":1,"command":"initialize","args":{"token":"type=1:AAAAAAAAAAAAAAAAAAAAAAAAAA","app_id":"42"}}"#,
            fired(ServiceData::Statuses(vec![0, 3])),
        )
        .unwrap();
    assert_eq!(
        text_of(&r),
        r#"{"id":1,"success":true,"result":{"status":"initialized"},"error":null}"#
    );
}

#[test]
fn initialize_validation_errors() {
    let mut b = Bridge::new();
    let r = b.handle_line(r#"{"id":1,"command":"initialize"}"#, CallbackReply::Never).unwrap();
    assert_eq!(r.error.as_deref(), Some("Missing args"));
    let r = b
        .handle_line(r#"{"id":2,"command":"initialize","args":{"app_id":"42"}}"#, CallbackReply::Never)
        .unwrap();
    assert_eq!(r.error.as_deref(), Some("Missing token"));
    let r = b
        .handle_line(
            r#"{"id":3,"command":"initialize","args":{"token":"AAAAAAAAAAAAAAAAAAAAAAAAAA"}}"#,
            CallbackReply::Never,
        )
        .unwrap();
    assert_eq!(r.error.as_deref(), Some("No application ID provided"));
    let r = b
        .handle_line(
            r#"{"id":4,"command":"initialize","args":{"token":"type=1:AAAA\u0000AAAAAAAAAAAAAAAAAAAAAA","app_id":"42"}}"#,
            CallbackReply::Never,
        )
        .unwrap();
    assert_eq!(r.error.as_deref(), Some("Invalid token string"));
}

#[test]
fn initialize_status_regression_is_fatal() {
    let mut b = Bridge::new();
    let r = b
        .handle_line(
            r#"{"id":1,"command":"initialize","args":{"token":"type=1:AAAAAAAAAAAAAAAAAAAAAAAAAA","app_id":"42"}}"#,
            fired(ServiceData::Statuses(vec![0, 1, 2, 0, 0])),
        )
        .unwrap();
    assert!(!r.success);
    assert_eq!(
        r.error.as_deref(),
        Some("SDK error 4004 - app not configured for SDK in Developer Portal")
    );
}

#[test]
fn initialize_stuck_status_reports_timeout() {
    let mut b = Bridge::new();
    let r = b
        .handle_line(
            r#"{"id":1,"command":"initialize","args":{"token":"type=1:AAAAAAAAAAAAAAAAAAAAAAAAAA","app_id":"42"}}"#,
            fired(ServiceData::Statuses(vec![0, 1, 1])),
        )
        .unwrap();
    assert!(!r.success);
    assert_eq!(
        r.error.as_deref(),
        Some("SDK connection timeout - stuck at status=1")
    );
}

#[test]
fn initialize_interactive_path() {
    let mut b = Bridge::new();
    // The placeholder credential takes the interactive exchange.
    let line = r#"{"id":1,"command":"initialize","args":{"token":"SDK_AUTH_REQUIRED","app_id":"42"}}"#;
    let r = b.handle_line(line, CallbackReply::Never).unwrap();
    assert_eq!(r.error.as_deref(), Some("Authorization timeout"));
    let r = b
        .handle_line(
            line,
            fired(ServiceData::Auth(AuthReply {
                fired: true,
                code: None,
                token_fired: false,
                access_token: None,
                statuses: vec![],
            })),
        )
        .unwrap();
    assert_eq!(r.error.as_deref(), Some("No authorization code received"));
    let r = b
        .handle_line(
            line,
            fired(ServiceData::Auth(AuthReply {
                fired: true,
                code: Some("abc".to_string()),
                token_fired: true,
                access_token: Some("short".to_string()),
                statuses: vec![3],
            })),
        )
        .unwrap();
    assert_eq!(
        r.error.as_deref(),
        Some("Access token appears malformed (too short)")
    );
    let r = b
        .handle_line(
            line,
            fired(ServiceData::Auth(AuthReply {
                fired: true,
                code: Some("abc".to_string()),
                token_fired: true,
                access_token: Some("AAAAAAAAAAAAAAAAAAAAAAAAAA".to_string()),
                statuses: vec![0, 2, 3],
            })),
        )
        .unwrap();
    assert!(r.success);
}

#[test]
fn disconnect_resets_the_session() {
    let mut b = ready_bridge();
    let r = b.handle_line(r#"{"id":2,"command":"disconnect"}"#, CallbackReply::Never).unwrap();
    assert_eq!(
        text_of(&r),
        r#"{"id":2,"success":true,"result":{"status":"disconnected"},"error":null}"#
    );
    let r = b.handle_line(r#"{"id":3,"command":"get_guilds"}"#, CallbackReply::Never).unwrap();
    assert_eq!(r.error.as_deref(), Some("SDK not initialized"));
}

#[test]
fn state_guard_holds_for_every_session_command() {
    let cases = [
        r#"{"id":1,"command":"get_guilds"}"#,
        r#"{"id":2,"command":"get_guild_channels","args":{"guild_id":"7"}}"#,
        r#"{"id":3,"command":"send_message","args":{"channel_id":"7","content":"hi"}}"#,
        r#"{"id":4,"command":"set_activity","args":{}}"#,
        r#"{"id":5,"command":"get_relationships"}"#,
        r#"{"id":6,"command":"get_lobby_ids"}"#,
        r#"{"id":7,"command":"get_lobby","args":{"lobby_id":"7"}}"#,
        r#"{"id":8,"command":"send_dm","args":{"recipient_id":"7","content":"hi"}}"#,
        r#"{"id":9,"command":"get_lobby_messages","args":{"lobby_id":"7"}}"#,
        r#"{"id":10,"command":"get_message","args":{"message_id":"7"}}"#,
        r#"{"id":11,"command":"get_user_messages","args":{"recipient_id":"7"}}"#,
        r#"{"id":12,"command":"create_lobby","args":{"secret":"s"}}"#,
        r#"{"id":13,"command":"send_lobby_message","args":{"lobby_id":"7","content":"hi"}}"#,
        r#"{"id":14,"command":"leave_lobby","args":{"lobby_id":"7"}}"#,
        r#"{"id":15,"command":"set_mute","args":{"mute":true}}"#,
        r#"{"id":16,"command":"set_deaf","args":{"deaf":true}}"#,
        r#"{"id":17,"command":"get_mute_status"}"#,
        r#"{"id":18,"command":"get_deaf_status"}"#,
        r#"{"id":19,"command":"connect_lobby_voice","args":{"lobby_id":"7"}}"#,
        r#"{"id":20,"command":"disconnect_lobby_voice","args":{"lobby_id":"7"}}"#,
        r#"{"id":21,"command":"create_or_join_lobby","args":{"secret":"s"}}"#,
    ];
    for case in cases.iter() {
        let mut b = Bridge::new();
        let r = b.handle_line(case, CallbackReply::Never).expect("must answer");
        assert!(!r.success, "guard failed for {}", case);
        assert_eq!(r.error.as_deref(), Some("SDK not initialized"), "for {}", case);
    }
}

#[test]
fn get_guilds_lists_guilds_as_strings() {
    let mut b = ready_bridge();
    let r = b
        .handle_line(
            r#"{"id":2,"command":"get_guilds"}"#,
            fired(ServiceData::Guilds(Some(vec![
                GuildEntry { id: 18446744073709551615, name: "Alpha".to_string() },
                GuildEntry { id: 7, name: "".to_string() },
            ]))),
        )
        .unwrap();
    assert_eq!(
        text_of(&r),
        r#"{"id":2,"success":true,"result":{"guilds":[{"id":"18446744073709551615","name":"Alpha"},{"id":"7","name":"Unknown"}]},"error":null}"#
    );
}

#[test]
fn get_guilds_null_span_is_an_error() {
    let mut b = ready_bridge();
    let r = b
        .handle_line(r#"{"id":2,"command":"get_guilds"}"#, fired(ServiceData::Guilds(None)))
        .unwrap();
    assert!(!r.success);
    assert_eq!(r.error.as_deref(), Some("Null span pointer"));
}

#[test]
fn get_guild_channels_validation_and_result() {
    let mut b = ready_bridge();
    let r = b.handle_line(r#"{"id":2,"command":"get_guild_channels"}"#, CallbackReply::Never).unwrap();
    assert_eq!(r.error.as_deref(), Some("Missing args"));
    let r = b
        .handle_line(r#"{"id":3,"command":"get_guild_channels","args":{}}"#, CallbackReply::Never)
        .unwrap();
    assert_eq!(r.error.as_deref(), Some("Missing guild_id"));
    let r = b
        .handle_line(
            r#"{"id":4,"command":"get_guild_channels","args":{"guild_id":"xyz"}}"#,
            CallbackReply::Never,
        )
        .unwrap();
    assert_eq!(r.error.as_deref(), Some("Invalid guild_id"));
    let r = b
        .handle_line(
            r#"{"id":5,"command":"get_guild_channels","args":{"guild_id":"9"}}"#,
            fired(ServiceData::Channels(vec![ChannelEntry {
                id: 31,
                name: "general".to_string(),
                kind: 0,
            }])),
        )
        .unwrap();
    assert_eq!(
        text_of(&r),
        r#"{"id":5,"success":true,"result":{"channels":[{"id":"31","name":"general","type":0}]},"error":null}"#
    );
}

#[test]
fn get_guild_channels_timeout_names_the_guild() {
    let mut b = ready_bridge();
    let r = b
        .handle_line(
            r#"{"id":5,"command":"get_guild_channels","args":{"guild_id":"9"}}"#,
            CallbackReply::Never,
        )
        .unwrap();
    assert!(!r.success);
    assert_eq!(r.error.as_deref(), Some("Timeout for guild 9"));
}

#[test]
fn send_message_paths() {
    let mut b = ready_bridge();
    let r = b
        .handle_line(
            r#"{"id":2,"command":"send_message","args":{"channel_id":"5","content":"hello"}}"#,
            fired(ServiceData::Ack),
        )
        .unwrap();
    assert_eq!(
        text_of(&r),
        r#"{"id":2,"success":true,"result":{"sent":true},"error":null}"#
    );
    let r = b
        .handle_line(
            r#"{"id":3,"command":"send_message","args":{"channel_id":"5","content":"hello"}}"#,
            CallbackReply::Never,
        )
        .unwrap();
    assert_eq!(r.error.as_deref(), Some("Message send timeout"));
    let r = b
        .handle_line(r#"{"id":4,"command":"send_message","args":{"channel_id":"5"}}"#, CallbackReply::Never)
        .unwrap();
    assert_eq!(r.error.as_deref(), Some("Missing channel_id or content"));
    let r = b
        .handle_line(
            r#"{"id":5,"command":"send_message","args":{"channel_id":"x","content":"hello"}}"#,
            CallbackReply::Never,
        )
        .unwrap();
    assert_eq!(r.error.as_deref(), Some("Invalid channel_id"));
    let r = b
        .handle_line(
            r#"{"id":6,"command":"send_message","args":{"channel_id":"5","content":"bad\u0000nul"}}"#,
            CallbackReply::Never,
        )
        .unwrap();
    assert_eq!(r.error.as_deref(), Some("Invalid content"));
}

#[test]
fn send_dm_returns_message_id() {
    let mut b = ready_bridge();
    let r = b
        .handle_line(
            r#"{"id":2,"command":"send_dm","args":{"recipient_id":"8","content":"hi"}}"#,
            fired(ServiceData::SentId(555)),
        )
        .unwrap();
    assert_eq!(
        text_of(&r),
        r#"{"id":2,"success":true,"result":{"message_id":"555"},"error":null}"#
    );
    let r = b
        .handle_line(
            r#"{"id":3,"command":"send_dm","args":{"recipient_id":"8","content":"hi"}}"#,
            CallbackReply::Never,
        )
        .unwrap();
    assert_eq!(r.error.as_deref(), Some("DM send timeout"));
}

#[test]
fn set_activity_paths() {
    let mut b = ready_bridge();
    let r = b
        .handle_line(
            r#"{"id":2,"command":"set_activity","args":{"state":"s","details":"d"}}"#,
            fired(ServiceData::Ack),
        )
        .unwrap();
    assert_eq!(
        text_of(&r),
        r#"{"id":2,"success":true,"result":{"updated":true},"error":null}"#
    );
    let r = b
        .handle_line(r#"{"id":3,"command":"set_activity","args":{}}"#, CallbackReply::Never)
        .unwrap();
    assert_eq!(r.error.as_deref(), Some("Activity update timeout"));
}

#[test]
fn relationships_filter_unresolved_peers() {
    let mut b = ready_bridge();
    let r = b
        .handle_line(
            r#"{"id":2,"command":"get_relationships"}"#,
            fired(ServiceData::Relationships(vec![
                RelEntry { id: 1, username: Some("ada".to_string()) },
                RelEntry { id: 2, username: None },
                RelEntry { id: 3, username: Some("".to_string()) },
            ])),
        )
        .unwrap();
    assert_eq!(
        text_of(&r),
        r#"{"id":2,"success":true,"result":{"friends":[{"id":"1","username":"ada"},{"id":"3","username":"Unknown"}]},"error":null}"#
    );
}

#[test]
fn lobby_ids_span_bounds() {
    let mut b = ready_bridge();
    let r = b
        .handle_line(
            r#"{"id":2,"command":"get_lobby_ids"}"#,
            fired(ServiceData::LobbyIds(DiscordUInt64Span { items: vec![4, 5] })),
        )
        .unwrap();
    assert_eq!(
        text_of(&r),
        r#"{"id":2,"success":true,"result":{"lobby_ids":["4","5"]},"error":null}"#
    );
    // A span of a thousand entries or more is distrusted and read as empty.
    let big: Vec<u64> = (0..1000).collect();
    let r = b
        .handle_line(
            r#"{"id":3,"command":"get_lobby_ids"}"#,
            fired(ServiceData::LobbyIds(DiscordUInt64Span { items: big })),
        )
        .unwrap();
    assert_eq!(
        text_of(&r),
        r#"{"id":3,"success":true,"result":{"lobby_ids":[]},"error":null}"#
    );
}

#[test]
fn get_lobby_metadata_with_overwrites() {
    let mut b = ready_bridge();
    let r = b
        .handle_line(
            r#"{"id":2,"command":"get_lobby","args":{"lobby_id":"77"}}"#,
            fired(ServiceData::LobbyMeta(Some(vec![
                ("title".to_string(), "old".to_string()),
                ("kind".to_string(), "open".to_string()),
                ("title".to_string(), "new".to_string()),
            ]))),
        )
        .unwrap();
    assert_eq!(
        text_of(&r),
        r#"{"id":2,"success":true,"result":{"lobby_id":77,"metadata":{"title":"new","kind":"open"}},"error":null}"#
    );
    let r = b
        .handle_line(
            r#"{"id":3,"command":"get_lobby","args":{"lobby_id":"77"}}"#,
            fired(ServiceData::LobbyMeta(None)),
        )
        .unwrap();
    assert_eq!(r.error.as_deref(), Some("Failed to get lobby handle for 77"));
    let r = b
        .handle_line(r#"{"id":4,"command":"get_lobby","args":{"lobby_id":0}}"#, CallbackReply::Never)
        .unwrap();
    assert_eq!(r.error.as_deref(), Some("Invalid lobby ID"));
}

#[test]
fn get_message_lookup() {
    let mut b = ready_bridge();
    let r = b
        .handle_line(
            r#"{"id":2,"command":"get_message","args":{"message_id":"9000"}}"#,
            fired(ServiceData::MessageInfo(Some(MessageEntry {
                id: 9000,
                author_id: 77,
                channel_id: 12,
                content: "hello".to_string(),
                timestamp: 1700000000,
            }))),
        )
        .unwrap();
    assert_eq!(
        text_of(&r),
        r#"{"id":2,"success":true,"result":{"id":"9000","author_id":"77","channel_id":"12","content":"hello","timestamp":1700000000},"error":null}"#
    );
    let r = b
        .handle_line(
            r#"{"id":3,"command":"get_message","args":{"message_id":"9000"}}"#,
            fired(ServiceData::MessageInfo(None)),
        )
        .unwrap();
    assert_eq!(r.error.as_deref(), Some("Message not found"));
}

#[test]
fn message_lists_round_through() {
    let mut b = ready_bridge();
    let r = b
        .handle_line(
            r#"{"id":2,"command":"get_lobby_messages","args":{"lobby_id":"4","limit":10}}"#,
            fired(ServiceData::Messages(vec![MessageEntry {
                id: 1,
                author_id: 2,
                channel_id: 3,
                content: "".to_string(),
                timestamp: 4,
            }])),
        )
        .unwrap();
    assert_eq!(
        text_of(&r),
        r#"{"id":2,"success":true,"result":{"messages":[{"id":"1","author_id":"2","channel_id":"3","content":"","timestamp":4}]},"error":null}"#
    );
    let r = b
        .handle_line(
            r#"{"id":3,"command":"get_user_messages","args":{"recipient_id":"4"}}"#,
            CallbackReply::Never,
        )
        .unwrap();
    assert_eq!(r.error.as_deref(), Some("Message fetch timeout"));
}

#[test]
fn lobby_lifecycle_commands() {
    let mut b = ready_bridge();
    let r = b
        .handle_line(
            r#"{"id":2,"command":"create_lobby","args":{"secret":"s3","title":"t","description":"d"}}"#,
            fired(ServiceData::LobbyId(808)),
        )
        .unwrap();
    assert_eq!(
        text_of(&r),
        r#"{"id":2,"success":true,"result":{"lobby_id":"808"},"error":null}"#
    );
    let r = b
        .handle_line(
            r#"{"id":3,"command":"create_or_join_lobby","args":{"secret":"s3"}}"#,
            fired(ServiceData::LobbyId(0)),
        )
        .unwrap();
    assert_eq!(r.error.as_deref(), Some("Failed to create/join lobby"));
    let r = b
        .handle_line(
            r#"{"id":4,"command":"create_or_join_lobby","args":{"secret":""}}"#,
            CallbackReply::Never,
        )
        .unwrap();
    assert_eq!(r.error.as_deref(), Some("Lobby secret required"));
    let r = b
        .handle_line(
            r#"{"id":5,"command":"create_or_join_lobby","args":{"secret":"s3"}}"#,
            CallbackReply::Never,
        )
        .unwrap();
    assert_eq!(r.error.as_deref(), Some("Lobby operation timeout"));
    let r = b
        .handle_line(
            r#"{"id":6,"command":"leave_lobby","args":{"lobby_id":808}}"#,
            fired(ServiceData::Ack),
        )
        .unwrap();
    assert_eq!(
        text_of(&r),
        r#"{"id":6,"success":true,"result":{"left":true},"error":null}"#
    );
    let r = b
        .handle_line(r#"{"id":7,"command":"leave_lobby","args":{"lobby_id":0}}"#, CallbackReply::Never)
        .unwrap();
    assert_eq!(r.error.as_deref(), Some("Invalid lobby ID"));
}

#[test]
fn send_lobby_message_reports_the_service_verdict() {
    let mut b = ready_bridge();
    let r = b
        .handle_line(
            r#"{"id":2,"command":"send_lobby_message","args":{"lobby_id":9,"content":"yo"}}"#,
            fired(ServiceData::AckFlag(true)),
        )
        .unwrap();
    assert_eq!(
        text_of(&r),
        r#"{"id":2,"success":true,"result":{"sent":true},"error":null}"#
    );
    let r = b
        .handle_line(
            r#"{"id":3,"command":"send_lobby_message","args":{"lobby_id":"9","content":"yo"}}"#,
            fired(ServiceData::AckFlag(false)),
        )
        .unwrap();
    assert_eq!(
        r.error.as_deref(),
        Some("Discord SDK returned error result for SendLobbyMessage")
    );
    let r = b
        .handle_line(
            r#"{"id":4,"command":"send_lobby_message","args":{"lobby_id":9,"content":"yo"}}"#,
            CallbackReply::Never,
        )
        .unwrap();
    assert_eq!(
        r.error.as_deref(),
        Some("Send message timeout - callback never fired")
    );
}

#[test]
fn mute_and_deafen_echo_and_read() {
    let mut b = ready_bridge();
    let r = b
        .handle_line(r#"{"id":2,"command":"set_mute","args":{"mute":true}}"#, CallbackReply::Never)
        .unwrap();
    assert_eq!(
        text_of(&r),
        r#"{"id":2,"success":true,"result":{"muted":true},"error":null}"#
    );
    let r = b
        .handle_line(r#"{"id":3,"command":"get_mute_status"}"#, fired(ServiceData::Flag(true)))
        .unwrap();
    assert_eq!(
        text_of(&r),
        r#"{"id":3,"success":true,"result":{"muted":true},"error":null}"#
    );
    let r = b
        .handle_line(r#"{"id":4,"command":"set_deaf","args":{}}"#, CallbackReply::Never)
        .unwrap();
    assert_eq!(
        text_of(&r),
        r#"{"id":4,"success":true,"result":{"deafened":false},"error":null}"#
    );
    let r = b
        .handle_line(r#"{"id":5,"command":"get_deaf_status"}"#, fired(ServiceData::Flag(false)))
        .unwrap();
    assert_eq!(
        text_of(&r),
        r#"{"id":5,"success":true,"result":{"deafened":false},"error":null}"#
    );
}

#[test]
fn voice_connect_and_disconnect() {
    let mut b = ready_bridge();
    let r = b
        .handle_line(
            r#"{"id":2,"command":"connect_lobby_voice","args":{"lobby_id":"6"}}"#,
            fired(ServiceData::Ack),
        )
        .unwrap();
    assert_eq!(
        text_of(&r),
        r#"{"id":2,"success":true,"result":{"connected":true,"callback_fired":true},"error":null}"#
    );
    let r = b
        .handle_line(
            r#"{"id":3,"command":"connect_lobby_voice","args":{"lobby_id":"6"}}"#,
            CallbackReply::Never,
        )
        .unwrap();
    assert_eq!(r.error.as_deref(), Some("Voice connect timeout"));
    let r = b
        .handle_line(
            r#"{"id":4,"command":"disconnect_lobby_voice","args":{"lobby_id":"6"}}"#,
            fired(ServiceData::Ack),
        )
        .unwrap();
    assert_eq!(
        text_of(&r),
        r#"{"id":4,"success":true,"result":{"disconnected":true},"error":null}"#
    );
    let r = b
        .handle_line(r#"{"id":5,"command":"connect_lobby_voice","args":{}}"#, CallbackReply::Never)
        .unwrap();
    assert_eq!(r.error.as_deref(), Some("Missing lobby_id argument"));
    let r = b
        .handle_line(r#"{"id":6,"command":"disconnect_lobby_voice"}"#, CallbackReply::Never)
        .unwrap();
    assert_eq!(r.error.as_deref(), Some("Missing arguments"));
}

#[test]
fn message_events_drain_once() {
    let mut b = ready_bridge();
    b.push_message_event(42, "t0".to_string());
    b.push_message_event(43, "t1".to_string());
    let r = b.handle_line(r#"{"id":2,"command":"get_message_events"}"#, CallbackReply::Never).unwrap();
    assert_eq!(
        text_of(&r),
        r#"{"id":2,"success":true,"result":{"messages":[{"message_id":"42","timestamp":"t0"},{"message_id":"43","timestamp":"t1"}]},"error":null}"#
    );
    let r = b.handle_line(r#"{"id":3,"command":"get_message_events"}"#, CallbackReply::Never).unwrap();
    assert_eq!(
        text_of(&r),
        r#"{"id":3,"success":true,"result":{"messages":[]},"error":null}"#
    );
}

#[test]
fn stored_token_type_is_parsed() {
    let cmd = Command {
        id: 1,
        name: "initialize".to_string(),
        args: Some(Json::Obj(vec![
            (
                "token".to_string(),
                Json::Str("type=2:BBBBBBBBBBBBBBBBBBBBBBBB".to_string()),
            ),
            ("app_id".to_string(), Json::Str("42".to_string())),
        ])),
    };
    match plan_command(false, &cmd) {
        Plan::Invoke(Operation::Initialize { plan: TokenPlan::Stored { token_type, token }, app_id }) => {
            assert_eq!(token_type, 2);
            assert_eq!(token, "BBBBBBBBBBBBBBBBBBBBBBBB");
            assert_eq!(app_id, 42);
        },
        _ => panic!("expected a stored-token initialization"),
    }
}

#[test]
fn limit_is_narrowed_like_a_cast() {
    let cmd = Command {
        id: 1,
        name: "get_lobby_messages".to_string(),
        args: Some(Json::Obj(vec![
            ("lobby_id".to_string(), Json::Str("5".to_string())),
            ("limit".to_string(), Json::Num(4294967301)),
        ])),
    };
    match plan_command(true, &cmd) {
        Plan::Invoke(Operation::GetLobbyMessages { lobby_id, limit }) => {
            assert_eq!(lobby_id, 5);
            assert_eq!(limit, 5);
        },
        _ => panic!("expected an operation"),
    }
}
