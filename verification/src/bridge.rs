//! The synchronous bridge: one command in, exactly one response out.
//!
//! `handle_command` resolves a command completely before the next is
//! read: it validates, runs the session guard, and — where an operation
//! is owed — plays the service's reply through the poll adapter and wraps
//! whatever came of it. The bridge itself holds only the session flag
//! and the queue of message events; everything the service knows stays on
//! the service's side of the boundary.
use vstd::prelude::*;
use crate::json::Json;
use crate::ops::{Operation, OperationV, Plan, plan_command, fail_resp, ok_resp};
use crate::parse::{parse_json_text, json_text_parse};
use crate::poll::{PollConfig, OpResult, OpResultV, spec_await, await_reply};
use crate::protocol::{
    Command, CommandV, Response, ResponseV, spec_fail, spec_ok, command_of_json, spec_command_of,
};
use crate::results::{
    obj1, obj2, jstr, id_str, guilds_result, channels_result, messages_result, friends_result,
    lobby_ids_result, meta_object, events_result, spec_guilds_result, spec_channels_result,
    spec_messages_result, spec_friends_result, spec_lobby_ids_result, spec_events_result,
    spec_message_item, spec_meta_fields, spec_id_str, message_item,
};
use crate::service::{CallbackReply, CallbackReplyV, ServiceData, ServiceDataV};
use crate::session::{spec_init_response, spec_init_ready, initialize_response};
use crate::text::{spec_dec_digits, dec_string};
use crate::json::JsonV;

verus! {

/// The bridge's own state: whether a session is ready, and the message
/// events queued for the next drain.
pub struct Bridge {
    pub ready: bool,
    pub events: Vec<(u64, String)>,
}

/// The mathematical shape of a `Bridge`.
pub struct BridgeV {
    pub ready: bool,
    pub events: Seq<(u64, Seq<char>)>,
}

impl View for Bridge {
    type V = BridgeV;

    open spec fn view(&self) -> BridgeV {
        BridgeV { ready: self.ready, events: self.events.deep_view() }
    }
}

impl Bridge {
    /// A fresh bridge: no session, no queued events.
    pub fn new() -> (b: Bridge)
        ensures
            !b@.ready,
            b@.events == Seq::<(u64, Seq<char>)>::empty(),
    {
        let b = Bridge { ready: false, events: Vec::new() };
        proof {
            assert(b@.events =~= Seq::<(u64, Seq<char>)>::empty());
        }
        b
    }

    /// Queues one message event, as the runner reports the service's
    /// message-created callback.
    pub fn push_message_event(&mut self, message_id: u64, timestamp: String)
        ensures
            final(self)@.ready == old(self)@.ready,
            final(self)@.events == old(self)@.events.push((message_id, timestamp@)),
    {
        let ghost tsv = timestamp@;
        self.events.push((message_id, timestamp));
        proof {
            assert(final(self)@.events =~= old(self)@.events.push((message_id, tsv)));
        }
    }
}

/// Each operation class's polling schedule: local queries wait a few
/// seconds on a tight interval, networked and authorization-bound
/// operations longer.
pub open spec fn spec_op_config(op: OperationV) -> PollConfig {
    match op {
        OperationV::GetGuilds => PollConfig { deadline_ms: 15000, interval_ms: 50 },
        OperationV::GetGuildChannels { .. } => PollConfig { deadline_ms: 5000, interval_ms: 50 },
        OperationV::SendChannelMessage { .. } => PollConfig { deadline_ms: 5000, interval_ms: 50 },
        OperationV::SetActivity => PollConfig { deadline_ms: 3000, interval_ms: 50 },
        OperationV::SendDm { .. } => PollConfig { deadline_ms: 5000, interval_ms: 50 },
        OperationV::GetLobbyMessages { .. } => PollConfig { deadline_ms: 5000, interval_ms: 50 },
        OperationV::GetUserMessages { .. } => PollConfig { deadline_ms: 10000, interval_ms: 50 },
        OperationV::CreateLobby { .. } => PollConfig { deadline_ms: 10000, interval_ms: 50 },
        OperationV::SendLobbyMessage { .. } => PollConfig { deadline_ms: 15000, interval_ms: 25 },
        OperationV::LeaveLobby { .. } => PollConfig { deadline_ms: 5000, interval_ms: 50 },
        OperationV::ConnectVoice { .. } => PollConfig { deadline_ms: 10000, interval_ms: 100 },
        OperationV::DisconnectVoice { .. } => PollConfig { deadline_ms: 10000, interval_ms: 25 },
        OperationV::CreateOrJoinLobby { .. } => PollConfig { deadline_ms: 10000, interval_ms: 50 },
        _ => PollConfig { deadline_ms: 1, interval_ms: 1 },
    }
}

/// Whether an operation waits on a callback through the poll loop.
pub open spec fn spec_is_async(op: OperationV) -> bool {
    match op {
        OperationV::GetGuilds => true,
        OperationV::GetGuildChannels { .. } => true,
        OperationV::SendChannelMessage { .. } => true,
        OperationV::SetActivity => true,
        OperationV::SendDm { .. } => true,
        OperationV::GetLobbyMessages { .. } => true,
        OperationV::GetUserMessages { .. } => true,
        OperationV::CreateLobby { .. } => true,
        OperationV::SendLobbyMessage { .. } => true,
        OperationV::LeaveLobby { .. } => true,
        OperationV::ConnectVoice { .. } => true,
        OperationV::DisconnectVoice { .. } => true,
        OperationV::CreateOrJoinLobby { .. } => true,
        _ => false,
    }
}

fn op_config(op: &Operation) -> (r: PollConfig)
    ensures
        r == spec_op_config(op.deep_view()),
        r.wf(),
{
    match op {
        Operation::GetGuilds => PollConfig::new(15000, 50),
        Operation::GetGuildChannels { .. } => PollConfig::new(5000, 50),
        Operation::SendChannelMessage { .. } => PollConfig::new(5000, 50),
        Operation::SetActivity => PollConfig::new(3000, 50),
        Operation::SendDm { .. } => PollConfig::new(5000, 50),
        Operation::GetLobbyMessages { .. } => PollConfig::new(5000, 50),
        Operation::GetUserMessages { .. } => PollConfig::new(10000, 50),
        Operation::CreateLobby { .. } => PollConfig::new(10000, 50),
        Operation::SendLobbyMessage { .. } => PollConfig::new(15000, 25),
        Operation::LeaveLobby { .. } => PollConfig::new(5000, 50),
        Operation::ConnectVoice { .. } => PollConfig::new(10000, 100),
        Operation::DisconnectVoice { .. } => PollConfig::new(10000, 25),
        Operation::CreateOrJoinLobby { .. } => PollConfig::new(10000, 50),
        _ => PollConfig::new(1, 1),
    }
}

/// The response one invoked operation earns from the service's reply.
/// An asynchronous operation sees the reply only through the poll
/// adapter; a reply payload of a shape the operation does not collect
/// counts as the operation's empty payload.
pub open spec fn spec_op_response(
    id: u64,
    op: OperationV,
    reply: CallbackReplyV,
    b: BridgeV,
) -> ResponseV {
    match op {
        OperationV::Initialize { plan, app_id } => spec_init_response(id, plan, reply),
        OperationV::Teardown => spec_ok(
            id,
            JsonV::Obj(seq![("status"@, JsonV::Str("disconnected"@))]),
        ),
        OperationV::DrainEvents => spec_ok(id, spec_events_result(b.events)),
        OperationV::SetMute { mute } => spec_ok(
            id,
            JsonV::Obj(seq![("muted"@, JsonV::Bool(mute))]),
        ),
        OperationV::SetDeaf { deaf } => spec_ok(
            id,
            JsonV::Obj(seq![("deafened"@, JsonV::Bool(deaf))]),
        ),
        OperationV::GetMuteStatus => spec_ok(
            id,
            JsonV::Obj(seq![("muted"@, JsonV::Bool(spec_flag_of(reply)))]),
        ),
        OperationV::GetDeafStatus => spec_ok(
            id,
            JsonV::Obj(seq![("deafened"@, JsonV::Bool(spec_flag_of(reply)))]),
        ),
        OperationV::GetRelationships => spec_ok(
            id,
            spec_friends_result(
                match reply {
                    CallbackReplyV::Fired { at_ms, data: ServiceDataV::Relationships(rs) } => rs,
                    _ => Seq::empty(),
                },
            ),
        ),
        OperationV::GetLobbyIds => spec_ok(
            id,
            spec_lobby_ids_result(
                match reply {
                    CallbackReplyV::Fired { at_ms, data: ServiceDataV::LobbyIds(ids) } => ids,
                    _ => Seq::empty(),
                },
            ),
        ),
        OperationV::GetLobby { lobby_id } => {
            match reply {
                CallbackReplyV::Fired { at_ms, data: ServiceDataV::LobbyMeta(Some(ps)) } => spec_ok(
                    id,
                    JsonV::Obj(
                        seq![
                            ("lobby_id"@, JsonV::Num(lobby_id)),
                            ("metadata"@, JsonV::Obj(spec_meta_fields(ps))),
                        ],
                    ),
                ),
                _ => spec_fail(
                    id,
                    "Failed to get lobby handle for "@ + spec_dec_digits(lobby_id as nat),
                ),
            }
        },
        OperationV::GetMessage { message_id } => {
            match reply {
                CallbackReplyV::Fired { at_ms, data: ServiceDataV::MessageInfo(Some(m)) } => spec_ok(
                    id,
                    spec_message_item(m),
                ),
                _ => spec_fail(id, "Message not found"@),
            }
        },
        _ => spec_async_response(id, op, spec_await(spec_op_config(op), reply)),
    }
}

/// The boolean a direct read delivered; false where the reply carried
/// anything else.
pub open spec fn spec_flag_of(reply: CallbackReplyV) -> bool {
    match reply {
        CallbackReplyV::Fired { at_ms, data: ServiceDataV::Flag(b) } => b,
        _ => false,
    }
}

/// The response of an asynchronous operation, by what the poll adapter
/// reported.
pub open spec fn spec_async_response(id: u64, op: OperationV, aw: OpResultV) -> ResponseV {
    match op {
        OperationV::GetGuilds => match aw {
            OpResultV::Data { data, elapsed_ms } => match data {
                ServiceDataV::Guilds(None) => spec_fail(id, "Null span pointer"@),
                ServiceDataV::Guilds(Some(gs)) => spec_ok(id, spec_guilds_result(gs)),
                _ => spec_ok(id, spec_guilds_result(Seq::empty())),
            },
            OpResultV::TimedOut { elapsed_ms } => spec_fail(id, "Guild fetch timeout"@),
        },
        OperationV::GetGuildChannels { guild_id } => match aw {
            OpResultV::Data { data, elapsed_ms } => match data {
                ServiceDataV::Channels(cs) => spec_ok(id, spec_channels_result(cs)),
                _ => spec_ok(id, spec_channels_result(Seq::empty())),
            },
            OpResultV::TimedOut { elapsed_ms } => spec_fail(
                id,
                "Timeout for guild "@ + spec_dec_digits(guild_id as nat),
            ),
        },
        OperationV::SendChannelMessage { .. } => match aw {
            OpResultV::Data { data, elapsed_ms } => spec_ok(
                id,
                JsonV::Obj(seq![("sent"@, JsonV::Bool(true))]),
            ),
            OpResultV::TimedOut { elapsed_ms } => spec_fail(id, "Message send timeout"@),
        },
        OperationV::SetActivity => match aw {
            OpResultV::Data { data, elapsed_ms } => spec_ok(
                id,
                JsonV::Obj(seq![("updated"@, JsonV::Bool(true))]),
            ),
            OpResultV::TimedOut { elapsed_ms } => spec_fail(id, "Activity update timeout"@),
        },
        OperationV::SendDm { .. } => match aw {
            OpResultV::Data { data, elapsed_ms } => match data {
                ServiceDataV::SentId(mid) => spec_ok(
                    id,
                    JsonV::Obj(seq![("message_id"@, spec_id_str(mid))]),
                ),
                _ => spec_ok(id, JsonV::Obj(seq![("message_id"@, spec_id_str(0))])),
            },
            OpResultV::TimedOut { elapsed_ms } => spec_fail(id, "DM send timeout"@),
        },
        OperationV::GetLobbyMessages { .. } => match aw {
            OpResultV::Data { data, elapsed_ms } => match data {
                ServiceDataV::Messages(ms) => spec_ok(id, spec_messages_result(ms)),
                _ => spec_ok(id, spec_messages_result(Seq::empty())),
            },
            OpResultV::TimedOut { elapsed_ms } => spec_fail(id, "Message fetch timeout"@),
        },
        OperationV::GetUserMessages { .. } => match aw {
            OpResultV::Data { data, elapsed_ms } => match data {
                ServiceDataV::Messages(ms) => spec_ok(id, spec_messages_result(ms)),
                _ => spec_ok(id, spec_messages_result(Seq::empty())),
            },
            OpResultV::TimedOut { elapsed_ms } => spec_fail(id, "Message fetch timeout"@),
        },
        OperationV::CreateLobby { .. } => match aw {
            OpResultV::Data { data, elapsed_ms } => match data {
                ServiceDataV::LobbyId(n) => spec_ok(
                    id,
                    JsonV::Obj(seq![("lobby_id"@, spec_id_str(n))]),
                ),
                _ => spec_ok(id, JsonV::Obj(seq![("lobby_id"@, spec_id_str(0))])),
            },
            OpResultV::TimedOut { elapsed_ms } => spec_fail(id, "Lobby creation timeout"@),
        },
        OperationV::SendLobbyMessage { .. } => match aw {
            OpResultV::Data { data, elapsed_ms } => match data {
                ServiceDataV::AckFlag(true) => spec_ok(
                    id,
                    JsonV::Obj(seq![("sent"@, JsonV::Bool(true))]),
                ),
                _ => spec_fail(id, "Discord SDK returned error result for SendLobbyMessage"@),
            },
            OpResultV::TimedOut { elapsed_ms } => spec_fail(
                id,
                "Send message timeout - callback never fired"@,
            ),
        },
        OperationV::LeaveLobby { .. } => match aw {
            OpResultV::Data { data, elapsed_ms } => spec_ok(
                id,
                JsonV::Obj(seq![("left"@, JsonV::Bool(true))]),
            ),
            OpResultV::TimedOut { elapsed_ms } => spec_fail(id, "Leave lobby timeout"@),
        },
        OperationV::ConnectVoice { .. } => match aw {
            OpResultV::Data { data, elapsed_ms } => spec_ok(
                id,
                JsonV::Obj(
                    seq![
                        ("connected"@, JsonV::Bool(true)),
                        ("callback_fired"@, JsonV::Bool(true)),
                    ],
                ),
            ),
            OpResultV::TimedOut { elapsed_ms } => spec_fail(id, "Voice connect timeout"@),
        },
        OperationV::DisconnectVoice { .. } => match aw {
            OpResultV::Data { data, elapsed_ms } => spec_ok(
                id,
                JsonV::Obj(seq![("disconnected"@, JsonV::Bool(true))]),
            ),
            OpResultV::TimedOut { elapsed_ms } => spec_fail(id, "Voice disconnect timeout"@),
        },
        OperationV::CreateOrJoinLobby { .. } => match aw {
            OpResultV::Data { data, elapsed_ms } => match data {
                ServiceDataV::LobbyId(n) => if n > 0 {
                    spec_ok(id, JsonV::Obj(seq![("lobby_id"@, spec_id_str(n))]))
                } else {
                    spec_fail(id, "Failed to create/join lobby"@)
                },
                _ => spec_fail(id, "Failed to create/join lobby"@),
            },
            OpResultV::TimedOut { elapsed_ms } => spec_fail(id, "Lobby operation timeout"@),
        },
        // Operations resolved above never reach the adapter; this arm is
        // outside every caller's range.
        _ => spec_fail(id, Seq::empty()),
    }
}

/// The bridge's state after one invoked operation: `initialize` sets the
/// session flag by its outcome, `disconnect` clears it, draining empties
/// the event queue; nothing else touches the bridge.
pub open spec fn spec_op_bridge(
    id: u64,
    op: OperationV,
    reply: CallbackReplyV,
    b: BridgeV,
) -> BridgeV {
    match op {
        OperationV::Initialize { plan, app_id } => BridgeV {
            ready: spec_init_ready(id, plan, reply),
            events: b.events,
        },
        OperationV::Teardown => BridgeV { ready: false, events: b.events },
        OperationV::DrainEvents => BridgeV { ready: b.ready, events: Seq::empty() },
        _ => b,
    }
}

/// One whole command: the response sent, and the bridge's next state.
pub open spec fn spec_handle(b: BridgeV, c: CommandV, reply: CallbackReplyV) -> (
    ResponseV,
    BridgeV,
) {
    match crate::ops::spec_plan(b.ready, c) {
        crate::ops::PlanV::Respond(r) => (r, b),
        crate::ops::PlanV::Invoke(op) => (
            spec_op_response(c.id, op, reply, b),
            spec_op_bridge(c.id, op, reply, b),
        ),
    }
}

impl Bridge {
    fn run_op(&mut self, id: u64, op: Operation, reply: CallbackReply) -> (r: Response)
        ensures
            r@ == spec_op_response(id, op.deep_view(), reply.deep_view(), old(self)@),
            final(self)@ == spec_op_bridge(id, op.deep_view(), reply.deep_view(), old(self)@),
    {
        match op {
            Operation::Initialize { plan, app_id } => {
                let (resp, ready) = initialize_response(id, &plan, reply);
                self.ready = ready;
                resp
            },
            Operation::Teardown => {
                self.ready = false;
                ok_resp(id, obj1("status", jstr("disconnected")))
            },
            Operation::DrainEvents => {
                let resp = ok_resp(id, events_result(&self.events));
                self.events = Vec::new();
                proof {
                    assert(final(self)@.events =~= Seq::<(u64, Seq<char>)>::empty());
                }
                resp
            },
            Operation::SetMute { mute } => ok_resp(id, obj1("muted", Json::Bool(mute))),
            Operation::SetDeaf { deaf } => ok_resp(id, obj1("deafened", Json::Bool(deaf))),
            Operation::GetMuteStatus => {
                let b = match reply {
                    CallbackReply::Fired { at_ms, data: ServiceData::Flag(b) } => b,
                    _ => false,
                };
                ok_resp(id, obj1("muted", Json::Bool(b)))
            },
            Operation::GetDeafStatus => {
                let b = match reply {
                    CallbackReply::Fired { at_ms, data: ServiceData::Flag(b) } => b,
                    _ => false,
                };
                ok_resp(id, obj1("deafened", Json::Bool(b)))
            },
            Operation::GetRelationships => {
                match reply {
                    CallbackReply::Fired { at_ms, data: ServiceData::Relationships(rs) } => ok_resp(
                        id,
                        friends_result(&rs),
                    ),
                    _ => {
                        let empty: Vec<crate::service::RelEntry> = Vec::new();
                        proof {
                            assert(empty.deep_view() =~= Seq::<crate::service::RelEntryV>::empty());
                        }
                        ok_resp(id, friends_result(&empty))
                    },
                }
            },
            Operation::GetLobbyIds => {
                match reply {
                    CallbackReply::Fired { at_ms, data: ServiceData::LobbyIds(span) } => ok_resp(
                        id,
                        lobby_ids_result(&span.items),
                    ),
                    _ => {
                        let empty: Vec<u64> = Vec::new();
                        proof {
                            assert(empty@ =~= Seq::<u64>::empty());
                        }
                        ok_resp(id, lobby_ids_result(&empty))
                    },
                }
            },
            Operation::GetLobby { lobby_id } => {
                match reply {
                    CallbackReply::Fired { at_ms, data: ServiceData::LobbyMeta(Some(ps)) } => {
                        ok_resp(
                            id,
                            obj2(
                                "lobby_id",
                                Json::Num(lobby_id),
                                "metadata",
                                meta_object(&ps),
                            ),
                        )
                    },
                    _ => {
                        let mut msg = String::from_str("Failed to get lobby handle for ");
                        msg.append(dec_string(lobby_id).as_str());
                        Response { id, success: false, result: None, error: Some(msg) }
                    },
                }
            },
            Operation::GetMessage { message_id } => {
                match reply {
                    CallbackReply::Fired { at_ms, data: ServiceData::MessageInfo(Some(m)) } => {
                        ok_resp(id, message_item(&m))
                    },
                    _ => fail_resp(id, "Message not found"),
                }
            },
            Operation::GetGuilds => {
                let cfg = op_config(&Operation::GetGuilds);
                match await_reply(&cfg, reply) {
                    OpResult::Data { data, elapsed_ms } => match data {
                        ServiceData::Guilds(None) => fail_resp(id, "Null span pointer"),
                        ServiceData::Guilds(Some(gs)) => ok_resp(id, guilds_result(&gs)),
                        _ => {
                            let empty: Vec<crate::service::GuildEntry> = Vec::new();
                            proof {
                                assert(empty.deep_view() =~= Seq::<
                                    crate::service::GuildEntryV,
                                >::empty());
                            }
                            ok_resp(id, guilds_result(&empty))
                        },
                    },
                    OpResult::TimedOut { elapsed_ms } => fail_resp(id, "Guild fetch timeout"),
                }
            },
            Operation::GetGuildChannels { guild_id } => {
                let cfg = op_config(&Operation::GetGuildChannels { guild_id });
                match await_reply(&cfg, reply) {
                    OpResult::Data { data, elapsed_ms } => match data {
                        ServiceData::Channels(cs) => ok_resp(id, channels_result(&cs)),
                        _ => {
                            let empty: Vec<crate::service::ChannelEntry> = Vec::new();
                            proof {
                                assert(empty.deep_view() =~= Seq::<
                                    crate::service::ChannelEntryV,
                                >::empty());
                            }
                            ok_resp(id, channels_result(&empty))
                        },
                    },
                    OpResult::TimedOut { elapsed_ms } => {
                        let mut msg = String::from_str("Timeout for guild ");
                        msg.append(dec_string(guild_id).as_str());
                        Response { id, success: false, result: None, error: Some(msg) }
                    },
                }
            },
            Operation::SendChannelMessage { channel_id, content } => {
                let cfg = op_config(&Operation::SendChannelMessage { channel_id, content });
                match await_reply(&cfg, reply) {
                    OpResult::Data { data, elapsed_ms } => ok_resp(
                        id,
                        obj1("sent", Json::Bool(true)),
                    ),
                    OpResult::TimedOut { elapsed_ms } => fail_resp(id, "Message send timeout"),
                }
            },
            Operation::SetActivity => {
                let cfg = op_config(&Operation::SetActivity);
                match await_reply(&cfg, reply) {
                    OpResult::Data { data, elapsed_ms } => ok_resp(
                        id,
                        obj1("updated", Json::Bool(true)),
                    ),
                    OpResult::TimedOut { elapsed_ms } => fail_resp(id, "Activity update timeout"),
                }
            },
            Operation::SendDm { recipient_id, content } => {
                let cfg = op_config(&Operation::SendDm { recipient_id, content });
                match await_reply(&cfg, reply) {
                    OpResult::Data { data, elapsed_ms } => match data {
                        ServiceData::SentId(mid) => ok_resp(id, obj1("message_id", id_str(mid))),
                        _ => ok_resp(id, obj1("message_id", id_str(0))),
                    },
                    OpResult::TimedOut { elapsed_ms } => fail_resp(id, "DM send timeout"),
                }
            },
            Operation::GetLobbyMessages { lobby_id, limit } => {
                let cfg = op_config(&Operation::GetLobbyMessages { lobby_id, limit });
                match await_reply(&cfg, reply) {
                    OpResult::Data { data, elapsed_ms } => match data {
                        ServiceData::Messages(ms) => ok_resp(id, messages_result(&ms)),
                        _ => {
                            let empty: Vec<crate::service::MessageEntry> = Vec::new();
                            proof {
                                assert(empty.deep_view() =~= Seq::<
                                    crate::service::MessageEntryV,
                                >::empty());
                            }
                            ok_resp(id, messages_result(&empty))
                        },
                    },
                    OpResult::TimedOut { elapsed_ms } => fail_resp(id, "Message fetch timeout"),
                }
            },
            Operation::GetUserMessages { recipient_id, limit } => {
                let cfg = op_config(&Operation::GetUserMessages { recipient_id, limit });
                match await_reply(&cfg, reply) {
                    OpResult::Data { data, elapsed_ms } => match data {
                        ServiceData::Messages(ms) => ok_resp(id, messages_result(&ms)),
                        _ => {
                            let empty: Vec<crate::service::MessageEntry> = Vec::new();
                            proof {
                                assert(empty.deep_view() =~= Seq::<
                                    crate::service::MessageEntryV,
                                >::empty());
                            }
                            ok_resp(id, messages_result(&empty))
                        },
                    },
                    OpResult::TimedOut { elapsed_ms } => fail_resp(id, "Message fetch timeout"),
                }
            },
            Operation::CreateLobby { secret, title, description } => {
                let cfg = op_config(&Operation::CreateLobby { secret, title, description });
                match await_reply(&cfg, reply) {
                    OpResult::Data { data, elapsed_ms } => match data {
                        ServiceData::LobbyId(n) => ok_resp(id, obj1("lobby_id", id_str(n))),
                        _ => ok_resp(id, obj1("lobby_id", id_str(0))),
                    },
                    OpResult::TimedOut { elapsed_ms } => fail_resp(id, "Lobby creation timeout"),
                }
            },
            Operation::SendLobbyMessage { lobby_id, content } => {
                let cfg = op_config(&Operation::SendLobbyMessage { lobby_id, content });
                match await_reply(&cfg, reply) {
                    OpResult::Data { data, elapsed_ms } => match data {
                        ServiceData::AckFlag(true) => ok_resp(id, obj1("sent", Json::Bool(true))),
                        _ => fail_resp(
                            id,
                            "Discord SDK returned error result for SendLobbyMessage",
                        ),
                    },
                    OpResult::TimedOut { elapsed_ms } => fail_resp(
                        id,
                        "Send message timeout - callback never fired",
                    ),
                }
            },
            Operation::LeaveLobby { lobby_id } => {
                let cfg = op_config(&Operation::LeaveLobby { lobby_id });
                match await_reply(&cfg, reply) {
                    OpResult::Data { data, elapsed_ms } => ok_resp(
                        id,
                        obj1("left", Json::Bool(true)),
                    ),
                    OpResult::TimedOut { elapsed_ms } => fail_resp(id, "Leave lobby timeout"),
                }
            },
            Operation::ConnectVoice { lobby_id } => {
                let cfg = op_config(&Operation::ConnectVoice { lobby_id });
                match await_reply(&cfg, reply) {
                    OpResult::Data { data, elapsed_ms } => ok_resp(
                        id,
                        obj2(
                            "connected",
                            Json::Bool(true),
                            "callback_fired",
                            Json::Bool(true),
                        ),
                    ),
                    OpResult::TimedOut { elapsed_ms } => fail_resp(id, "Voice connect timeout"),
                }
            },
            Operation::DisconnectVoice { lobby_id } => {
                let cfg = op_config(&Operation::DisconnectVoice { lobby_id });
                match await_reply(&cfg, reply) {
                    OpResult::Data { data, elapsed_ms } => ok_resp(
                        id,
                        obj1("disconnected", Json::Bool(true)),
                    ),
                    OpResult::TimedOut { elapsed_ms } => fail_resp(id, "Voice disconnect timeout"),
                }
            },
            Operation::CreateOrJoinLobby { secret } => {
                let cfg = op_config(&Operation::CreateOrJoinLobby { secret });
                match await_reply(&cfg, reply) {
                    OpResult::Data { data, elapsed_ms } => match data {
                        ServiceData::LobbyId(n) => {
                            if n > 0 {
                                ok_resp(id, obj1("lobby_id", id_str(n)))
                            } else {
                                fail_resp(id, "Failed to create/join lobby")
                            }
                        },
                        _ => fail_resp(id, "Failed to create/join lobby"),
                    },
                    OpResult::TimedOut { elapsed_ms } => fail_resp(id, "Lobby operation timeout"),
                }
            },
        }
    }

    /// Resolves one command completely: validation, the session guard,
    /// and — where an operation is owed — the poll adapter against the
    /// service's reply. Exactly one response comes back, bearing the
    /// command's identifier.
    pub fn handle_command(&mut self, cmd: &Command, reply: CallbackReply) -> (r: Response)
        ensures
            r@ == spec_handle(old(self)@, cmd@, reply.deep_view()).0,
            final(self)@ == spec_handle(old(self)@, cmd@, reply.deep_view()).1,
            r@.id == cmd@.id,
    {
        proof {
            lemma_response_id(old(self)@, cmd@, reply.deep_view());
        }
        match plan_command(self.ready, cmd) {
            Plan::Respond(r) => r,
            Plan::Invoke(op) => self.run_op(cmd.id, op, reply),
        }
    }
}

/// Every response echoes its command's identifier.
pub proof fn lemma_response_id(b: BridgeV, c: CommandV, reply: CallbackReplyV)
    ensures
        spec_handle(b, c, reply).0.id == c.id,
{
}

/// The command one input line carries, if any: the line must decode as a
/// JSON document that denotes a command.
pub open spec fn spec_line_command(line: Seq<char>) -> Option<CommandV> {
    match json_text_parse(line) {
        Some(j) => spec_command_of(j),
        None => None,
    }
}

/// One input line's effect: a response for every line that carries a
/// command, none — and no state change — for a malformed line.
pub open spec fn spec_handle_line(b: BridgeV, line: Seq<char>, reply: CallbackReplyV) -> (
    Option<ResponseV>,
    BridgeV,
) {
    match spec_line_command(line) {
        Some(c) => (Some(spec_handle(b, c, reply).0), spec_handle(b, c, reply).1),
        None => (None, b),
    }
}

impl Bridge {
    /// Reads one input line and resolves it: a line that carries a
    /// command gets exactly one response; a malformed line gets none and
    /// leaves the bridge untouched.
    pub fn handle_line(&mut self, line: &str, reply: CallbackReply) -> (r: Option<Response>)
        ensures
            match r {
                Some(resp) => spec_handle_line(old(self)@, line@, reply.deep_view()).0 == Some(
                    resp@,
                ),
                None => spec_handle_line(old(self)@, line@, reply.deep_view()).0 is None,
            },
            final(self)@ == spec_handle_line(old(self)@, line@, reply.deep_view()).1,
    {
        match parse_json_text(line) {
            Some(j) => match command_of_json(&j) {
                Some(cmd) => Some(self.handle_command(&cmd, reply)),
                None => None,
            },
            None => None,
        }
    }
}

/// A whole session transcript: each line in order, each against its own
/// service reply, the bridge's state threading through.
pub open spec fn spec_script(
    b: BridgeV,
    lines: Seq<Seq<char>>,
    replies: Seq<CallbackReplyV>,
) -> (Seq<ResponseV>, BridgeV)
    decreases lines.len(),
{
    if lines.len() == 0 {
        (Seq::empty(), b)
    } else {
        let reply = if replies.len() > 0 {
            replies[0]
        } else {
            CallbackReplyV::Never
        };
        let first = spec_handle_line(b, lines[0], reply);
        let rest = spec_script(
            first.1,
            lines.drop_first(),
            if replies.len() > 0 {
                replies.drop_first()
            } else {
                replies
            },
        );
        (
            match first.0 {
                Some(r) => seq![r] + rest.0,
                None => rest.0,
            },
            rest.1,
        )
    }
}

impl Bridge {
    /// Runs a whole transcript: every line in order, pairing the k-th
    /// line with the k-th service reply. Responses come back in command
    /// order, one per well-formed line, none for the rest.
    pub fn run_script(&mut self, lines: &Vec<String>, replies: Vec<CallbackReply>) -> (r: Vec<
        Response,
    >)
        requires
            replies@.len() == lines@.len(),
        ensures
            r.deep_view() == spec_script(old(self)@, lines.deep_view(), replies.deep_view()).0,
            final(self)@ == spec_script(old(self)@, lines.deep_view(), replies.deep_view()).1,
    {
        let ghost b0 = self@;
        let ghost lv = lines.deep_view();
        let ghost rv = replies.deep_view();
        let mut rest = replies;
        let mut out: Vec<Response> = Vec::new();
        let mut i: usize = 0;
        proof {
            assert(lv.skip(0) =~= lv);
            assert(rv.skip(0) =~= rv);
        }
        while i < lines.len()
            invariant
                i <= lines.len(),
                lv == lines.deep_view(),
                lv.len() == lines@.len(),
                rv.len() == lv.len(),
                rest.deep_view() =~= rv.skip(i as int),
                spec_script(b0, lv, rv).0 =~= out.deep_view() + spec_script(
                    self@,
                    lv.skip(i as int),
                    rv.skip(i as int),
                ).0,
                spec_script(b0, lv, rv).1 == spec_script(
                    self@,
                    lv.skip(i as int),
                    rv.skip(i as int),
                ).1,
            decreases lines.len() - i,
        {
            proof {
                assert(lv.skip(i as int)[0] == lines@[i as int]@);
                assert(rv.skip(i as int)[0] == rest.deep_view()[0]);
                assert(lv.skip(i as int).drop_first() =~= lv.skip(i + 1));
                assert(rv.skip(i as int).drop_first() =~= rv.skip(i + 1));
            }
            let reply = rest.remove(0);
            proof {
                assert(rest.deep_view() =~= rv.skip(i + 1));
            }
            let resp = self.handle_line(lines[i].as_str(), reply);
            match resp {
                Some(r) => {
                    out.push(r);
                },
                None => {},
            }
            proof {
                assert(spec_script(b0, lv, rv).0 =~= out.deep_view() + spec_script(
                    self@,
                    lv.skip(i + 1),
                    rv.skip(i + 1),
                ).0);
            }
            i = i + 1;
        }
        proof {
            assert(lv.skip(lv.len() as int) =~= Seq::<Seq<char>>::empty());
            assert(spec_script(b0, lv, rv).0 =~= out.deep_view());
        }
        out
    }
}

} // verus!
