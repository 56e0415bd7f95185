//! Command dispatch: from a decoded command to either an immediate
//! response or one described operation against the external service.
//!
//! The planner never touches the service. Validation errors, the session
//! guard and unknown names answer at once; everything else becomes an
//! `Operation` value that a runner performs. Which of the two a command
//! gets — and the exact response or operation — is fully specified.
use vstd::prelude::*;
use crate::args::{
    spec_opt_json, spec_str_field, spec_u64_field, spec_id_field, spec_bool_field,
    spec_limit_field, str_field, u64_field, id_field, bool_field, limit_field,
};
use crate::json::JsonV;
use crate::protocol::{Command, CommandV, Response, ResponseV, spec_ok, spec_fail};
use crate::text::{
    spec_has_nul, has_nul, spec_find_char, find_char, spec_parse_i32, parse_i32, str_eq,
};

verus! {

/// How an `initialize` will submit its credential: a stored token of a
/// given type, or the service's interactive authorization exchange.
pub enum TokenPlan {
    Stored { token_type: i32, token: String },
    Interactive,
}

/// The mathematical shape of a `TokenPlan`.
pub enum TokenPlanV {
    Stored { token_type: i32, token: Seq<char> },
    Interactive,
}

impl DeepView for TokenPlan {
    type V = TokenPlanV;

    open spec fn deep_view(&self) -> TokenPlanV {
        match self {
            TokenPlan::Stored { token_type, token } => TokenPlanV::Stored {
                token_type: *token_type,
                token: token@,
            },
            TokenPlan::Interactive => TokenPlanV::Interactive,
        }
    }
}

/// One operation against the external service, with everything the runner
/// needs to perform it.
pub enum Operation {
    Initialize { plan: TokenPlan, app_id: u64 },
    Teardown,
    GetGuilds,
    GetGuildChannels { guild_id: u64 },
    SendChannelMessage { channel_id: u64, content: String },
    SetActivity,
    GetRelationships,
    GetLobbyIds,
    GetLobby { lobby_id: u64 },
    SendDm { recipient_id: u64, content: String },
    GetLobbyMessages { lobby_id: u64, limit: i32 },
    GetMessage { message_id: u64 },
    GetUserMessages { recipient_id: u64, limit: i32 },
    CreateLobby { secret: String, title: String, description: String },
    SendLobbyMessage { lobby_id: u64, content: String },
    LeaveLobby { lobby_id: u64 },
    SetMute { mute: bool },
    SetDeaf { deaf: bool },
    GetMuteStatus,
    GetDeafStatus,
    ConnectVoice { lobby_id: u64 },
    DisconnectVoice { lobby_id: u64 },
    DrainEvents,
    CreateOrJoinLobby { secret: String },
}

/// The mathematical shape of an `Operation`.
pub enum OperationV {
    Initialize { plan: TokenPlanV, app_id: u64 },
    Teardown,
    GetGuilds,
    GetGuildChannels { guild_id: u64 },
    SendChannelMessage { channel_id: u64, content: Seq<char> },
    SetActivity,
    GetRelationships,
    GetLobbyIds,
    GetLobby { lobby_id: u64 },
    SendDm { recipient_id: u64, content: Seq<char> },
    GetLobbyMessages { lobby_id: u64, limit: i32 },
    GetMessage { message_id: u64 },
    GetUserMessages { recipient_id: u64, limit: i32 },
    CreateLobby { secret: Seq<char>, title: Seq<char>, description: Seq<char> },
    SendLobbyMessage { lobby_id: u64, content: Seq<char> },
    LeaveLobby { lobby_id: u64 },
    SetMute { mute: bool },
    SetDeaf { deaf: bool },
    GetMuteStatus,
    GetDeafStatus,
    ConnectVoice { lobby_id: u64 },
    DisconnectVoice { lobby_id: u64 },
    DrainEvents,
    CreateOrJoinLobby { secret: Seq<char> },
}

impl DeepView for Operation {
    type V = OperationV;

    open spec fn deep_view(&self) -> OperationV {
        match self {
            Operation::Initialize { plan, app_id } => OperationV::Initialize {
                plan: plan.deep_view(),
                app_id: *app_id,
            },
            Operation::Teardown => OperationV::Teardown,
            Operation::GetGuilds => OperationV::GetGuilds,
            Operation::GetGuildChannels { guild_id } => OperationV::GetGuildChannels {
                guild_id: *guild_id,
            },
            Operation::SendChannelMessage { channel_id, content } => OperationV::SendChannelMessage {
                channel_id: *channel_id,
                content: content@,
            },
            Operation::SetActivity => OperationV::SetActivity,
            Operation::GetRelationships => OperationV::GetRelationships,
            Operation::GetLobbyIds => OperationV::GetLobbyIds,
            Operation::GetLobby { lobby_id } => OperationV::GetLobby { lobby_id: *lobby_id },
            Operation::SendDm { recipient_id, content } => OperationV::SendDm {
                recipient_id: *recipient_id,
                content: content@,
            },
            Operation::GetLobbyMessages { lobby_id, limit } => OperationV::GetLobbyMessages {
                lobby_id: *lobby_id,
                limit: *limit,
            },
            Operation::GetMessage { message_id } => OperationV::GetMessage {
                message_id: *message_id,
            },
            Operation::GetUserMessages { recipient_id, limit } => OperationV::GetUserMessages {
                recipient_id: *recipient_id,
                limit: *limit,
            },
            Operation::CreateLobby { secret, title, description } => OperationV::CreateLobby {
                secret: secret@,
                title: title@,
                description: description@,
            },
            Operation::SendLobbyMessage { lobby_id, content } => OperationV::SendLobbyMessage {
                lobby_id: *lobby_id,
                content: content@,
            },
            Operation::LeaveLobby { lobby_id } => OperationV::LeaveLobby { lobby_id: *lobby_id },
            Operation::SetMute { mute } => OperationV::SetMute { mute: *mute },
            Operation::SetDeaf { deaf } => OperationV::SetDeaf { deaf: *deaf },
            Operation::GetMuteStatus => OperationV::GetMuteStatus,
            Operation::GetDeafStatus => OperationV::GetDeafStatus,
            Operation::ConnectVoice { lobby_id } => OperationV::ConnectVoice {
                lobby_id: *lobby_id,
            },
            Operation::DisconnectVoice { lobby_id } => OperationV::DisconnectVoice {
                lobby_id: *lobby_id,
            },
            Operation::DrainEvents => OperationV::DrainEvents,
            Operation::CreateOrJoinLobby { secret } => OperationV::CreateOrJoinLobby {
                secret: secret@,
            },
        }
    }
}

/// What the dispatcher decided about one command.
pub enum Plan {
    Respond(Response),
    Invoke(Operation),
}

/// The mathematical shape of a `Plan`.
pub enum PlanV {
    Respond(ResponseV),
    Invoke(OperationV),
}

impl DeepView for Plan {
    type V = PlanV;

    open spec fn deep_view(&self) -> PlanV {
        match self {
            Plan::Respond(r) => PlanV::Respond(r@),
            Plan::Invoke(o) => PlanV::Invoke(o.deep_view()),
        }
    }
}

/// The stored-token credential's parts: `type=N:token` carries its type
/// before the first colon, any other shape is a bearer token as given.
pub open spec fn spec_token_parts(token: Seq<char>) -> (i32, Seq<char>) {
    if token.len() >= 5 && token.take(5) == "type="@ {
        let ci = spec_find_char(token, ':');
        if ci >= 0 {
            let tt = match spec_parse_i32(token.subrange(5, ci)) {
                Some(t) => t,
                None => 1,
            };
            (tt, token.skip(ci + 1))
        } else {
            (1, token)
        }
    } else {
        (1, token)
    }
}

proof fn lemma_find_char_first(s: Seq<char>, c: char)
    requires
        spec_find_char(s, c) >= 0,
    ensures
        0 <= spec_find_char(s, c) < s.len(),
        s[spec_find_char(s, c)] == c,
        forall|j: int| 0 <= j < spec_find_char(s, c) ==> s[j] != c,
    decreases s.len(),
{
    if s.len() > 0 && s[0] != c {
        lemma_find_char_first(s.drop_first(), c);
        assert forall|j: int| 0 <= j < spec_find_char(s, c) implies s[j] != c by {
            if j > 0 {
                assert(s.drop_first()[j - 1] == s[j]);
            }
        }
    }
}

/// Splits a stored token into its type and its bearer part.
fn token_parts(token: &String) -> (r: (i32, String))
    ensures
        r.0 == spec_token_parts(token@).0,
        r.1@ == spec_token_parts(token@).1,
{
    let s = token.as_str();
    let len = s.unicode_len();
    if len >= 5 {
        let prefix = s.substring_char(0, 5);
        proof {
            assert(s@.subrange(0, 5) =~= s@.take(5));
        }
        if str_eq(prefix, "type=") {
            match find_char(s, ':') {
                Some(ci) => {
                    proof {
                        lemma_find_char_first(s@, ':');
                        reveal_strlit("type=");
                        assert forall|j: int| 0 <= j < 5 implies s@[j] == "type="@[j] by {
                            assert(s@.take(5)[j] == s@[j]);
                        }
                        assert(s@[0] != ':' && s@[1] != ':' && s@[2] != ':' && s@[3] != ':'
                            && s@[4] != ':');
                        assert(ci >= 5);
                    }
                    let tt_str = s.substring_char(5, ci);
                    let tt = match parse_i32(tt_str) {
                        Some(t) => t,
                        None => 1,
                    };
                    let rest = s.substring_char(ci + 1, len);
                    proof {
                        assert(rest@ =~= token@.skip(ci + 1));
                    }
                    (tt, String::from_str(rest))
                },
                None => (1, token.clone()),
            }
        } else {
            (1, token.clone())
        }
    } else {
        (1, token.clone())
    }
}

/// Whether a command may run only inside an initialized session.
pub open spec fn spec_needs_session(name: Seq<char>) -> bool {
    ||| name == "get_guilds"@
    ||| name == "get_guild_channels"@
    ||| name == "send_message"@
    ||| name == "set_activity"@
    ||| name == "get_relationships"@
    ||| name == "get_lobby_ids"@
    ||| name == "get_lobby"@
    ||| name == "send_dm"@
    ||| name == "get_lobby_messages"@
    ||| name == "get_message"@
    ||| name == "get_user_messages"@
    ||| name == "create_lobby"@
    ||| name == "send_lobby_message"@
    ||| name == "leave_lobby"@
    ||| name == "set_mute"@
    ||| name == "set_deaf"@
    ||| name == "get_mute_status"@
    ||| name == "get_deaf_status"@
    ||| name == "connect_lobby_voice"@
    ||| name == "disconnect_lobby_voice"@
    ||| name == "create_or_join_lobby"@
}

/// The `ping` payload.
pub open spec fn spec_pong() -> JsonV {
    JsonV::Obj(seq![("pong"@, JsonV::Bool(true))])
}

/// What the dispatcher decides for one command against a session that is
/// ready or not: the whole validation order of every handler, written
/// out. Each command checks its arguments and the session guard in the
/// order its handler checked them, so the error a bad request gets is the
/// exact error the protocol promises.
pub open spec fn spec_plan(ready: bool, c: CommandV) -> PlanV {
    let args = c.args;
    let id = c.id;
    if c.name == "initialize"@ {
        if args is None {
            PlanV::Respond(spec_fail(id, "Missing args"@))
        } else {
            match spec_str_field(args, "token"@) {
                None => PlanV::Respond(spec_fail(id, "Missing token"@)),
                Some(token) => {
                    let app_id = match spec_u64_field(args, "app_id"@) {
                        Some(n) => n,
                        None => 0,
                    };
                    if app_id == 0 {
                        PlanV::Respond(spec_fail(id, "No application ID provided"@))
                    } else if !(token == "SDK_AUTH_REQUIRED"@) && token.len() > 20 {
                        let parts = spec_token_parts(token);
                        if spec_has_nul(parts.1) {
                            PlanV::Respond(spec_fail(id, "Invalid token string"@))
                        } else {
                            PlanV::Invoke(
                                OperationV::Initialize {
                                    plan: TokenPlanV::Stored {
                                        token_type: parts.0,
                                        token: parts.1,
                                    },
                                    app_id,
                                },
                            )
                        }
                    } else {
                        PlanV::Invoke(
                            OperationV::Initialize { plan: TokenPlanV::Interactive, app_id },
                        )
                    }
                },
            }
        }
    } else if c.name == "disconnect"@ {
        PlanV::Invoke(OperationV::Teardown)
    } else if c.name == "get_guilds"@ {
        if !ready {
            PlanV::Respond(spec_fail(id, "SDK not initialized"@))
        } else {
            PlanV::Invoke(OperationV::GetGuilds)
        }
    } else if c.name == "get_guild_channels"@ {
        if args is None {
            PlanV::Respond(spec_fail(id, "Missing args"@))
        } else {
            match spec_str_field(args, "guild_id"@) {
                None => PlanV::Respond(spec_fail(id, "Missing guild_id"@)),
                Some(gs) => match crate::text::spec_parse_u64(gs) {
                    None => PlanV::Respond(spec_fail(id, "Invalid guild_id"@)),
                    Some(guild_id) => if !ready {
                        PlanV::Respond(spec_fail(id, "SDK not initialized"@))
                    } else {
                        PlanV::Invoke(OperationV::GetGuildChannels { guild_id })
                    },
                },
            }
        }
    } else if c.name == "send_message"@ {
        if args is None {
            PlanV::Respond(spec_fail(id, "Missing args"@))
        } else {
            match (spec_str_field(args, "channel_id"@), spec_str_field(args, "content"@)) {
                (Some(cs), Some(content)) => match crate::text::spec_parse_u64(cs) {
                    None => PlanV::Respond(spec_fail(id, "Invalid channel_id"@)),
                    Some(channel_id) => if !ready {
                        PlanV::Respond(spec_fail(id, "SDK not initialized"@))
                    } else if spec_has_nul(content) {
                        PlanV::Respond(spec_fail(id, "Invalid content"@))
                    } else {
                        PlanV::Invoke(OperationV::SendChannelMessage { channel_id, content })
                    },
                },
                _ => PlanV::Respond(spec_fail(id, "Missing channel_id or content"@)),
            }
        }
    } else if c.name == "set_activity"@ {
        if args is None {
            PlanV::Respond(spec_fail(id, "Missing args"@))
        } else if !ready {
            PlanV::Respond(spec_fail(id, "SDK not initialized"@))
        } else {
            PlanV::Invoke(OperationV::SetActivity)
        }
    } else if c.name == "get_relationships"@ {
        if !ready {
            PlanV::Respond(spec_fail(id, "SDK not initialized"@))
        } else {
            PlanV::Invoke(OperationV::GetRelationships)
        }
    } else if c.name == "get_lobby_ids"@ {
        if !ready {
            PlanV::Respond(spec_fail(id, "SDK not initialized"@))
        } else {
            PlanV::Invoke(OperationV::GetLobbyIds)
        }
    } else if c.name == "get_lobby"@ {
        let lobby_id = spec_id_field(args, "lobby_id"@);
        if lobby_id == 0 {
            PlanV::Respond(spec_fail(id, "Invalid lobby ID"@))
        } else if !ready {
            PlanV::Respond(spec_fail(id, "SDK not initialized"@))
        } else {
            PlanV::Invoke(OperationV::GetLobby { lobby_id })
        }
    } else if c.name == "send_dm"@ {
        if args is None {
            PlanV::Respond(spec_fail(id, "Missing args"@))
        } else {
            match (spec_str_field(args, "recipient_id"@), spec_str_field(args, "content"@)) {
                (Some(rs), Some(content)) => match crate::text::spec_parse_u64(rs) {
                    None => PlanV::Respond(spec_fail(id, "Invalid recipient_id"@)),
                    Some(recipient_id) => if !ready {
                        PlanV::Respond(spec_fail(id, "SDK not initialized"@))
                    } else if spec_has_nul(content) {
                        PlanV::Respond(spec_fail(id, "Invalid content"@))
                    } else {
                        PlanV::Invoke(OperationV::SendDm { recipient_id, content })
                    },
                },
                _ => PlanV::Respond(spec_fail(id, "Missing recipient_id or content"@)),
            }
        }
    } else if c.name == "get_lobby_messages"@ {
        if args is None {
            PlanV::Respond(spec_fail(id, "Missing args"@))
        } else {
            match spec_str_field(args, "lobby_id"@) {
                None => PlanV::Respond(spec_fail(id, "Missing lobby_id"@)),
                Some(ls) => match crate::text::spec_parse_u64(ls) {
                    None => PlanV::Respond(spec_fail(id, "Invalid lobby_id"@)),
                    Some(lobby_id) => if !ready {
                        PlanV::Respond(spec_fail(id, "SDK not initialized"@))
                    } else {
                        PlanV::Invoke(
                            OperationV::GetLobbyMessages {
                                lobby_id,
                                limit: spec_limit_field(args),
                            },
                        )
                    },
                },
            }
        }
    } else if c.name == "get_message"@ {
        if args is None {
            PlanV::Respond(spec_fail(id, "Missing args"@))
        } else {
            match spec_str_field(args, "message_id"@) {
                None => PlanV::Respond(spec_fail(id, "Missing message_id"@)),
                Some(ms) => match crate::text::spec_parse_u64(ms) {
                    None => PlanV::Respond(spec_fail(id, "Invalid message_id"@)),
                    Some(message_id) => if !ready {
                        PlanV::Respond(spec_fail(id, "SDK not initialized"@))
                    } else {
                        PlanV::Invoke(OperationV::GetMessage { message_id })
                    },
                },
            }
        }
    } else if c.name == "get_user_messages"@ {
        if args is None {
            PlanV::Respond(spec_fail(id, "Missing args"@))
        } else {
            match spec_str_field(args, "recipient_id"@) {
                None => PlanV::Respond(spec_fail(id, "Missing recipient_id"@)),
                Some(rs) => match crate::text::spec_parse_u64(rs) {
                    None => PlanV::Respond(spec_fail(id, "Invalid recipient_id"@)),
                    Some(recipient_id) => if !ready {
                        PlanV::Respond(spec_fail(id, "SDK not initialized"@))
                    } else {
                        PlanV::Invoke(
                            OperationV::GetUserMessages {
                                recipient_id,
                                limit: spec_limit_field(args),
                            },
                        )
                    },
                },
            }
        }
    } else if c.name == "create_lobby"@ {
        let secret = match spec_str_field(args, "secret"@) {
            Some(s) => s,
            None => Seq::empty(),
        };
        let title = match spec_str_field(args, "title"@) {
            Some(s) => s,
            None => Seq::empty(),
        };
        let description = match spec_str_field(args, "description"@) {
            Some(s) => s,
            None => Seq::empty(),
        };
        if !ready {
            PlanV::Respond(spec_fail(id, "SDK not initialized"@))
        } else {
            PlanV::Invoke(OperationV::CreateLobby { secret, title, description })
        }
    } else if c.name == "send_lobby_message"@ {
        let lobby_id = spec_id_field(args, "lobby_id"@);
        let content = match spec_str_field(args, "content"@) {
            Some(s) => s,
            None => Seq::empty(),
        };
        if !ready {
            PlanV::Respond(spec_fail(id, "SDK not initialized"@))
        } else if lobby_id == 0 {
            PlanV::Respond(spec_fail(id, "Invalid lobby ID"@))
        } else {
            PlanV::Invoke(OperationV::SendLobbyMessage { lobby_id, content })
        }
    } else if c.name == "leave_lobby"@ {
        let lobby_id = spec_id_field(args, "lobby_id"@);
        if !ready {
            PlanV::Respond(spec_fail(id, "SDK not initialized"@))
        } else if lobby_id == 0 {
            PlanV::Respond(spec_fail(id, "Invalid lobby ID"@))
        } else {
            PlanV::Invoke(OperationV::LeaveLobby { lobby_id })
        }
    } else if c.name == "set_mute"@ {
        if !ready {
            PlanV::Respond(spec_fail(id, "SDK not initialized"@))
        } else {
            PlanV::Invoke(OperationV::SetMute { mute: spec_bool_field(args, "mute"@) })
        }
    } else if c.name == "set_deaf"@ {
        if !ready {
            PlanV::Respond(spec_fail(id, "SDK not initialized"@))
        } else {
            PlanV::Invoke(OperationV::SetDeaf { deaf: spec_bool_field(args, "deaf"@) })
        }
    } else if c.name == "get_mute_status"@ {
        if !ready {
            PlanV::Respond(spec_fail(id, "SDK not initialized"@))
        } else {
            PlanV::Invoke(OperationV::GetMuteStatus)
        }
    } else if c.name == "get_deaf_status"@ {
        if !ready {
            PlanV::Respond(spec_fail(id, "SDK not initialized"@))
        } else {
            PlanV::Invoke(OperationV::GetDeafStatus)
        }
    } else if c.name == "connect_lobby_voice"@ {
        if args is None {
            PlanV::Respond(spec_fail(id, "Missing arguments"@))
        } else {
            match spec_str_field(args, "lobby_id"@) {
                None => PlanV::Respond(spec_fail(id, "Missing lobby_id argument"@)),
                Some(ls) => match crate::text::spec_parse_u64(ls) {
                    None => PlanV::Respond(spec_fail(id, "Invalid lobby ID"@)),
                    Some(lobby_id) => if !ready {
                        PlanV::Respond(spec_fail(id, "SDK not initialized"@))
                    } else {
                        PlanV::Invoke(OperationV::ConnectVoice { lobby_id })
                    },
                },
            }
        }
    } else if c.name == "disconnect_lobby_voice"@ {
        if args is None {
            PlanV::Respond(spec_fail(id, "Missing arguments"@))
        } else {
            match spec_str_field(args, "lobby_id"@) {
                None => PlanV::Respond(spec_fail(id, "Missing lobby_id argument"@)),
                Some(ls) => match crate::text::spec_parse_u64(ls) {
                    None => PlanV::Respond(spec_fail(id, "Invalid lobby ID"@)),
                    Some(lobby_id) => if !ready {
                        PlanV::Respond(spec_fail(id, "SDK not initialized"@))
                    } else {
                        PlanV::Invoke(OperationV::DisconnectVoice { lobby_id })
                    },
                },
            }
        }
    } else if c.name == "get_message_events"@ {
        PlanV::Invoke(OperationV::DrainEvents)
    } else if c.name == "create_or_join_lobby"@ {
        let secret = match spec_str_field(args, "secret"@) {
            Some(s) => s,
            None => Seq::empty(),
        };
        if !ready {
            PlanV::Respond(spec_fail(id, "SDK not initialized"@))
        } else if secret.len() == 0 {
            PlanV::Respond(spec_fail(id, "Lobby secret required"@))
        } else {
            PlanV::Invoke(OperationV::CreateOrJoinLobby { secret })
        }
    } else if c.name == "ping"@ {
        PlanV::Respond(spec_ok(c.id, spec_pong()))
    } else {
        PlanV::Respond(spec_fail(id, "Unknown: "@ + c.name))
    }
}

/// A failure response carrying a fixed message.
pub fn fail_resp(id: u64, msg: &str) -> (r: Response)
    ensures
        r@ == spec_fail(id, msg@),
{
    Response { id, success: false, result: None, error: Some(String::from_str(msg)) }
}

/// A success response carrying a payload.
pub fn ok_resp(id: u64, result: crate::json::Json) -> (r: Response)
    ensures
        r@ == spec_ok(id, result@),
{
    Response { id, success: true, result: Some(result), error: None }
}

/// A string field, or the empty string where it is missing.
fn str_field_or_empty(args: &Option<crate::json::Json>, key: &str) -> (r: String)
    ensures
        r@ == match spec_str_field(spec_opt_json(*args), key@) {
            Some(s) => s,
            None => Seq::<char>::empty(),
        },
{
    match str_field(args, key) {
        Some(s) => s.clone(),
        None => {
            let r = String::new();
            proof {
                assert(r@ =~= Seq::<char>::empty());
            }
            r
        },
    }
}

/// Decides one command exactly as `spec_plan` describes.
pub fn plan_command(ready: bool, cmd: &Command) -> (r: Plan)
    ensures
        r.deep_view() == spec_plan(ready, cmd@),
{
    let id = cmd.id;
    let args = &cmd.args;
    let name = cmd.name.as_str();
    if str_eq(name, "initialize") {
        if cmd.args.is_none() {
            return Plan::Respond(fail_resp(id, "Missing args"));
        }
        let token = match str_field(args, "token") {
            Some(t) => t.clone(),
            None => {
                return Plan::Respond(fail_resp(id, "Missing token"));
            },
        };
        let app_id = match u64_field(args, "app_id") {
            Some(n) => n,
            None => 0,
        };
        if app_id == 0 {
            return Plan::Respond(fail_resp(id, "No application ID provided"));
        }
        if !str_eq(token.as_str(), "SDK_AUTH_REQUIRED") && token.as_str().unicode_len() > 20 {
            let parts = token_parts(&token);
            if has_nul(parts.1.as_str()) {
                Plan::Respond(fail_resp(id, "Invalid token string"))
            } else {
                Plan::Invoke(
                    Operation::Initialize {
                        plan: TokenPlan::Stored { token_type: parts.0, token: parts.1 },
                        app_id,
                    },
                )
            }
        } else {
            Plan::Invoke(Operation::Initialize { plan: TokenPlan::Interactive, app_id })
        }
    } else if str_eq(name, "disconnect") {
        Plan::Invoke(Operation::Teardown)
    } else if str_eq(name, "get_guilds") {
        if !ready {
            Plan::Respond(fail_resp(id, "SDK not initialized"))
        } else {
            Plan::Invoke(Operation::GetGuilds)
        }
    } else if str_eq(name, "get_guild_channels") {
        if cmd.args.is_none() {
            return Plan::Respond(fail_resp(id, "Missing args"));
        }
        match str_field(args, "guild_id") {
            None => Plan::Respond(fail_resp(id, "Missing guild_id")),
            Some(gs) => match crate::text::parse_u64(gs.as_str()) {
                None => Plan::Respond(fail_resp(id, "Invalid guild_id")),
                Some(guild_id) => {
                    if !ready {
                        Plan::Respond(fail_resp(id, "SDK not initialized"))
                    } else {
                        Plan::Invoke(Operation::GetGuildChannels { guild_id })
                    }
                },
            },
        }
    } else if str_eq(name, "send_message") {
        if cmd.args.is_none() {
            return Plan::Respond(fail_resp(id, "Missing args"));
        }
        let cs = match str_field(args, "channel_id") {
            Some(s) => s,
            None => {
                return Plan::Respond(fail_resp(id, "Missing channel_id or content"));
            },
        };
        let content = match str_field(args, "content") {
            Some(s) => s.clone(),
            None => {
                return Plan::Respond(fail_resp(id, "Missing channel_id or content"));
            },
        };
        match crate::text::parse_u64(cs.as_str()) {
            None => Plan::Respond(fail_resp(id, "Invalid channel_id")),
            Some(channel_id) => {
                if !ready {
                    Plan::Respond(fail_resp(id, "SDK not initialized"))
                } else if has_nul(content.as_str()) {
                    Plan::Respond(fail_resp(id, "Invalid content"))
                } else {
                    Plan::Invoke(Operation::SendChannelMessage { channel_id, content })
                }
            },
        }
    } else if str_eq(name, "set_activity") {
        if cmd.args.is_none() {
            Plan::Respond(fail_resp(id, "Missing args"))
        } else if !ready {
            Plan::Respond(fail_resp(id, "SDK not initialized"))
        } else {
            Plan::Invoke(Operation::SetActivity)
        }
    } else if str_eq(name, "get_relationships") {
        if !ready {
            Plan::Respond(fail_resp(id, "SDK not initialized"))
        } else {
            Plan::Invoke(Operation::GetRelationships)
        }
    } else if str_eq(name, "get_lobby_ids") {
        if !ready {
            Plan::Respond(fail_resp(id, "SDK not initialized"))
        } else {
            Plan::Invoke(Operation::GetLobbyIds)
        }
    } else if str_eq(name, "get_lobby") {
        let lobby_id = id_field(args, "lobby_id");
        if lobby_id == 0 {
            Plan::Respond(fail_resp(id, "Invalid lobby ID"))
        } else if !ready {
            Plan::Respond(fail_resp(id, "SDK not initialized"))
        } else {
            Plan::Invoke(Operation::GetLobby { lobby_id })
        }
    } else if str_eq(name, "send_dm") {
        if cmd.args.is_none() {
            return Plan::Respond(fail_resp(id, "Missing args"));
        }
        let rs = match str_field(args, "recipient_id") {
            Some(s) => s,
            None => {
                return Plan::Respond(fail_resp(id, "Missing recipient_id or content"));
            },
        };
        let content = match str_field(args, "content") {
            Some(s) => s.clone(),
            None => {
                return Plan::Respond(fail_resp(id, "Missing recipient_id or content"));
            },
        };
        match crate::text::parse_u64(rs.as_str()) {
            None => Plan::Respond(fail_resp(id, "Invalid recipient_id")),
            Some(recipient_id) => {
                if !ready {
                    Plan::Respond(fail_resp(id, "SDK not initialized"))
                } else if has_nul(content.as_str()) {
                    Plan::Respond(fail_resp(id, "Invalid content"))
                } else {
                    Plan::Invoke(Operation::SendDm { recipient_id, content })
                }
            },
        }
    } else if str_eq(name, "get_lobby_messages") {
        if cmd.args.is_none() {
            return Plan::Respond(fail_resp(id, "Missing args"));
        }
        match str_field(args, "lobby_id") {
            None => Plan::Respond(fail_resp(id, "Missing lobby_id")),
            Some(ls) => match crate::text::parse_u64(ls.as_str()) {
                None => Plan::Respond(fail_resp(id, "Invalid lobby_id")),
                Some(lobby_id) => {
                    if !ready {
                        Plan::Respond(fail_resp(id, "SDK not initialized"))
                    } else {
                        let limit = limit_field(args);
                        Plan::Invoke(Operation::GetLobbyMessages { lobby_id, limit })
                    }
                },
            },
        }
    } else if str_eq(name, "get_message") {
        if cmd.args.is_none() {
            return Plan::Respond(fail_resp(id, "Missing args"));
        }
        match str_field(args, "message_id") {
            None => Plan::Respond(fail_resp(id, "Missing message_id")),
            Some(ms) => match crate::text::parse_u64(ms.as_str()) {
                None => Plan::Respond(fail_resp(id, "Invalid message_id")),
                Some(message_id) => {
                    if !ready {
                        Plan::Respond(fail_resp(id, "SDK not initialized"))
                    } else {
                        Plan::Invoke(Operation::GetMessage { message_id })
                    }
                },
            },
        }
    } else if str_eq(name, "get_user_messages") {
        if cmd.args.is_none() {
            return Plan::Respond(fail_resp(id, "Missing args"));
        }
        match str_field(args, "recipient_id") {
            None => Plan::Respond(fail_resp(id, "Missing recipient_id")),
            Some(rs) => match crate::text::parse_u64(rs.as_str()) {
                None => Plan::Respond(fail_resp(id, "Invalid recipient_id")),
                Some(recipient_id) => {
                    if !ready {
                        Plan::Respond(fail_resp(id, "SDK not initialized"))
                    } else {
                        let limit = limit_field(args);
                        Plan::Invoke(Operation::GetUserMessages { recipient_id, limit })
                    }
                },
            },
        }
    } else if str_eq(name, "create_lobby") {
        let secret = str_field_or_empty(args, "secret");
        let title = str_field_or_empty(args, "title");
        let description = str_field_or_empty(args, "description");
        if !ready {
            Plan::Respond(fail_resp(id, "SDK not initialized"))
        } else {
            Plan::Invoke(Operation::CreateLobby { secret, title, description })
        }
    } else if str_eq(name, "send_lobby_message") {
        let lobby_id = id_field(args, "lobby_id");
        let content = str_field_or_empty(args, "content");
        if !ready {
            Plan::Respond(fail_resp(id, "SDK not initialized"))
        } else if lobby_id == 0 {
            Plan::Respond(fail_resp(id, "Invalid lobby ID"))
        } else {
            Plan::Invoke(Operation::SendLobbyMessage { lobby_id, content })
        }
    } else if str_eq(name, "leave_lobby") {
        let lobby_id = id_field(args, "lobby_id");
        if !ready {
            Plan::Respond(fail_resp(id, "SDK not initialized"))
        } else if lobby_id == 0 {
            Plan::Respond(fail_resp(id, "Invalid lobby ID"))
        } else {
            Plan::Invoke(Operation::LeaveLobby { lobby_id })
        }
    } else if str_eq(name, "set_mute") {
        if !ready {
            Plan::Respond(fail_resp(id, "SDK not initialized"))
        } else {
            let mute = bool_field(args, "mute");
            Plan::Invoke(Operation::SetMute { mute })
        }
    } else if str_eq(name, "set_deaf") {
        if !ready {
            Plan::Respond(fail_resp(id, "SDK not initialized"))
        } else {
            let deaf = bool_field(args, "deaf");
            Plan::Invoke(Operation::SetDeaf { deaf })
        }
    } else if str_eq(name, "get_mute_status") {
        if !ready {
            Plan::Respond(fail_resp(id, "SDK not initialized"))
        } else {
            Plan::Invoke(Operation::GetMuteStatus)
        }
    } else if str_eq(name, "get_deaf_status") {
        if !ready {
            Plan::Respond(fail_resp(id, "SDK not initialized"))
        } else {
            Plan::Invoke(Operation::GetDeafStatus)
        }
    } else if str_eq(name, "connect_lobby_voice") {
        if cmd.args.is_none() {
            return Plan::Respond(fail_resp(id, "Missing arguments"));
        }
        match str_field(args, "lobby_id") {
            None => Plan::Respond(fail_resp(id, "Missing lobby_id argument")),
            Some(ls) => match crate::text::parse_u64(ls.as_str()) {
                None => Plan::Respond(fail_resp(id, "Invalid lobby ID")),
                Some(lobby_id) => {
                    if !ready {
                        Plan::Respond(fail_resp(id, "SDK not initialized"))
                    } else {
                        Plan::Invoke(Operation::ConnectVoice { lobby_id })
                    }
                },
            },
        }
    } else if str_eq(name, "disconnect_lobby_voice") {
        if cmd.args.is_none() {
            return Plan::Respond(fail_resp(id, "Missing arguments"));
        }
        match str_field(args, "lobby_id") {
            None => Plan::Respond(fail_resp(id, "Missing lobby_id argument")),
            Some(ls) => match crate::text::parse_u64(ls.as_str()) {
                None => Plan::Respond(fail_resp(id, "Invalid lobby ID")),
                Some(lobby_id) => {
                    if !ready {
                        Plan::Respond(fail_resp(id, "SDK not initialized"))
                    } else {
                        Plan::Invoke(Operation::DisconnectVoice { lobby_id })
                    }
                },
            },
        }
    } else if str_eq(name, "get_message_events") {
        Plan::Invoke(Operation::DrainEvents)
    } else if str_eq(name, "create_or_join_lobby") {
        let secret = str_field_or_empty(args, "secret");
        if !ready {
            Plan::Respond(fail_resp(id, "SDK not initialized"))
        } else if secret.as_str().unicode_len() == 0 {
            Plan::Respond(fail_resp(id, "Lobby secret required"))
        } else {
            Plan::Invoke(Operation::CreateOrJoinLobby { secret })
        }
    } else if str_eq(name, "ping") {
        Plan::Respond(ok_resp(id, crate::results::obj1("pong", crate::json::Json::Bool(true))))
    } else {
        let mut msg = String::from_str("Unknown: ");
        msg.append(cmd.name.as_str());
        Plan::Respond(
            Response { id, success: false, result: None, error: Some(msg) },
        )
    }
}

} // verus!
