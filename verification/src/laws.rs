//! The protocol's general guarantees, proved once over all inputs: one
//! response per command and none for garbage, ping's indifference to
//! state, the session guard, and the deadline discipline of the poll
//! adapter.
use vstd::prelude::*;
use crate::bridge::{
    BridgeV, spec_handle, spec_handle_line, spec_line_command, spec_script, spec_op_config,
    spec_op_response, spec_op_bridge, spec_is_async, lemma_response_id,
};
use crate::ops::{OperationV, PlanV, spec_plan, spec_needs_session, spec_pong};
use crate::poll::{PollOutcome, spec_poll, lemma_timeout_window, lemma_late_fire_discarded};
use crate::protocol::{CommandV, ResponseV, spec_ok};
use crate::service::{CallbackReplyV, ServiceDataV};

verus! {

/// The identifiers of the commands a transcript carries, in order:
/// malformed lines contribute nothing.
pub open spec fn spec_wf_ids(lines: Seq<Seq<char>>) -> Seq<u64>
    decreases lines.len(),
{
    if lines.len() == 0 {
        Seq::empty()
    } else {
        (match spec_line_command(lines[0]) {
            Some(c) => seq![c.id],
            None => Seq::<u64>::empty(),
        }) + spec_wf_ids(lines.drop_first())
    }
}

/// Exactly one response per command, in command order, each bearing its
/// command's identifier — and none at all for a malformed line: the
/// responses of a transcript, projected to their identifiers, are exactly
/// the identifiers of its well-formed commands.
pub proof fn lemma_one_response_per_command(
    b: BridgeV,
    lines: Seq<Seq<char>>,
    replies: Seq<CallbackReplyV>,
)
    ensures
        spec_script(b, lines, replies).0.map_values(|r: ResponseV| r.id) == spec_wf_ids(lines),
    decreases lines.len(),
{
    if lines.len() > 0 {
        let reply = if replies.len() > 0 {
            replies[0]
        } else {
            CallbackReplyV::Never
        };
        let first = spec_handle_line(b, lines[0], reply);
        let rest_replies = if replies.len() > 0 {
            replies.drop_first()
        } else {
            replies
        };
        lemma_one_response_per_command(first.1, lines.drop_first(), rest_replies);
        let rest = spec_script(first.1, lines.drop_first(), rest_replies);
        match spec_line_command(lines[0]) {
            Some(c) => {
                lemma_response_id(b, c, reply);
                let r0 = spec_handle(b, c, reply).0;
                assert((seq![r0] + rest.0).map_values(|r: ResponseV| r.id) =~= seq![c.id]
                    + rest.0.map_values(|r: ResponseV| r.id));
            },
            None => {},
        }
    }
}

/// `ping` answers `{pong: true}` with success in every session state,
/// against every service reply, and leaves the bridge exactly as it was —
/// so any number of pings, anywhere in a session, all answer alike.
pub proof fn lemma_ping_idempotent(b: BridgeV, c: CommandV, reply: CallbackReplyV)
    requires
        c.name == "ping"@,
    ensures
        spec_handle(b, c, reply).0 == spec_ok(c.id, spec_pong()),
        spec_handle(b, c, reply).1 == b,
{
    reveal_strlit("ping");
    reveal_strlit("initialize");
    reveal_strlit("disconnect");
    reveal_strlit("get_guilds");
    reveal_strlit("get_guild_channels");
    reveal_strlit("send_message");
    reveal_strlit("set_activity");
    reveal_strlit("get_relationships");
    reveal_strlit("get_lobby_ids");
    reveal_strlit("get_lobby");
    reveal_strlit("send_dm");
    reveal_strlit("get_lobby_messages");
    reveal_strlit("get_message");
    reveal_strlit("get_user_messages");
    reveal_strlit("create_lobby");
    reveal_strlit("send_lobby_message");
    reveal_strlit("leave_lobby");
    reveal_strlit("set_mute");
    reveal_strlit("set_deaf");
    reveal_strlit("get_mute_status");
    reveal_strlit("get_deaf_status");
    reveal_strlit("connect_lobby_voice");
    reveal_strlit("disconnect_lobby_voice");
    reveal_strlit("get_message_events");
    reveal_strlit("create_or_join_lobby");
}

/// The session guard: a session-dependent command issued before a
/// successful `initialize` is answered at once with a failure — the plan
/// is a response, never an operation, so the external service is not
/// touched — and the bridge is left as it was.
pub proof fn lemma_state_guard(b: BridgeV, c: CommandV, reply: CallbackReplyV)
    requires
        spec_needs_session(c.name),
        !b.ready,
    ensures
        spec_plan(b.ready, c) is Respond,
        !spec_handle(b, c, reply).0.success,
        spec_handle(b, c, reply).0.id == c.id,
        spec_handle(b, c, reply).1 == b,
{
    reveal_strlit("ping");
    reveal_strlit("initialize");
    reveal_strlit("disconnect");
    reveal_strlit("get_guilds");
    reveal_strlit("get_guild_channels");
    reveal_strlit("send_message");
    reveal_strlit("set_activity");
    reveal_strlit("get_relationships");
    reveal_strlit("get_lobby_ids");
    reveal_strlit("get_lobby");
    reveal_strlit("send_dm");
    reveal_strlit("get_lobby_messages");
    reveal_strlit("get_message");
    reveal_strlit("get_user_messages");
    reveal_strlit("create_lobby");
    reveal_strlit("send_lobby_message");
    reveal_strlit("leave_lobby");
    reveal_strlit("set_mute");
    reveal_strlit("set_deaf");
    reveal_strlit("get_mute_status");
    reveal_strlit("get_deaf_status");
    reveal_strlit("connect_lobby_voice");
    reveal_strlit("disconnect_lobby_voice");
    reveal_strlit("get_message_events");
    reveal_strlit("create_or_join_lobby");
    let p = spec_plan(b.ready, c);
    // Seed the solver with one character of each of the three names that
    // share the session commands' lengths, so the name comparisons in the
    // dispatch chain settle.
    assert("get_guilds"@[0] == 'g');
    assert("initialize"@[0] == 'i');
    assert("disconnect"@[0] == 'd');
    if c.name == "get_guilds"@ {
        assert(p is Respond && !spec_handle(b, c, reply).0.success);
    } else if c.name == "get_guild_channels"@ {
        assert(p is Respond && !spec_handle(b, c, reply).0.success);
    } else if c.name == "send_message"@ {
        assert(p is Respond && !spec_handle(b, c, reply).0.success);
    } else if c.name == "set_activity"@ {
        assert(p is Respond && !spec_handle(b, c, reply).0.success);
    } else if c.name == "get_relationships"@ {
        assert(p is Respond && !spec_handle(b, c, reply).0.success);
    } else if c.name == "get_lobby_ids"@ {
        assert(p is Respond && !spec_handle(b, c, reply).0.success);
    } else if c.name == "get_lobby"@ {
        assert(p is Respond && !spec_handle(b, c, reply).0.success);
    } else if c.name == "send_dm"@ {
        assert(p is Respond && !spec_handle(b, c, reply).0.success);
    } else if c.name == "get_lobby_messages"@ {
        assert(p is Respond && !spec_handle(b, c, reply).0.success);
    } else if c.name == "get_message"@ {
        assert(p is Respond && !spec_handle(b, c, reply).0.success);
    } else if c.name == "get_user_messages"@ {
        assert(p is Respond && !spec_handle(b, c, reply).0.success);
    } else if c.name == "create_lobby"@ {
        assert(p is Respond && !spec_handle(b, c, reply).0.success);
    } else if c.name == "send_lobby_message"@ {
        assert(p is Respond && !spec_handle(b, c, reply).0.success);
    } else if c.name == "leave_lobby"@ {
        assert(p is Respond && !spec_handle(b, c, reply).0.success);
    } else if c.name == "set_mute"@ {
        assert(p is Respond && !spec_handle(b, c, reply).0.success);
    } else if c.name == "set_deaf"@ {
        assert(p is Respond && !spec_handle(b, c, reply).0.success);
    } else if c.name == "get_mute_status"@ {
        assert(p is Respond && !spec_handle(b, c, reply).0.success);
    } else if c.name == "get_deaf_status"@ {
        assert(p is Respond && !spec_handle(b, c, reply).0.success);
    } else if c.name == "connect_lobby_voice"@ {
        assert(p is Respond && !spec_handle(b, c, reply).0.success);
    } else if c.name == "disconnect_lobby_voice"@ {
        assert(p is Respond && !spec_handle(b, c, reply).0.success);
    } else {
        assert(c.name == "create_or_join_lobby"@);
        assert(p is Respond && !spec_handle(b, c, reply).0.success);
    }
}

/// The deadline is kept: an asynchronous operation whose callback never
/// fires is answered with a failure, and the poll loop that produced it
/// stops no sooner than the operation's deadline and strictly within one
/// interval past it.
pub proof fn lemma_operation_timeout(id: u64, op: OperationV, b: BridgeV)
    requires
        spec_is_async(op),
    ensures
        !spec_op_response(id, op, CallbackReplyV::Never, b).success,
        spec_poll(spec_op_config(op), None) matches PollOutcome::TimedOut { elapsed_ms }
            && spec_op_config(op).deadline_ms <= elapsed_ms < spec_op_config(op).deadline_ms
            + spec_op_config(op).interval_ms,
{
    lemma_timeout_window(spec_op_config(op));
}

/// A callback that fires only at or after the deadline changes nothing:
/// the operation is answered exactly as if the callback had never fired,
/// whatever data the late callback carried, and the bridge's state does
/// not depend on it either. The late result lands in an abandoned
/// completion token and is never read.
pub proof fn lemma_late_callback_discarded(
    id: u64,
    op: OperationV,
    b: BridgeV,
    at_ms: u64,
    data: ServiceDataV,
)
    requires
        spec_is_async(op),
        at_ms >= spec_op_config(op).deadline_ms,
    ensures
        spec_op_response(id, op, CallbackReplyV::Fired { at_ms, data }, b) == spec_op_response(
            id,
            op,
            CallbackReplyV::Never,
            b,
        ),
        spec_op_bridge(id, op, CallbackReplyV::Fired { at_ms, data }, b) == spec_op_bridge(
            id,
            op,
            CallbackReplyV::Never,
            b,
        ),
{
    lemma_timeout_window(spec_op_config(op));
    lemma_late_fire_discarded(spec_op_config(op), at_ms);
}

} // verus!
