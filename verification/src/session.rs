//! The session lifecycle: judging the connection status trace an
//! `initialize` observes, and wrapping the credential exchange's outcome
//! into the protocol's response.
//!
//! The external service reports its connection as a small integer that
//! should climb from naught through connecting and connected to ready
//! (three and above). The bridge polls that signal until it reads ready
//! or its window closes. A status that falls back to naught after having
//! reached connected is a regression: the session is reported failed
//! rather than merely timed out, though polling continues to the end of
//! the window in case the service recovers.
use vstd::prelude::*;
use crate::json::JsonV;
use crate::protocol::{Response, ResponseV, spec_ok, spec_fail};
use crate::ops::{TokenPlan, TokenPlanV, ok_resp, fail_resp};
use crate::results::obj1;
use crate::service::{
    AuthReply, AuthReplyV, CallbackReply, CallbackReplyV, ServiceData, ServiceDataV,
};
use crate::text::{spec_dec_signed, push_dec_i32};

verus! {

/// How one initialization window ended.
pub enum InitOutcome {
    /// The status reached ready within the window.
    Ready,
    /// The status fell back to naught after having been connected, and
    /// never reached ready.
    Regressed,
    /// The window closed with the status stuck below ready; the last
    /// value read is reported.
    Stuck { final_status: i32 },
}

/// Whether the trace reaches ready.
pub open spec fn spec_reaches_ready(ss: Seq<i32>) -> bool {
    exists|k: int| 0 <= k < ss.len() && ss[k] >= 3
}

/// Whether the trace regresses: connected at some poll, naught at a
/// later one.
pub open spec fn spec_regresses(ss: Seq<i32>) -> bool {
    exists|j: int, k: int| 0 <= j < k < ss.len() && ss[j] >= 2 && ss[k] == 0
}

/// The last status read, naught where nothing was read at all.
pub open spec fn spec_last_status(ss: Seq<i32>) -> i32 {
    if ss.len() == 0 {
        0
    } else {
        ss.last()
    }
}

/// The verdict on one status trace: ready wins, however the trace got
/// there; otherwise a regression is fatal; otherwise the window merely
/// closed.
pub open spec fn spec_init_outcome(ss: Seq<i32>) -> InitOutcome {
    if spec_reaches_ready(ss) {
        InitOutcome::Ready
    } else if spec_regresses(ss) {
        InitOutcome::Regressed
    } else {
        InitOutcome::Stuck { final_status: spec_last_status(ss) }
    }
}

/// Judges one status trace, exactly as `spec_init_outcome` describes.
pub fn init_outcome(ss: &Vec<i32>) -> (r: InitOutcome)
    ensures
        r == spec_init_outcome(ss@),
{
    let mut seen_connected = false;
    let mut regressed = false;
    let mut i: usize = 0;
    while i < ss.len()
        invariant
            i <= ss.len(),
            forall|k: int| 0 <= k < i ==> ss@[k] < 3,
            seen_connected == exists|j: int| 0 <= j < i && ss@[j] >= 2,
            regressed == exists|j: int, k: int| 0 <= j < k < i && ss@[j] >= 2 && ss@[k] == 0,
        decreases ss.len() - i,
    {
        let s = ss[i];
        if s >= 3 {
            return InitOutcome::Ready;
        }
        if s == 0 && seen_connected {
            regressed = true;
        }
        if s >= 2 {
            seen_connected = true;
        }
        i = i + 1;
    }
    if regressed {
        proof {
            assert(!spec_reaches_ready(ss@));
        }
        InitOutcome::Regressed
    } else {
        let final_status: i32 = if ss.len() > 0 {
            ss[ss.len() - 1]
        } else {
            0
        };
        proof {
            assert(!spec_reaches_ready(ss@));
            assert(!spec_regresses(ss@));
        }
        InitOutcome::Stuck { final_status }
    }
}

/// The response a status trace earns: success only on ready, the fatal
/// text on a regression, the stuck status spelled out on a closed window.
pub open spec fn spec_status_response(id: u64, ss: Seq<i32>) -> ResponseV {
    match spec_init_outcome(ss) {
        InitOutcome::Ready => spec_ok(
            id,
            JsonV::Obj(seq![("status"@, JsonV::Str("initialized"@))]),
        ),
        InitOutcome::Regressed => spec_fail(
            id,
            "SDK error 4004 - app not configured for SDK in Developer Portal"@,
        ),
        InitOutcome::Stuck { final_status } => spec_fail(
            id,
            "SDK connection timeout - stuck at status="@ + spec_dec_signed(final_status as int),
        ),
    }
}

fn status_response(id: u64, ss: &Vec<i32>) -> (r: Response)
    ensures
        r@ == spec_status_response(id, ss@),
{
    match init_outcome(ss) {
        InitOutcome::Ready => ok_resp(id, obj1("status", crate::results::jstr("initialized"))),
        InitOutcome::Regressed => fail_resp(
            id,
            "SDK error 4004 - app not configured for SDK in Developer Portal",
        ),
        InitOutcome::Stuck { final_status } => {
            let mut msg = String::from_str("SDK connection timeout - stuck at status=");
            push_dec_i32(final_status, &mut msg);
            Response { id, success: false, result: None, error: Some(msg) }
        },
    }
}

/// The empty authorization exchange: nothing ever answered.
pub open spec fn spec_auth_silent() -> AuthReplyV {
    AuthReplyV {
        fired: false,
        code: None,
        token_fired: false,
        access_token: None,
        statuses: Seq::empty(),
    }
}

/// The status trace a reply carries for a stored-token initialization;
/// a reply of any other shape counts as an empty trace.
pub open spec fn spec_statuses_of(reply: CallbackReplyV) -> Seq<i32> {
    match reply {
        CallbackReplyV::Fired { at_ms, data: ServiceDataV::Statuses(ss) } => ss,
        _ => Seq::empty(),
    }
}

/// The exchange record a reply carries for an interactive
/// initialization; a reply of any other shape counts as a silent
/// exchange.
pub open spec fn spec_auth_of(reply: CallbackReplyV) -> AuthReplyV {
    match reply {
        CallbackReplyV::Fired { at_ms, data: ServiceDataV::Auth(a) } => a,
        _ => spec_auth_silent(),
    }
}

/// The response of the interactive authorization path: each stage of the
/// exchange must have answered, the access token must look usable, and
/// only then does the status trace decide.
pub open spec fn spec_auth_response(id: u64, a: AuthReplyV) -> ResponseV {
    if !a.fired {
        spec_fail(id, "Authorization timeout"@)
    } else {
        match a.code {
            None => spec_fail(id, "No authorization code received"@),
            Some(code) => if !a.token_fired {
                spec_fail(id, "GetToken timeout"@)
            } else {
                match a.access_token {
                    None => spec_fail(id, "No access token received"@),
                    Some(tok) => if tok.len() == 0 {
                        spec_fail(id, "Access token is empty"@)
                    } else if tok.len() < 20 {
                        spec_fail(id, "Access token appears malformed (too short)"@)
                    } else {
                        spec_status_response(id, a.statuses)
                    },
                }
            },
        }
    }
}

/// The response one `initialize` earns from the service's reply, by the
/// credential plan it was given.
pub open spec fn spec_init_response(id: u64, plan: TokenPlanV, reply: CallbackReplyV) -> ResponseV {
    match plan {
        TokenPlanV::Stored { token_type, token } => spec_status_response(
            id,
            spec_statuses_of(reply),
        ),
        TokenPlanV::Interactive => spec_auth_response(id, spec_auth_of(reply)),
    }
}

/// Whether the session is ready after that response: exactly when it
/// reports success.
pub open spec fn spec_init_ready(id: u64, plan: TokenPlanV, reply: CallbackReplyV) -> bool {
    spec_init_response(id, plan, reply).success
}

fn auth_response(id: u64, a: AuthReply) -> (r: Response)
    ensures
        r@ == spec_auth_response(id, a.deep_view()),
{
    if !a.fired {
        return fail_resp(id, "Authorization timeout");
    }
    if a.code.is_none() {
        return fail_resp(id, "No authorization code received");
    }
    if !a.token_fired {
        return fail_resp(id, "GetToken timeout");
    }
    match &a.access_token {
        None => fail_resp(id, "No access token received"),
        Some(tok) => {
            let tok_len = tok.as_str().unicode_len();
            if tok_len == 0 {
                fail_resp(id, "Access token is empty")
            } else if tok_len < 20 {
                fail_resp(id, "Access token appears malformed (too short)")
            } else {
                status_response(id, &a.statuses)
            }
        },
    }
}

/// Resolves one `initialize`: the response sent back, and whether the
/// session is ready afterwards.
pub fn initialize_response(id: u64, plan: &TokenPlan, reply: CallbackReply) -> (r: (
    Response,
    bool,
))
    ensures
        r.0@ == spec_init_response(id, plan.deep_view(), reply.deep_view()),
        r.1 == spec_init_ready(id, plan.deep_view(), reply.deep_view()),
{
    let resp = match plan {
        TokenPlan::Stored { token_type, token } => {
            match reply {
                CallbackReply::Fired { at_ms, data: ServiceData::Statuses(ss) } => status_response(
                    id,
                    &ss,
                ),
                _ => {
                    let empty: Vec<i32> = Vec::new();
                    proof {
                        assert(empty@ =~= Seq::<i32>::empty());
                    }
                    status_response(id, &empty)
                },
            }
        },
        TokenPlan::Interactive => {
            match reply {
                CallbackReply::Fired { at_ms, data: ServiceData::Auth(a) } => auth_response(id, a),
                _ => fail_resp(id, "Authorization timeout"),
            }
        },
    };
    let ready = resp.success;
    (resp, ready)
}

} // verus!
