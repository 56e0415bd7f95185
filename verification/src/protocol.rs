//! The line protocol's two record shapes: the command a client sends and
//! the response the bridge returns, with their wire forms.
use vstd::prelude::*;
use crate::json::{Json, JsonV, fields_view, spec_get};
use crate::ser::{spec_ser, render_json};

verus! {

/// One requested operation: an identifier the response will echo, the
/// operation's name, and its optional argument object.
pub struct Command {
    pub id: u64,
    pub name: String,
    pub args: Option<Json>,
}

/// The mathematical shape of a `Command`.
pub struct CommandV {
    pub id: u64,
    pub name: Seq<char>,
    pub args: Option<JsonV>,
}

impl View for Command {
    type V = CommandV;

    open spec fn view(&self) -> CommandV {
        CommandV {
            id: self.id,
            name: self.name@,
            args: match self.args {
                Some(a) => Some(a@),
                None => None,
            },
        }
    }
}

/// The outcome of one command: the echoed identifier, whether the
/// operation succeeded, its payload on success, its message on failure.
pub struct Response {
    pub id: u64,
    pub success: bool,
    pub result: Option<Json>,
    pub error: Option<String>,
}

/// The mathematical shape of a `Response`.
pub struct ResponseV {
    pub id: u64,
    pub success: bool,
    pub result: Option<JsonV>,
    pub error: Option<Seq<char>>,
}

impl View for Response {
    type V = ResponseV;

    open spec fn view(&self) -> ResponseV {
        ResponseV {
            id: self.id,
            success: self.success,
            result: match self.result {
                Some(r) => Some(r@),
                None => None,
            },
            error: match self.error {
                Some(e) => Some(e@),
                None => None,
            },
        }
    }
}

impl DeepView for Response {
    type V = ResponseV;

    open spec fn deep_view(&self) -> ResponseV {
        self@
    }
}

/// A success response carrying `result`.
pub open spec fn spec_ok(id: u64, result: JsonV) -> ResponseV {
    ResponseV { id, success: true, result: Some(result), error: None }
}

/// A failure response carrying `error`.
pub open spec fn spec_fail(id: u64, error: Seq<char>) -> ResponseV {
    ResponseV { id, success: false, result: None, error: Some(error) }
}

/// The `args` a command object carries: absent, or null, means none.
pub open spec fn spec_args_of(v: JsonV) -> Option<JsonV> {
    match spec_get(v, "args"@) {
        Some(JsonV::Null) => None,
        Some(a) => Some(a),
        None => None,
    }
}

/// The command a decoded value denotes: an object whose `id` is an
/// integer and whose `command` is a string; anything else is no command.
/// Unknown fields are ignored, as lenient wire readers have it.
pub open spec fn spec_command_of(v: JsonV) -> Option<CommandV> {
    match (spec_get(v, "id"@), spec_get(v, "command"@)) {
        (Some(JsonV::Num(id)), Some(JsonV::Str(name))) => Some(
            CommandV { id, name, args: spec_args_of(v) },
        ),
        _ => None,
    }
}

/// Reads a command out of a decoded value, exactly as `spec_command_of`
/// describes.
pub fn command_of_json(j: &Json) -> (r: Option<Command>)
    ensures
        match r {
            Some(c) => spec_command_of(j@) == Some(c@),
            None => spec_command_of(j@) is None,
        },
{
    let id: u64 = match j.get("id") {
        Some(Json::Num(n)) => *n,
        _ => {
            return None;
        },
    };
    let name: String = match j.get("command") {
        Some(Json::Str(s)) => s.clone(),
        _ => {
            return None;
        },
    };
    let args: Option<Json> = match j.get("args") {
        Some(Json::Null) => None,
        Some(a) => Some(a.clone()),
        None => None,
    };
    Some(Command { id, name, args })
}

/// The wire form of a response: an object with the fields `id`,
/// `success`, `result` and `error`, in that order, absent payloads and
/// messages rendered as null.
pub open spec fn spec_response_json(r: ResponseV) -> JsonV {
    JsonV::Obj(
        seq![
            ("id"@, JsonV::Num(r.id)),
            ("success"@, JsonV::Bool(r.success)),
            (
                "result"@,
                match r.result {
                    Some(p) => p,
                    None => JsonV::Null,
                },
            ),
            (
                "error"@,
                match r.error {
                    Some(e) => JsonV::Str(e),
                    None => JsonV::Null,
                },
            ),
        ],
    )
}

/// Builds the wire object for a response.
pub fn response_json(r: &Response) -> (j: Json)
    ensures
        j@ == spec_response_json(r@),
{
    let result_field: Json = match &r.result {
        Some(p) => p.clone(),
        None => Json::Null,
    };
    let error_field: Json = match &r.error {
        Some(e) => Json::Str(e.clone()),
        None => Json::Null,
    };
    let mut fields: Vec<(String, Json)> = Vec::new();
    fields.push((String::from_str("id"), Json::Num(r.id)));
    fields.push((String::from_str("success"), Json::Bool(r.success)));
    fields.push((String::from_str("result"), result_field));
    fields.push((String::from_str("error"), error_field));
    let j = Json::Obj(fields);
    proof {
        assert(fields_view(j->Obj_0@) =~= spec_response_json(r@)->Obj_0);
        assert(j@ =~= spec_response_json(r@));
    }
    j
}

/// The exact line text a response is sent as, newline excluded.
pub open spec fn spec_response_text(r: ResponseV) -> Seq<char> {
    spec_ser(spec_response_json(r))
}

/// Renders a response as its wire text, newline excluded.
pub fn render_response(r: &Response) -> (out: Vec<char>)
    ensures
        out@ == spec_response_text(r@),
{
    let j = response_json(r);
    render_json(&j)
}

} // verus!
