//! The JSON value tree that the line protocol carries.
//!
//! The protocol exchanges one JSON object per line. Its values are objects,
//! arrays, strings, non-negative integers, booleans and null; identifiers too
//! wide for a JSON number travel as decimal strings (snowflake convention),
//! so no other number shape is needed.
use vstd::prelude::*;

verus! {

/// A JSON value as the line protocol uses it.
pub enum Json {
    Null,
    Bool(bool),
    Num(u64),
    Str(String),
    Arr(Vec<Json>),
    Obj(Vec<(String, Json)>),
}

/// The mathematical shape of a `Json` value: strings as character
/// sequences, arrays and objects as sequences.
#[verifier::ext_equal]
pub enum JsonV {
    Null,
    Bool(bool),
    Num(u64),
    Str(Seq<char>),
    Arr(Seq<JsonV>),
    Obj(Seq<(Seq<char>, JsonV)>),
}

/// The views of an array's elements.
pub open spec fn arr_view(a: Seq<Json>) -> Seq<JsonV>
    decreases a,
{
    Seq::new(
        a.len(),
        |i: int|
            if 0 <= i < a.len() {
                a[i]@
            } else {
                JsonV::Null
            },
    )
}

/// The views of an object's fields, in order.
pub open spec fn fields_view(m: Seq<(String, Json)>) -> Seq<(Seq<char>, JsonV)>
    decreases m,
{
    Seq::new(
        m.len(),
        |i: int|
            if 0 <= i < m.len() {
                (m[i].0@, m[i].1@)
            } else {
                (Seq::empty(), JsonV::Null)
            },
    )
}

impl View for Json {
    type V = JsonV;

    open spec fn view(&self) -> JsonV
        decreases self,
    {
        match self {
            Json::Null => JsonV::Null,
            Json::Bool(b) => JsonV::Bool(*b),
            Json::Num(n) => JsonV::Num(*n),
            Json::Str(s) => JsonV::Str(s@),
            Json::Arr(a) => JsonV::Arr(arr_view(a@)),
            Json::Obj(m) => JsonV::Obj(fields_view(m@)),
        }
    }
}

/// The value bound to `key` in an object's field list, if any; a repeated
/// key means the later binding, as an overwriting insert would leave it.
pub open spec fn obj_lookup(fields: Seq<(Seq<char>, JsonV)>, key: Seq<char>) -> Option<JsonV>
    decreases fields.len(),
{
    if fields.len() == 0 {
        None
    } else if fields.last().0 == key {
        Some(fields.last().1)
    } else {
        obj_lookup(fields.drop_last(), key)
    }
}

/// Field lookup on a `Json` value: `Some` only on objects that bind `key`.
pub open spec fn spec_get(v: JsonV, key: Seq<char>) -> Option<JsonV> {
    match v {
        JsonV::Obj(fields) => obj_lookup(fields, key),
        _ => None,
    }
}

impl Clone for Json {
    /// A clone denotes the same value.
    fn clone(&self) -> (r: Self)
        ensures
            r@ == self@,
        decreases self,
    {
        match self {
            Json::Null => Json::Null,
            Json::Bool(b) => Json::Bool(*b),
            Json::Num(n) => Json::Num(*n),
            Json::Str(s) => Json::Str(s.clone()),
            Json::Arr(a) => {
                let mut out: Vec<Json> = Vec::new();
                let mut i: usize = 0;
                while i < a.len()
                    invariant
                        i <= a.len(),
                        *self == Json::Arr(*a),
                        out@.len() == i,
                        forall|j: int| 0 <= j < i ==> #[trigger] out@[j]@ == a@[j]@,
                    decreases a.len() - i,
                {
                    proof {
                        assert(decreases_to!(*self => self->Arr_0));
                        assert(decreases_to!(*a => a@[i as int]));
                    }
                    out.push(a[i].clone());
                    i = i + 1;
                }
                let r = Json::Arr(out);
                proof {
                    assert forall|j: int| 0 <= j < out@.len() implies arr_view(out@)[j]
                        == arr_view(a@)[j] by {
                        assert(arr_view(out@)[j] == out@[j]@);
                        assert(arr_view(a@)[j] == a@[j]@);
                    }
                    assert(arr_view(out@) =~= arr_view(a@));
                }
                r
            },
            Json::Obj(m) => {
                let mut out: Vec<(String, Json)> = Vec::new();
                let mut i: usize = 0;
                while i < m.len()
                    invariant
                        i <= m.len(),
                        *self == Json::Obj(*m),
                        out@.len() == i,
                        forall|j: int|
                            0 <= j < i ==> #[trigger] out@[j].0@ == m@[j].0@ && out@[j].1@
                                == m@[j].1@,
                    decreases m.len() - i,
                {
                    proof {
                        assert(decreases_to!(*self => self->Obj_0));
                        assert(decreases_to!(*m => m@[i as int]));
                        assert(decreases_to!(m@[i as int] => m@[i as int].1));
                    }
                    out.push((m[i].0.clone(), m[i].1.clone()));
                    i = i + 1;
                }
                let r = Json::Obj(out);
                proof {
                    assert(fields_view(out@) =~= fields_view(m@));
                }
                r
            },
        }
    }
}

impl Json {
    /// Looks a key up in an object, scanning from the back so that a
    /// repeated key resolves to its latest binding.
    pub fn get<'a>(&'a self, key: &str) -> (r: Option<&'a Json>)
        ensures
            match r {
                Some(f) => spec_get(self@, key@) == Some(f@),
                None => spec_get(self@, key@) is None,
            },
    {
        match self {
            Json::Obj(fields) => {
                let ghost gs = self@->Obj_0;
                proof {
                    assert(*self == Json::Obj(*fields));
                    assert(self@ == JsonV::Obj(fields_view(fields@)));
                    assert(gs == fields_view(fields@));
                    assert(gs.len() == fields@.len());
                    assert(gs.take(fields.len() as int) =~= gs);
                }
                let mut i: usize = fields.len();
                while i > 0
                    invariant
                        i <= fields.len(),
                        self@ == JsonV::Obj(gs),
                        gs.len() == fields.len(),
                        forall|j: int|
                            0 <= j < fields.len() ==> #[trigger] gs[j] == (
                                fields[j].0@,
                                fields[j].1@,
                            ),
                        obj_lookup(gs, key@) == obj_lookup(gs.take(i as int), key@),
                    decreases i,
                {
                    i = i - 1;
                    proof {
                        assert(gs.take(i + 1).drop_last() =~= gs.take(i as int));
                        assert(gs.take(i + 1).last() == gs[i as int]);
                    }
                    if crate::text::str_eq(fields[i].0.as_str(), key) {
                        return Some(&fields[i].1);
                    }
                }
                proof {
                    assert(gs.take(0) =~= Seq::<(Seq<char>, JsonV)>::empty());
                }
                None
            },
            _ => None,
        }
    }
}

} // verus!
