//! Result payloads: what the service reported, turned into the JSON the
//! protocol sends back.
use vstd::prelude::*;
use crate::json::{Json, JsonV, arr_view, fields_view};
use crate::service::{
    GuildEntry, GuildEntryV, ChannelEntry, ChannelEntryV, MessageEntry, MessageEntryV, RelEntry,
    RelEntryV,
};
use crate::text::{spec_dec_digits, dec_string};

verus! {

/// A JSON string from a borrowed string slice.
pub fn jstr(s: &str) -> (r: Json)
    ensures
        r@ == JsonV::Str(s@),
{
    Json::Str(String::from_str(s))
}

/// An object of one field.
pub fn obj1(k: &str, v: Json) -> (r: Json)
    ensures
        r@ == JsonV::Obj(seq![(k@, v@)]),
{
    let ghost vv = v@;
    let mut fields: Vec<(String, Json)> = Vec::new();
    fields.push((String::from_str(k), v));
    let r = Json::Obj(fields);
    proof {
        assert(fields_view(r->Obj_0@) =~= seq![(k@, vv)]);
    }
    r
}

/// An object of two fields, in order.
pub fn obj2(k1: &str, v1: Json, k2: &str, v2: Json) -> (r: Json)
    ensures
        r@ == JsonV::Obj(seq![(k1@, v1@), (k2@, v2@)]),
{
    let ghost vv1 = v1@;
    let ghost vv2 = v2@;
    let mut fields: Vec<(String, Json)> = Vec::new();
    fields.push((String::from_str(k1), v1));
    fields.push((String::from_str(k2), v2));
    let r = Json::Obj(fields);
    proof {
        assert(fields_view(r->Obj_0@) =~= seq![(k1@, vv1), (k2@, vv2)]);
    }
    r
}

/// An object of three fields, in order.
pub fn obj3(k1: &str, v1: Json, k2: &str, v2: Json, k3: &str, v3: Json) -> (r: Json)
    ensures
        r@ == JsonV::Obj(seq![(k1@, v1@), (k2@, v2@), (k3@, v3@)]),
{
    let ghost vv1 = v1@;
    let ghost vv2 = v2@;
    let ghost vv3 = v3@;
    let mut fields: Vec<(String, Json)> = Vec::new();
    fields.push((String::from_str(k1), v1));
    fields.push((String::from_str(k2), v2));
    fields.push((String::from_str(k3), v3));
    let r = Json::Obj(fields);
    proof {
        assert(fields_view(r->Obj_0@) =~= seq![(k1@, vv1), (k2@, vv2), (k3@, vv3)]);
    }
    r
}

/// A name as the protocol shows it: the service's empty name becomes the
/// placeholder `Unknown`.
pub open spec fn spec_display_name(s: Seq<char>) -> Seq<char> {
    if s.len() == 0 {
        "Unknown"@
    } else {
        s
    }
}

fn display_name(s: &String) -> (r: String)
    ensures
        r@ == spec_display_name(s@),
{
    if s.as_str().unicode_len() == 0 {
        String::from_str("Unknown")
    } else {
        s.clone()
    }
}

/// An identifier as the protocol sends it: its decimal digits as a JSON
/// string, so that no precision is lost to a JSON number.
pub open spec fn spec_id_str(n: u64) -> JsonV {
    JsonV::Str(spec_dec_digits(n as nat))
}

/// The identifier `n` as a JSON string of decimal digits.
pub fn id_str(n: u64) -> (r: Json)
    ensures
        r@ == spec_id_str(n),
{
    Json::Str(dec_string(n))
}

/// One guild, as the guild list shows it.
pub open spec fn spec_guild_item(g: GuildEntryV) -> JsonV {
    JsonV::Obj(seq![("id"@, spec_id_str(g.id)), ("name"@, JsonV::Str(spec_display_name(g.name)))])
}

/// The `get_guilds` payload.
pub open spec fn spec_guilds_result(gs: Seq<GuildEntryV>) -> JsonV {
    JsonV::Obj(
        seq![("guilds"@, JsonV::Arr(gs.map_values(|g: GuildEntryV| spec_guild_item(g))))],
    )
}

/// Builds the `get_guilds` payload.
pub fn guilds_result(gs: &Vec<GuildEntry>) -> (r: Json)
    ensures
        r@ == spec_guilds_result(gs.deep_view()),
{
    let mut items: Vec<Json> = Vec::new();
    let mut i: usize = 0;
    while i < gs.len()
        invariant
            i <= gs.len(),
            items@.len() == i,
            forall|j: int|
                0 <= j < i ==> #[trigger] items@[j]@ == spec_guild_item(gs@[j].deep_view()),
        decreases gs.len() - i,
    {
        let item = obj2("id", id_str(gs[i].id), "name", Json::Str(display_name(&gs[i].name)));
        items.push(item);
        i = i + 1;
    }
    let arr = Json::Arr(items);
    proof {
        assert forall|j: int| 0 <= j < items@.len() implies arr_view(items@)[j]
            == gs.deep_view().map_values(|g: GuildEntryV| spec_guild_item(g))[j] by {
            assert(arr_view(items@)[j] == items@[j]@);
            assert(gs.deep_view()[j] == gs@[j].deep_view());
        }
        assert(arr_view(arr->Arr_0@) =~= gs.deep_view().map_values(
            |g: GuildEntryV| spec_guild_item(g),
        ));
    }
    obj1("guilds", arr)
}

/// One channel, as the channel list shows it.
pub open spec fn spec_channel_item(c: ChannelEntryV) -> JsonV {
    JsonV::Obj(
        seq![
            ("id"@, spec_id_str(c.id)),
            ("name"@, JsonV::Str(spec_display_name(c.name))),
            ("type"@, JsonV::Num(c.kind)),
        ],
    )
}

/// The `get_guild_channels` payload.
pub open spec fn spec_channels_result(cs: Seq<ChannelEntryV>) -> JsonV {
    JsonV::Obj(
        seq![("channels"@, JsonV::Arr(cs.map_values(|c: ChannelEntryV| spec_channel_item(c))))],
    )
}

/// Builds the `get_guild_channels` payload.
pub fn channels_result(cs: &Vec<ChannelEntry>) -> (r: Json)
    ensures
        r@ == spec_channels_result(cs.deep_view()),
{
    let mut items: Vec<Json> = Vec::new();
    let mut i: usize = 0;
    while i < cs.len()
        invariant
            i <= cs.len(),
            items@.len() == i,
            forall|j: int|
                0 <= j < i ==> #[trigger] items@[j]@ == spec_channel_item(cs@[j].deep_view()),
        decreases cs.len() - i,
    {
        let item = obj3(
            "id",
            id_str(cs[i].id),
            "name",
            Json::Str(display_name(&cs[i].name)),
            "type",
            Json::Num(cs[i].kind),
        );
        items.push(item);
        i = i + 1;
    }
    let arr = Json::Arr(items);
    proof {
        assert forall|j: int| 0 <= j < items@.len() implies arr_view(items@)[j]
            == cs.deep_view().map_values(|c: ChannelEntryV| spec_channel_item(c))[j] by {
            assert(arr_view(items@)[j] == items@[j]@);
            assert(cs.deep_view()[j] == cs@[j].deep_view());
        }
        assert(arr_view(arr->Arr_0@) =~= cs.deep_view().map_values(
            |c: ChannelEntryV| spec_channel_item(c),
        ));
    }
    obj1("channels", arr)
}

/// One message, as message lists and lookups show it.
pub open spec fn spec_message_item(m: MessageEntryV) -> JsonV {
    JsonV::Obj(
        seq![
            ("id"@, spec_id_str(m.id)),
            ("author_id"@, spec_id_str(m.author_id)),
            ("channel_id"@, spec_id_str(m.channel_id)),
            ("content"@, JsonV::Str(m.content)),
            ("timestamp"@, JsonV::Num(m.timestamp)),
        ],
    )
}

/// Builds one message object.
pub fn message_item(m: &MessageEntry) -> (r: Json)
    ensures
        r@ == spec_message_item(m.deep_view()),
{
    let ghost mv = m.deep_view();
    let mut fields: Vec<(String, Json)> = Vec::new();
    fields.push((String::from_str("id"), id_str(m.id)));
    fields.push((String::from_str("author_id"), id_str(m.author_id)));
    fields.push((String::from_str("channel_id"), id_str(m.channel_id)));
    fields.push((String::from_str("content"), Json::Str(m.content.clone())));
    fields.push((String::from_str("timestamp"), Json::Num(m.timestamp)));
    let r = Json::Obj(fields);
    proof {
        assert(fields_view(r->Obj_0@) =~= spec_message_item(mv)->Obj_0);
    }
    r
}

/// The payload of both message-list operations.
pub open spec fn spec_messages_result(ms: Seq<MessageEntryV>) -> JsonV {
    JsonV::Obj(
        seq![("messages"@, JsonV::Arr(ms.map_values(|m: MessageEntryV| spec_message_item(m))))],
    )
}

/// Builds a message-list payload.
pub fn messages_result(ms: &Vec<MessageEntry>) -> (r: Json)
    ensures
        r@ == spec_messages_result(ms.deep_view()),
{
    let mut items: Vec<Json> = Vec::new();
    let mut i: usize = 0;
    while i < ms.len()
        invariant
            i <= ms.len(),
            items@.len() == i,
            forall|j: int|
                0 <= j < i ==> #[trigger] items@[j]@ == spec_message_item(ms@[j].deep_view()),
        decreases ms.len() - i,
    {
        let item = message_item(&ms[i]);
        items.push(item);
        i = i + 1;
    }
    let arr = Json::Arr(items);
    proof {
        assert forall|j: int| 0 <= j < items@.len() implies arr_view(items@)[j]
            == ms.deep_view().map_values(|m: MessageEntryV| spec_message_item(m))[j] by {
            assert(arr_view(items@)[j] == items@[j]@);
            assert(ms.deep_view()[j] == ms@[j].deep_view());
        }
        assert(arr_view(arr->Arr_0@) =~= ms.deep_view().map_values(
            |m: MessageEntryV| spec_message_item(m),
        ));
    }
    obj1("messages", arr)
}

/// The friends a relationship list yields: entries whose peer the service
/// could not resolve are left out, an empty user name shows as `Unknown`.
pub open spec fn spec_friend_items(rs: Seq<RelEntryV>) -> Seq<JsonV>
    decreases rs.len(),
{
    if rs.len() == 0 {
        Seq::empty()
    } else {
        let rest = spec_friend_items(rs.drop_last());
        match rs.last().username {
            Some(u) => rest.push(
                JsonV::Obj(
                    seq![
                        ("id"@, spec_id_str(rs.last().id)),
                        ("username"@, JsonV::Str(spec_display_name(u))),
                    ],
                ),
            ),
            None => rest,
        }
    }
}

/// The `get_relationships` payload.
pub open spec fn spec_friends_result(rs: Seq<RelEntryV>) -> JsonV {
    JsonV::Obj(seq![("friends"@, JsonV::Arr(spec_friend_items(rs)))])
}

/// Builds the `get_relationships` payload.
pub fn friends_result(rs: &Vec<RelEntry>) -> (r: Json)
    ensures
        r@ == spec_friends_result(rs.deep_view()),
{
    let mut items: Vec<Json> = Vec::new();
    let mut i: usize = 0;
    while i < rs.len()
        invariant
            i <= rs.len(),
            arr_view(items@) =~= spec_friend_items(rs.deep_view().take(i as int)),
        decreases rs.len() - i,
    {
        proof {
            assert(rs.deep_view().take(i + 1).drop_last() =~= rs.deep_view().take(i as int));
            assert(rs.deep_view().take(i + 1).last() == rs@[i as int].deep_view());
        }
        match &rs[i].username {
            Some(u) => {
                let item = obj2(
                    "id",
                    id_str(rs[i].id),
                    "username",
                    Json::Str(display_name(u)),
                );
                items.push(item);
            },
            None => {},
        }
        proof {
            assert(arr_view(items@) =~= spec_friend_items(rs.deep_view().take(i + 1)));
        }
        i = i + 1;
    }
    let arr = Json::Arr(items);
    proof {
        assert(rs.deep_view().take(rs@.len() as int) =~= rs.deep_view());
        assert(arr_view(arr->Arr_0@) =~= spec_friend_items(rs.deep_view()));
    }
    obj1("friends", arr)
}

/// The lobby identifiers the bridge trusts: a span is read only when it
/// holds fewer than a thousand entries, anything else counting as empty,
/// a defence against a corrupt span length.
pub open spec fn spec_lobby_id_items(ids: Seq<u64>) -> Seq<JsonV> {
    if 0 < ids.len() < 1000 {
        ids.map_values(|n: u64| spec_id_str(n))
    } else {
        Seq::empty()
    }
}

/// The `get_lobby_ids` payload.
pub open spec fn spec_lobby_ids_result(ids: Seq<u64>) -> JsonV {
    JsonV::Obj(seq![("lobby_ids"@, JsonV::Arr(spec_lobby_id_items(ids)))])
}

/// Builds the `get_lobby_ids` payload.
pub fn lobby_ids_result(ids: &Vec<u64>) -> (r: Json)
    ensures
        r@ == spec_lobby_ids_result(ids@),
{
    let mut items: Vec<Json> = Vec::new();
    if 0 < ids.len() && ids.len() < 1000 {
        let mut i: usize = 0;
        while i < ids.len()
            invariant
                i <= ids.len(),
                items@.len() == i,
                forall|j: int| 0 <= j < i ==> #[trigger] items@[j]@ == spec_id_str(ids@[j]),
            decreases ids.len() - i,
        {
            items.push(id_str(ids[i]));
            i = i + 1;
        }
    }
    let arr = Json::Arr(items);
    proof {
        if 0 < ids@.len() < 1000 {
            assert forall|j: int| 0 <= j < items@.len() implies arr_view(items@)[j]
                == spec_lobby_id_items(ids@)[j] by {
                assert(arr_view(items@)[j] == items@[j]@);
            }
        }
        assert(arr_view(arr->Arr_0@) =~= spec_lobby_id_items(ids@));
    }
    obj1("lobby_ids", arr)
}

/// Where `key` is bound in a field list, scanning from the front; one
/// past nowhere is `-1`.
pub open spec fn spec_key_index(fs: Seq<(Seq<char>, JsonV)>, key: Seq<char>) -> int
    decreases fs.len(),
{
    if fs.len() == 0 {
        -1
    } else if fs[0].0 == key {
        0
    } else {
        let rest = spec_key_index(fs.drop_first(), key);
        if rest < 0 {
            -1
        } else {
            rest + 1
        }
    }
}

/// Binding a key in a field list: an existing binding is replaced in
/// place, a new key goes to the end.
pub open spec fn spec_obj_set(fs: Seq<(Seq<char>, JsonV)>, key: Seq<char>, v: JsonV) -> Seq<
    (Seq<char>, JsonV),
> {
    let j = spec_key_index(fs, key);
    if j >= 0 {
        fs.update(j, (key, v))
    } else {
        fs.push((key, v))
    }
}

proof fn lemma_key_index_found(fs: Seq<(Seq<char>, JsonV)>, key: Seq<char>, i: int)
    requires
        0 <= i < fs.len(),
        fs[i].0 == key,
        forall|j: int| 0 <= j < i ==> fs[j].0 != key,
    ensures
        spec_key_index(fs, key) == i,
    decreases i,
{
    if i > 0 {
        lemma_key_index_found(fs.drop_first(), key, i - 1);
    }
}

proof fn lemma_key_index_absent(fs: Seq<(Seq<char>, JsonV)>, key: Seq<char>)
    requires
        forall|j: int| 0 <= j < fs.len() ==> fs[j].0 != key,
    ensures
        spec_key_index(fs, key) == -1,
    decreases fs.len(),
{
    if fs.len() > 0 {
        lemma_key_index_absent(fs.drop_first(), key);
    }
}

/// Binds `key` to `v` in a field list, replacing an existing binding in
/// place and appending a new key.
pub fn obj_set_field(fields: &mut Vec<(String, Json)>, key: String, v: Json)
    ensures
        fields_view(final(fields)@) == spec_obj_set(fields_view(old(fields)@), key@, v@),
{
    let ghost fv = fields_view(fields@);
    let ghost kv = key@;
    let ghost vv = v@;
    let mut i: usize = 0;
    while i < fields.len()
        invariant
            i <= fields.len(),
            fields@ == old(fields)@,
            fv == fields_view(fields@),
            fv.len() == fields@.len(),
            forall|j: int|
                0 <= j < fields@.len() ==> #[trigger] fv[j] == (fields@[j].0@, fields@[j].1@),
            kv == key@,
            vv == v@,
            forall|j: int| 0 <= j < i ==> fv[j].0 != kv,
        decreases fields.len() - i,
    {
        let entry_key: &String = &fields[i].0;
        let hit = crate::text::str_eq(entry_key.as_str(), key.as_str());
        proof {
            assert(entry_key@ == fields@[i as int].0@);
            assert(fv[i as int] == (fields@[i as int].0@, fields@[i as int].1@));
            assert(hit == (fv[i as int].0 == kv));
        }
        if hit {
            proof {
                lemma_key_index_found(fv, kv, i as int);
            }
            fields[i] = (key, v);
            proof {
                assert(fields_view(final(fields)@) =~= fv.update(i as int, (kv, vv)));
            }
            return;
        }
        i = i + 1;
    }
    proof {
        lemma_key_index_absent(fv, kv);
    }
    fields.push((key, v));
    proof {
        assert(fields_view(final(fields)@) =~= fv.push((kv, vv)));
    }
}

/// A metadata object, built pair by pair, a later value for a key
/// replacing an earlier one.
pub open spec fn spec_meta_fields(ps: Seq<(Seq<char>, Seq<char>)>) -> Seq<(Seq<char>, JsonV)>
    decreases ps.len(),
{
    if ps.len() == 0 {
        Seq::empty()
    } else {
        spec_obj_set(spec_meta_fields(ps.drop_last()), ps.last().0, JsonV::Str(ps.last().1))
    }
}

/// Builds a metadata object from the service's key-value pairs.
pub fn meta_object(ps: &Vec<(String, String)>) -> (r: Json)
    ensures
        r@ == JsonV::Obj(spec_meta_fields(ps.deep_view())),
{
    let mut fields: Vec<(String, Json)> = Vec::new();
    let mut i: usize = 0;
    while i < ps.len()
        invariant
            i <= ps.len(),
            fields_view(fields@) =~= spec_meta_fields(ps.deep_view().take(i as int)),
        decreases ps.len() - i,
    {
        proof {
            assert(ps.deep_view().take(i + 1).drop_last() =~= ps.deep_view().take(i as int));
            assert(ps.deep_view().take(i + 1).last() == ps@[i as int].deep_view());
        }
        obj_set_field(&mut fields, ps[i].0.clone(), Json::Str(ps[i].1.clone()));
        i = i + 1;
    }
    let r = Json::Obj(fields);
    proof {
        assert(ps.deep_view().take(ps@.len() as int) =~= ps.deep_view());
        assert(r@ =~= JsonV::Obj(spec_meta_fields(ps.deep_view())));
    }
    r
}

/// One queued message event, as `get_message_events` reports it.
pub open spec fn spec_event_item(e: (u64, Seq<char>)) -> JsonV {
    JsonV::Obj(seq![("message_id"@, spec_id_str(e.0)), ("timestamp"@, JsonV::Str(e.1))])
}

/// The `get_message_events` payload.
pub open spec fn spec_events_result(es: Seq<(u64, Seq<char>)>) -> JsonV {
    JsonV::Obj(
        seq![("messages"@, JsonV::Arr(es.map_values(|e: (u64, Seq<char>)| spec_event_item(e))))],
    )
}

/// Builds the `get_message_events` payload.
pub fn events_result(es: &Vec<(u64, String)>) -> (r: Json)
    ensures
        r@ == spec_events_result(es.deep_view()),
{
    let mut items: Vec<Json> = Vec::new();
    let mut i: usize = 0;
    while i < es.len()
        invariant
            i <= es.len(),
            items@.len() == i,
            forall|j: int|
                0 <= j < i ==> #[trigger] items@[j]@ == spec_event_item(es@[j].deep_view()),
        decreases es.len() - i,
    {
        let item = obj2(
            "message_id",
            id_str(es[i].0),
            "timestamp",
            Json::Str(es[i].1.clone()),
        );
        items.push(item);
        i = i + 1;
    }
    let arr = Json::Arr(items);
    proof {
        assert forall|j: int| 0 <= j < items@.len() implies arr_view(items@)[j]
            == es.deep_view().map_values(|e: (u64, Seq<char>)| spec_event_item(e))[j] by {
            assert(arr_view(items@)[j] == items@[j]@);
            assert(es.deep_view()[j] == es@[j].deep_view());
        }
        assert(arr_view(arr->Arr_0@) =~= es.deep_view().map_values(
            |e: (u64, Seq<char>)| spec_event_item(e),
        ));
    }
    obj1("messages", arr)
}

} // verus!
