//! What the external service hands back, modelled as plain values.
//!
//! The bridge never reaches the vendor library directly: a runner (or a
//! test's fake service) performs each call and delivers its outcome as one
//! of these records. Every decision the bridge takes about such a record
//! is verified.
use vstd::prelude::*;

verus! {

/// One guild as the service reports it.
pub struct GuildEntry {
    pub id: u64,
    pub name: String,
}

/// The mathematical shape of a `GuildEntry`.
pub struct GuildEntryV {
    pub id: u64,
    pub name: Seq<char>,
}

impl DeepView for GuildEntry {
    type V = GuildEntryV;

    open spec fn deep_view(&self) -> GuildEntryV {
        GuildEntryV { id: self.id, name: self.name@ }
    }
}

/// One guild channel as the service reports it.
pub struct ChannelEntry {
    pub id: u64,
    pub name: String,
    pub kind: u64,
}

/// The mathematical shape of a `ChannelEntry`.
pub struct ChannelEntryV {
    pub id: u64,
    pub name: Seq<char>,
    pub kind: u64,
}

impl DeepView for ChannelEntry {
    type V = ChannelEntryV;

    open spec fn deep_view(&self) -> ChannelEntryV {
        ChannelEntryV { id: self.id, name: self.name@, kind: self.kind }
    }
}

/// One message as the service reports it.
pub struct MessageEntry {
    pub id: u64,
    pub author_id: u64,
    pub channel_id: u64,
    pub content: String,
    pub timestamp: u64,
}

/// The mathematical shape of a `MessageEntry`.
pub struct MessageEntryV {
    pub id: u64,
    pub author_id: u64,
    pub channel_id: u64,
    pub content: Seq<char>,
    pub timestamp: u64,
}

impl DeepView for MessageEntry {
    type V = MessageEntryV;

    open spec fn deep_view(&self) -> MessageEntryV {
        MessageEntryV {
            id: self.id,
            author_id: self.author_id,
            channel_id: self.channel_id,
            content: self.content@,
            timestamp: self.timestamp,
        }
    }
}

/// One relationship as the service reports it: the peer's identifier and,
/// where the service could resolve the peer, a user name.
pub struct RelEntry {
    pub id: u64,
    pub username: Option<String>,
}

/// The mathematical shape of a `RelEntry`.
pub struct RelEntryV {
    pub id: u64,
    pub username: Option<Seq<char>>,
}

impl DeepView for RelEntry {
    type V = RelEntryV;

    open spec fn deep_view(&self) -> RelEntryV {
        RelEntryV { id: self.id, username: self.username.deep_view() }
    }
}

/// A span of 64-bit identifiers as the service returns one: the bridge
/// reads it only when it holds fewer than a thousand entries, treating
/// anything else as empty, as a defence against a corrupt length.
pub struct DiscordUInt64Span {
    pub items: Vec<u64>,
}

impl View for DiscordUInt64Span {
    type V = Seq<u64>;

    open spec fn view(&self) -> Seq<u64> {
        self.items@
    }
}

/// What the interactive authorization exchange produced: whether the
/// authorization callback fired, the code it delivered, whether the token
/// exchange answered, the access token it delivered, and the connection
/// status values observed afterwards.
pub struct AuthReply {
    pub fired: bool,
    pub code: Option<String>,
    pub token_fired: bool,
    pub access_token: Option<String>,
    pub statuses: Vec<i32>,
}

/// The mathematical shape of an `AuthReply`.
pub struct AuthReplyV {
    pub fired: bool,
    pub code: Option<Seq<char>>,
    pub token_fired: bool,
    pub access_token: Option<Seq<char>>,
    pub statuses: Seq<i32>,
}

impl DeepView for AuthReply {
    type V = AuthReplyV;

    open spec fn deep_view(&self) -> AuthReplyV {
        AuthReplyV {
            fired: self.fired,
            code: self.code.deep_view(),
            token_fired: self.token_fired,
            access_token: self.access_token.deep_view(),
            statuses: self.statuses@,
        }
    }
}

/// The payload one service interaction produced.
pub enum ServiceData {
    /// A bare completion signal.
    Ack,
    /// A completion carrying the service's success flag.
    AckFlag(bool),
    /// A completion carrying a message identifier.
    SentId(u64),
    /// The guild list; `None` models the span arriving null.
    Guilds(Option<Vec<GuildEntry>>),
    /// The channel list of one guild.
    Channels(Vec<ChannelEntry>),
    /// A message list.
    Messages(Vec<MessageEntry>),
    /// The lobby a create-or-join call settled on; zero when it failed.
    LobbyId(u64),
    /// The relationship list, read directly.
    Relationships(Vec<RelEntry>),
    /// The lobby identifier span, read directly.
    LobbyIds(DiscordUInt64Span),
    /// One lobby's metadata pairs; `None` models no handle for the lobby.
    LobbyMeta(Option<Vec<(String, String)>>),
    /// One message looked up by identifier; `None` models no handle.
    MessageInfo(Option<MessageEntry>),
    /// A direct boolean read, such as the mute or deafen state.
    Flag(bool),
    /// The connection status values observed at successive polls.
    Statuses(Vec<i32>),
    /// The interactive authorization exchange's outcome.
    Auth(AuthReply),
}

/// The mathematical shape of a `ServiceData`.
pub enum ServiceDataV {
    Ack,
    AckFlag(bool),
    SentId(u64),
    Guilds(Option<Seq<GuildEntryV>>),
    Channels(Seq<ChannelEntryV>),
    Messages(Seq<MessageEntryV>),
    LobbyId(u64),
    Relationships(Seq<RelEntryV>),
    LobbyIds(Seq<u64>),
    LobbyMeta(Option<Seq<(Seq<char>, Seq<char>)>>),
    MessageInfo(Option<MessageEntryV>),
    Flag(bool),
    Statuses(Seq<i32>),
    Auth(AuthReplyV),
}

impl DeepView for ServiceData {
    type V = ServiceDataV;

    open spec fn deep_view(&self) -> ServiceDataV {
        match self {
            ServiceData::Ack => ServiceDataV::Ack,
            ServiceData::AckFlag(b) => ServiceDataV::AckFlag(*b),
            ServiceData::SentId(n) => ServiceDataV::SentId(*n),
            ServiceData::Guilds(g) => ServiceDataV::Guilds(g.deep_view()),
            ServiceData::Channels(c) => ServiceDataV::Channels(c.deep_view()),
            ServiceData::Messages(m) => ServiceDataV::Messages(m.deep_view()),
            ServiceData::LobbyId(n) => ServiceDataV::LobbyId(*n),
            ServiceData::Relationships(r) => ServiceDataV::Relationships(r.deep_view()),
            ServiceData::LobbyIds(s) => ServiceDataV::LobbyIds(s@),
            ServiceData::LobbyMeta(m) => ServiceDataV::LobbyMeta(m.deep_view()),
            ServiceData::MessageInfo(m) => ServiceDataV::MessageInfo(m.deep_view()),
            ServiceData::Flag(b) => ServiceDataV::Flag(*b),
            ServiceData::Statuses(s) => ServiceDataV::Statuses(s@),
            ServiceData::Auth(a) => ServiceDataV::Auth(a.deep_view()),
        }
    }
}

/// What the service did about one interaction: nothing, ever; or an
/// outcome, delivered at a given time. For an asynchronous operation the
/// time is when its callback fired, measured from the operation's start;
/// for a direct call the outcome is what the call returned and the time
/// carries no meaning. `Never` against a direct call models a read that
/// found nothing.
pub enum CallbackReply {
    Never,
    Fired { at_ms: u64, data: ServiceData },
}

/// The mathematical shape of a `CallbackReply`.
pub enum CallbackReplyV {
    Never,
    Fired { at_ms: u64, data: ServiceDataV },
}

impl DeepView for CallbackReply {
    type V = CallbackReplyV;

    open spec fn deep_view(&self) -> CallbackReplyV {
        match self {
            CallbackReply::Never => CallbackReplyV::Never,
            CallbackReply::Fired { at_ms, data } => CallbackReplyV::Fired {
                at_ms: *at_ms,
                data: data.deep_view(),
            },
        }
    }
}

/// When the reply's callback fires, if ever.
pub open spec fn spec_fire_time(r: CallbackReplyV) -> Option<u64> {
    match r {
        CallbackReplyV::Never => None,
        CallbackReplyV::Fired { at_ms, data } => Some(at_ms),
    }
}

} // verus!
