//! The events that the backend publishes, and the channels they come on.

use crate::metrics::{wrapping_next, Counters, Metrics};
use crate::text::same_text;
use crate::user::{user_hash, UserId};
use vstd::prelude::*;
use vstd::string::StringExecFns;

verus! {

/// The server that carries the events is pinged this often, in
/// milliseconds, so that a connection that died is noticed while the
/// channels are silent.
pub const PING_INTERVAL_MILLIS: u64 = 15_000;

/// After the connection to that server was lost, the gateway waits this
/// many milliseconds before it connects again.
pub const RECONNECT_DELAY_MILLIS: u64 = 1_000;

/// A file of a storage changed.
#[derive(Debug, Clone, PartialEq, Eq)]
pub struct StorageUpdate {
    pub storage: u32,
    pub path: String,
    pub file_id: u64,
}

/// A user joined or left a group.
#[derive(Debug, Clone, PartialEq, Eq)]
pub struct GroupUpdate {
    pub user: UserId,
    pub group: String,
}

/// Something was shared with a user.
#[derive(Debug, Clone, PartialEq, Eq)]
pub struct ShareCreate {
    pub user: UserId,
}

#[derive(Debug, Clone, PartialEq, Eq)]
pub struct Activity {
    pub user: UserId,
}

#[derive(Debug, Clone, PartialEq, Eq)]
pub struct Notification {
    pub user: UserId,
}

/// A token was issued that lets `user` connect without credentials.
#[derive(Debug, Clone, PartialEq, Eq)]
pub struct PreAuth {
    pub user: UserId,
    pub token: String,
}

/// A change of the settings of the running gateway.
#[derive(Debug, Clone, PartialEq, Eq)]
pub enum Config {
    /// Log by this specification until told otherwise.
    LogSpec(String),
    /// Log as before the last change.
    LogRestore,
}

#[derive(Debug, Clone, Copy, PartialEq, Eq, Structural)]
pub enum Query {
    Metrics,
}

/// A message of an application for one user.
#[derive(Debug, Clone, PartialEq, Eq)]
pub struct Custom {
    pub user: UserId,
    pub message: String,
    /// The body as compact JSON text; `null` where the event has none.
    pub body: String,
}

#[derive(Debug, Clone, Copy, PartialEq, Eq, Structural)]
pub enum Signal {
    Reset,
}

#[derive(Debug, Clone, PartialEq, Eq)]
pub enum Event {
    StorageUpdate(StorageUpdate),
    GroupUpdate(GroupUpdate),
    ShareCreate(ShareCreate),
    TestCookie(u32),
    Activity(Activity),
    Notification(Notification),
    PreAuth(PreAuth),
    Custom(Custom),
    Config(Config),
    Query(Query),
    Signal(Signal),
}

/// Why what came on a channel is no event.
#[derive(Debug, Clone, PartialEq, Eq)]
pub enum MessageDecodeError {
    /// The channel is none of those the gateway listens on.
    UnsupportedEventType,
    /// The payload is not what the channel carries; the reason as text.
    Json(String),
}

impl MessageDecodeError {
    pub open spec fn text(self) -> Seq<char> {
        match self {
            MessageDecodeError::UnsupportedEventType => "unsupported event type"@,
            MessageDecodeError::Json(reason) => "json deserialization error: "@ + reason@,
        }
    }

    /// The text the error is reported with.
    pub fn message(&self) -> (out: String)
        ensures
            out@ == self.text(),
    {
        match self {
            MessageDecodeError::UnsupportedEventType => String::from_str("unsupported event type"),
            MessageDecodeError::Json(reason) => String::from_str(
                "json deserialization error: ",
            ).concat(reason.as_str()),
        }
    }
}

/// The channels that the gateway listens on. Each carries one kind of event.
#[derive(Debug, Clone, Copy, PartialEq, Eq, Structural)]
pub enum Channel {
    StorageUpdate,
    GroupUpdate,
    ShareCreate,
    TestCookie,
    Activity,
    Notification,
    PreAuth,
    Custom,
    Config,
    Query,
    Signal,
}

impl Channel {
    /// The name of the channel.
    pub open spec fn spec_name(self) -> Seq<char> {
        match self {
            Channel::StorageUpdate => "notify_storage_update"@,
            Channel::GroupUpdate => "notify_group_membership_update"@,
            Channel::ShareCreate => "notify_user_share_created"@,
            Channel::TestCookie => "notify_test_cookie"@,
            Channel::Activity => "notify_activity"@,
            Channel::Notification => "notify_notification"@,
            Channel::PreAuth => "notify_pre_auth"@,
            Channel::Custom => "notify_custom"@,
            Channel::Config => "notify_config"@,
            Channel::Query => "notify_query"@,
            Channel::Signal => "notify_signal"@,
        }
    }

    /// The channel of that name, if it is one of those listened on.
    pub open spec fn named(name: Seq<char>) -> Option<Channel> {
        if name == Channel::StorageUpdate.spec_name() {
            Some(Channel::StorageUpdate)
        } else if name == Channel::GroupUpdate.spec_name() {
            Some(Channel::GroupUpdate)
        } else if name == Channel::ShareCreate.spec_name() {
            Some(Channel::ShareCreate)
        } else if name == Channel::TestCookie.spec_name() {
            Some(Channel::TestCookie)
        } else if name == Channel::Activity.spec_name() {
            Some(Channel::Activity)
        } else if name == Channel::Notification.spec_name() {
            Some(Channel::Notification)
        } else if name == Channel::PreAuth.spec_name() {
            Some(Channel::PreAuth)
        } else if name == Channel::Custom.spec_name() {
            Some(Channel::Custom)
        } else if name == Channel::Config.spec_name() {
            Some(Channel::Config)
        } else if name == Channel::Query.spec_name() {
            Some(Channel::Query)
        } else if name == Channel::Signal.spec_name() {
            Some(Channel::Signal)
        } else {
            None
        }
    }

    /// The name of the channel.
    pub fn name(self) -> (name: &'static str)
        ensures
            name@ == self.spec_name(),
    {
        match self {
            Channel::StorageUpdate => "notify_storage_update",
            Channel::GroupUpdate => "notify_group_membership_update",
            Channel::ShareCreate => "notify_user_share_created",
            Channel::TestCookie => "notify_test_cookie",
            Channel::Activity => "notify_activity",
            Channel::Notification => "notify_notification",
            Channel::PreAuth => "notify_pre_auth",
            Channel::Custom => "notify_custom",
            Channel::Config => "notify_config",
            Channel::Query => "notify_query",
            Channel::Signal => "notify_signal",
        }
    }

    /// The channel that a message came on, by its name.
    pub fn from_name(name: &str) -> (channel: Result<Channel, MessageDecodeError>)
        ensures
            channel == match Channel::named(name@) {
                Some(c) => Ok::<Channel, MessageDecodeError>(c),
                None => Err(MessageDecodeError::UnsupportedEventType),
            },
    {
        if same_text(name, Channel::StorageUpdate.name()) {
            Ok(Channel::StorageUpdate)
        } else if same_text(name, Channel::GroupUpdate.name()) {
            Ok(Channel::GroupUpdate)
        } else if same_text(name, Channel::ShareCreate.name()) {
            Ok(Channel::ShareCreate)
        } else if same_text(name, Channel::TestCookie.name()) {
            Ok(Channel::TestCookie)
        } else if same_text(name, Channel::Activity.name()) {
            Ok(Channel::Activity)
        } else if same_text(name, Channel::Notification.name()) {
            Ok(Channel::Notification)
        } else if same_text(name, Channel::PreAuth.name()) {
            Ok(Channel::PreAuth)
        } else if same_text(name, Channel::Custom.name()) {
            Ok(Channel::Custom)
        } else if same_text(name, Channel::Config.name()) {
            Ok(Channel::Config)
        } else if same_text(name, Channel::Query.name()) {
            Ok(Channel::Query)
        } else if same_text(name, Channel::Signal.name()) {
            Ok(Channel::Signal)
        } else {
            Err(MessageDecodeError::UnsupportedEventType)
        }
    }
}

/// The channels to subscribe to, in the order of subscription.
pub open spec fn all_channels() -> Seq<Channel> {
    seq![
        Channel::StorageUpdate,
        Channel::GroupUpdate,
        Channel::ShareCreate,
        Channel::TestCookie,
        Channel::Activity,
        Channel::Notification,
        Channel::PreAuth,
        Channel::Custom,
        Channel::Config,
        Channel::Query,
        Channel::Signal,
    ]
}

/// The channels to subscribe to, in the order of subscription.
pub fn channels() -> (all: Vec<Channel>)
    ensures
        all@ == all_channels(),
{
    let mut all: Vec<Channel> = Vec::new();
    all.push(Channel::StorageUpdate);
    all.push(Channel::GroupUpdate);
    all.push(Channel::ShareCreate);
    all.push(Channel::TestCookie);
    all.push(Channel::Activity);
    all.push(Channel::Notification);
    all.push(Channel::PreAuth);
    all.push(Channel::Custom);
    all.push(Channel::Config);
    all.push(Channel::Query);
    all.push(Channel::Signal);
    assert(all@ =~= all_channels());
    all
}

impl Event {
    /// The channel that carries the event.
    pub open spec fn spec_channel(self) -> Channel {
        match self {
            Event::StorageUpdate(_) => Channel::StorageUpdate,
            Event::GroupUpdate(_) => Channel::GroupUpdate,
            Event::ShareCreate(_) => Channel::ShareCreate,
            Event::TestCookie(_) => Channel::TestCookie,
            Event::Activity(_) => Channel::Activity,
            Event::Notification(_) => Channel::Notification,
            Event::PreAuth(_) => Channel::PreAuth,
            Event::Custom(_) => Channel::Custom,
            Event::Config(_) => Channel::Config,
            Event::Query(_) => Channel::Query,
            Event::Signal(_) => Channel::Signal,
        }
    }

    /// The channel that carries the event.
    pub fn channel(&self) -> (channel: Channel)
        ensures
            channel == self.spec_channel(),
    {
        match self {
            Event::StorageUpdate(_) => Channel::StorageUpdate,
            Event::GroupUpdate(_) => Channel::GroupUpdate,
            Event::ShareCreate(_) => Channel::ShareCreate,
            Event::TestCookie(_) => Channel::TestCookie,
            Event::Activity(_) => Channel::Activity,
            Event::Notification(_) => Channel::Notification,
            Event::PreAuth(_) => Channel::PreAuth,
            Event::Custom(_) => Channel::Custom,
            Event::Config(_) => Channel::Config,
            Event::Query(_) => Channel::Query,
            Event::Signal(_) => Channel::Signal,
        }
    }
}

/// What a payload holds, read as JSON: the text or the number that it is,
/// or the fields of the object that it is.
#[derive(Debug, Clone, PartialEq, Eq)]
pub struct Payload {
    /// The payload itself, where it is a string.
    pub text: Option<String>,
    /// The payload itself, where it is an unsigned integer.
    pub number: Option<u64>,
    pub user: Option<String>,
    pub group: Option<String>,
    pub storage: Option<u64>,
    pub path: Option<String>,
    pub file_id: Option<u64>,
    pub token: Option<String>,
    pub message: Option<String>,
    pub log_spec: Option<String>,
    /// The field `body` as compact JSON text; `null` where there is none.
    pub body: String,
}

impl Payload {
    /// What is wrong with the payload for an event of `channel`: the first
    /// field that the event needs and the payload lacks.
    pub open spec fn flaw(self, channel: Channel) -> Option<Seq<char>> {
        match channel {
            Channel::StorageUpdate => if !(self.storage matches Some(id) && id <= u32::MAX) {
                Some("missing field `storage`"@)
            } else if self.path is None {
                Some("missing field `path`"@)
            } else if self.file_id is None {
                Some("missing field `file_id`"@)
            } else {
                None
            },
            Channel::GroupUpdate => if self.user is None {
                Some("missing field `user`"@)
            } else if self.group is None {
                Some("missing field `group`"@)
            } else {
                None
            },
            Channel::ShareCreate | Channel::Activity | Channel::Notification => if self.user
                is None {
                Some("missing field `user`"@)
            } else {
                None
            },
            Channel::TestCookie => if !(self.number matches Some(cookie) && cookie <= u32::MAX) {
                Some("expected a 32-bit number"@)
            } else {
                None
            },
            Channel::PreAuth => if self.user is None {
                Some("missing field `user`"@)
            } else if self.token is None {
                Some("missing field `token`"@)
            } else {
                None
            },
            Channel::Custom => if self.user is None {
                Some("missing field `user`"@)
            } else if self.message is None {
                Some("missing field `message`"@)
            } else {
                None
            },
            Channel::Config => if !(self.text matches Some(t) && t@ == "log_restore"@)
                && self.log_spec is None {
                Some("expected `log_restore` or field `log_spec`"@)
            } else {
                None
            },
            Channel::Query => if !(self.text matches Some(t) && t@ == "metrics"@) {
                Some("expected `metrics`"@)
            } else {
                None
            },
            Channel::Signal => if !(self.text matches Some(t) && t@ == "reset"@) {
                Some("expected `reset`"@)
            } else {
                None
            },
        }
    }

    /// Whether `event` is the event of `channel` that the payload, which
    /// has no flaw, stands for.
    pub open spec fn stands_for(self, channel: Channel, event: Event) -> bool {
        match channel {
            Channel::StorageUpdate => event matches Event::StorageUpdate(update)
                && update.storage == self.storage->Some_0 && update.path == self.path->Some_0
                && update.file_id == self.file_id->Some_0,
            Channel::GroupUpdate => event matches Event::GroupUpdate(update)
                && update.user.token() == user_hash(self.user->Some_0@) && update.group
                == self.group->Some_0,
            Channel::ShareCreate => event matches Event::ShareCreate(share) && share.user.token()
                == user_hash(self.user->Some_0@),
            Channel::TestCookie => event == Event::TestCookie(self.number->Some_0 as u32),
            Channel::Activity => event matches Event::Activity(activity)
                && activity.user.token() == user_hash(self.user->Some_0@),
            Channel::Notification => event matches Event::Notification(notification)
                && notification.user.token() == user_hash(self.user->Some_0@),
            Channel::PreAuth => event matches Event::PreAuth(pre) && pre.user.token() == user_hash(
                self.user->Some_0@,
            ) && pre.token == self.token->Some_0,
            Channel::Custom => event matches Event::Custom(custom) && custom.user.token()
                == user_hash(self.user->Some_0@) && custom.message == self.message->Some_0
                && custom.body == self.body,
            Channel::Config => if self.text matches Some(t) && t@ == "log_restore"@ {
                event == Event::Config(Config::LogRestore)
            } else {
                event == Event::Config(Config::LogSpec(self.log_spec->Some_0))
            },
            Channel::Query => event == Event::Query(Query::Metrics),
            Channel::Signal => event == Event::Signal(Signal::Reset),
        }
    }
}

/// Whether `event` is what came on `channel` with `payload`: no event
/// where the channel is none of those listened on, whatever the payload
/// is; else the reason why the payload is no JSON, or the first thing that
/// the event of the channel needs and the payload lacks; else that event.
pub open spec fn decodes(
    channel: Seq<char>,
    payload: Result<Payload, String>,
    event: Result<Event, MessageDecodeError>,
) -> bool {
    match Channel::named(channel) {
        None => event == Err::<Event, MessageDecodeError>(MessageDecodeError::UnsupportedEventType),
        Some(c) => match payload {
            Err(reason) => event == Err::<Event, MessageDecodeError>(
                MessageDecodeError::Json(reason),
            ),
            Ok(p) => match p.flaw(c) {
                Some(what) => event matches Err(MessageDecodeError::Json(reason)) && reason@
                    == what,
                None => event matches Ok(e) && p.stands_for(c, e),
            },
        },
    }
}

fn missing(what: &str) -> (error: MessageDecodeError)
    ensures
        error matches MessageDecodeError::Json(reason) && reason@ == what@,
{
    MessageDecodeError::Json(String::from_str(what))
}

fn is_text(text: &Option<String>, expected: &str) -> (yes: bool)
    ensures
        yes == (*text matches Some(t) && t@ == expected@),
{
    match text {
        Some(t) => *t == String::from_str(expected),
        None => false,
    }
}

impl Event {
    /// The event that came on `channel` with `payload`. A channel that the
    /// gateway does not listen on carries no event, whatever came on it;
    /// on the others, the payload has to be JSON and to hold what the
    /// event of the channel needs.
    pub fn try_from(channel: &str, payload: Result<Payload, String>) -> (event: Result<
        Event,
        MessageDecodeError,
    >)
        ensures
            decodes(channel@, payload, event),
    {
        let channel = match Channel::from_name(channel) {
            Ok(channel) => channel,
            Err(e) => {
                return Err(e);
            },
        };
        let payload = match payload {
            Ok(payload) => payload,
            Err(reason) => {
                return Err(MessageDecodeError::Json(reason));
            },
        };
        match channel {
            Channel::StorageUpdate => {
                let storage = match payload.storage {
                    Some(id) => {
                        if id > 0xffff_ffff {
                            return Err(missing("missing field `storage`"));
                        }
                        id as u32
                    },
                    None => {
                        return Err(missing("missing field `storage`"));
                    },
                };
                match (payload.path, payload.file_id) {
                    (Some(path), Some(file_id)) => Ok(
                        Event::StorageUpdate(StorageUpdate { storage, path, file_id }),
                    ),
                    (None, _) => Err(missing("missing field `path`")),
                    (Some(_), None) => Err(missing("missing field `file_id`")),
                }
            },
            Channel::GroupUpdate => match (payload.user, payload.group) {
                (Some(user), Some(group)) => Ok(
                    Event::GroupUpdate(GroupUpdate { user: UserId::new(user.as_str()), group }),
                ),
                (None, _) => Err(missing("missing field `user`")),
                (Some(_), None) => Err(missing("missing field `group`")),
            },
            Channel::ShareCreate => match payload.user {
                Some(user) => Ok(Event::ShareCreate(ShareCreate { user: UserId::new(user.as_str()) })),
                None => Err(missing("missing field `user`")),
            },
            Channel::TestCookie => match payload.number {
                Some(cookie) => {
                    if cookie > 0xffff_ffff {
                        Err(missing("expected a 32-bit number"))
                    } else {
                        Ok(Event::TestCookie(cookie as u32))
                    }
                },
                None => Err(missing("expected a 32-bit number")),
            },
            Channel::Activity => match payload.user {
                Some(user) => Ok(Event::Activity(Activity { user: UserId::new(user.as_str()) })),
                None => Err(missing("missing field `user`")),
            },
            Channel::Notification => match payload.user {
                Some(user) => Ok(
                    Event::Notification(Notification { user: UserId::new(user.as_str()) }),
                ),
                None => Err(missing("missing field `user`")),
            },
            Channel::PreAuth => match (payload.user, payload.token) {
                (Some(user), Some(token)) => Ok(
                    Event::PreAuth(PreAuth { user: UserId::new(user.as_str()), token }),
                ),
                (None, _) => Err(missing("missing field `user`")),
                (Some(_), None) => Err(missing("missing field `token`")),
            },
            Channel::Custom => match (payload.user, payload.message) {
                (Some(user), Some(message)) => Ok(
                    Event::Custom(
                        Custom { user: UserId::new(user.as_str()), message, body: payload.body },
                    ),
                ),
                (None, _) => Err(missing("missing field `user`")),
                (Some(_), None) => Err(missing("missing field `message`")),
            },
            Channel::Config => {
                if is_text(&payload.text, "log_restore") {
                    Ok(Event::Config(Config::LogRestore))
                } else {
                    match payload.log_spec {
                        Some(spec) => Ok(Event::Config(Config::LogSpec(spec))),
                        None => Err(missing("expected `log_restore` or field `log_spec`")),
                    }
                }
            },
            Channel::Query => {
                if is_text(&payload.text, "metrics") {
                    Ok(Event::Query(Query::Metrics))
                } else {
                    Err(missing("expected `metrics`"))
                }
            },
            Channel::Signal => {
                if is_text(&payload.text, "reset") {
                    Ok(Event::Signal(Signal::Reset))
                } else {
                    Err(missing("expected `reset`"))
                }
            },
        }
    }
}

/// Counts what came on a channel if it is an event, and hands it on as it
/// is. What is no event leaves the counters alone.
pub fn received(decoded: Result<Event, MessageDecodeError>, metrics: &mut Metrics) -> (event:
    Result<Event, MessageDecodeError>)
    ensures
        event == decoded,
        decoded is Ok ==> final(metrics)@ == (Counters {
            events_received: wrapping_next(old(metrics)@.events_received),
            ..old(metrics)@
        }),
        decoded is Err ==> final(metrics)@ == old(metrics)@,
{
    if decoded.is_ok() {
        metrics.add_event();
    }
    decoded
}

/// Takes in what came on `channel`: reads the event, and counts it if it
/// is one. What came on a channel that is not listened on, or does not
/// hold what the event of its channel needs, is told as the error it is,
/// and leaves every counter as it was.
pub fn ingest(channel: &str, payload: Result<Payload, String>, metrics: &mut Metrics) -> (event:
    Result<Event, MessageDecodeError>)
    ensures
        decodes(channel@, payload, event),
        event is Ok ==> final(metrics)@ == (Counters {
            events_received: wrapping_next(old(metrics)@.events_received),
            ..old(metrics)@
        }),
        event is Err ==> final(metrics)@ == old(metrics)@,
{
    received(Event::try_from(channel, payload), metrics)
}

/// Every channel is found again by its name, and a name that is found is
/// the name of its channel.
pub proof fn law_channel_names(channel: Channel, name: Seq<char>)
    ensures
        Channel::named(channel.spec_name()) == Some(channel),
        Channel::named(name) matches Some(c) ==> c.spec_name() == name,
{
    lemma_names_differ();
}

/// No two channels share a name.
pub proof fn lemma_names_differ()
    ensures
        forall|a: Channel, b: Channel| a != b ==> #[trigger] a.spec_name() != #[trigger] b.spec_name(),
{
    reveal_strlit("notify_storage_update");
    reveal_strlit("notify_group_membership_update");
    reveal_strlit("notify_user_share_created");
    reveal_strlit("notify_test_cookie");
    reveal_strlit("notify_activity");
    reveal_strlit("notify_notification");
    reveal_strlit("notify_pre_auth");
    reveal_strlit("notify_custom");
    reveal_strlit("notify_config");
    reveal_strlit("notify_query");
    reveal_strlit("notify_signal");
    assert forall|a: Channel, b: Channel| a != b implies #[trigger] a.spec_name()
        != #[trigger] b.spec_name() by {
        let x = a.spec_name();
        let y = b.spec_name();
        if x.len() == y.len() {
            assert(x[7] != y[7] || x[8] != y[8]);
        }
    }
}

} // verus!
