//! Realtime engine of a push-notification gateway for a file-sync service.
//!
//! The gateway listens to the events that the backend publishes, works out
//! which users an event concerns, and hands each of their connections a
//! message, holding back bursts. This crate is the engine without its
//! sockets: what it is told is an event or a frame with the time it came
//! at, and what it answers is what to send and to whom.
//!
//! Times are milliseconds on a clock that never goes back. The clock may
//! start wherever the caller likes, as long as it reads at least
//! [`message::INITIAL_AGE_MILLIS`] (two minutes) when the first connection
//! or send queue is made: each of them looks back that far from the
//! moment it is made at. Factors are thousandths. The shared tables are
//! changed through `&mut`, so whoever shares the engine between tasks puts
//! it behind a lock.

use vstd::prelude::*;

pub mod collections;
pub mod config;
pub mod connection;
pub mod error;
pub mod event;
pub mod listener;
pub mod message;
pub mod metrics;
pub mod nc;
pub mod passthru_hasher;
pub mod pre_auth;
pub mod random;
pub mod redis;
pub mod storage_mapping;
pub mod text;
pub mod user;

pub use crate::user::UserId;

use crate::connection::ActiveConnections;
use crate::event::{Config, Event, Query, Signal, StorageUpdate};
use crate::message::{Files, Message, PushMessage, UpdatedFiles};
use crate::error::{AuthenticationError, Error};
use crate::metrics::{wrapping_next, wrapping_prev, Counters, Metrics};
use crate::pre_auth::PreAuthStore;
use crate::storage_mapping::{
    cached_recipients, grants, recipients, StorageMapping, UserStorageAccess,
};

verus! {

/// The key under which the backend publishes its version when asked.
pub const APP_VERSION_KEY: &'static str = "notify_push_app_version";

/// The key under which the gateway publishes its version.
pub const VERSION_KEY: &'static str = "notify_push_version";

/// The key under which the gateway publishes a snapshot of its counters.
pub const METRICS_KEY: &'static str = "notify_push_metrics";

/// A message on its way to the connections of one user.
#[derive(Debug, Clone, PartialEq)]
pub struct Delivery {
    pub user: UserId,
    pub message: PushMessage,
}

/// The addressees and messages of a run of deliveries.
pub open spec fn addressed(deliveries: Seq<Delivery>) -> Seq<(UserId, Message)> {
    deliveries.map_values(|delivery: Delivery| (delivery.user, delivery.message@))
}

/// One delivery of `message` to each of `users`, in their order.
pub open spec fn to_each(users: Seq<UserId>, message: Message) -> Seq<(UserId, Message)> {
    users.map_values(|user: UserId| (user, message))
}

/// The message that tells of a change of the file `file_id`.
pub open spec fn file_changed(file_id: u64) -> Message {
    Message::File(Files::Known(seq![file_id]))
}

/// What is left to do for an event once [`App::handle_event`] is through
/// with it.
#[derive(Debug, Clone, PartialEq, Eq)]
pub enum Pending {
    Nothing,
    /// The grants of the storage have to be read from the database and
    /// handed to [`App::complete_storage_update`].
    LoadMapping(StorageUpdate),
    /// Log by this specification until told otherwise.
    PushLogSpec(String),
    /// Log as before the last change.
    PopLogSpec,
    /// Publish a snapshot of the counters.
    PublishMetrics,
    /// Tell every connection to close.
    Reset,
}

/// What an event leads to.
#[derive(Debug)]
pub struct Handled {
    /// The messages to hand to the connections of their users, in order.
    pub deliveries: Vec<Delivery>,
    pub pending: Pending,
}

/// The deliveries that an event leads to at once, given the mappings that
/// are cached at `now`.
pub open spec fn planned(
    event: Event,
    mappings: Map<u32, storage_mapping::Cached>,
    now: u64,
) -> Seq<(UserId, Message)> {
    match event {
        Event::StorageUpdate(update) => match cached_recipients(
            mappings,
            update.storage,
            update.path@,
            now,
        ) {
            Some(users) => to_each(users, file_changed(update.file_id)),
            None => Seq::empty(),
        },
        Event::GroupUpdate(update) => seq![(update.user, Message::File(Files::Unknown))],
        Event::ShareCreate(share) => seq![(share.user, Message::File(Files::Unknown))],
        Event::Activity(activity) => seq![(activity.user, Message::Activity)],
        Event::Notification(notification) => seq![(notification.user, Message::Notification)],
        Event::Custom(custom) => seq![
            (custom.user, Message::Custom(custom.message@, custom.body@)),
        ],
        _ => Seq::empty(),
    }
}

/// What an event leaves to do, given the mappings that are cached at `now`.
pub open spec fn left_over(
    event: Event,
    mappings: Map<u32, storage_mapping::Cached>,
    now: u64,
) -> Pending {
    match event {
        Event::StorageUpdate(update) => if cached_recipients(
            mappings,
            update.storage,
            update.path@,
            now,
        ) is Some {
            Pending::Nothing
        } else {
            Pending::LoadMapping(update)
        },
        Event::Config(Config::LogSpec(spec)) => Pending::PushLogSpec(spec),
        Event::Config(Config::LogRestore) => Pending::PopLogSpec,
        Event::Query(Query::Metrics) => Pending::PublishMetrics,
        Event::Signal(Signal::Reset) => Pending::Reset,
        _ => Pending::Nothing,
    }
}

/// One delivery to each of `users` that tells of a change of `file_id`.
pub fn fan_out(users: &Vec<UserId>, file_id: u64) -> (deliveries: Vec<Delivery>)
    ensures
        addressed(deliveries@) == to_each(users@, file_changed(file_id)),
{
    let mut deliveries: Vec<Delivery> = Vec::new();
    let mut i: usize = 0;
    while i < users.len()
        invariant
            i <= users.len(),
            deliveries@.len() == i,
            forall|k: int|
                0 <= k < i ==> (#[trigger] deliveries@[k]).user == users@[k] && deliveries@[k].message@
                    == file_changed(file_id),
        decreases users.len() - i,
    {
        deliveries.push(
            Delivery { user: users[i], message: PushMessage::File(UpdatedFiles::from(file_id)) },
        );
        i += 1;
    }
    assert(addressed(deliveries@) =~= to_each(users@, file_changed(file_id)));
    deliveries
}

fn one(user: UserId, message: PushMessage) -> (deliveries: Vec<Delivery>)
    ensures
        addressed(deliveries@) == seq![(user, message@)],
{
    let mut deliveries: Vec<Delivery> = Vec::new();
    deliveries.push(Delivery { user, message });
    assert(addressed(deliveries@) =~= seq![(user, message@)]);
    deliveries
}

fn none() -> (deliveries: Vec<Delivery>)
    ensures
        addressed(deliveries@) == Seq::<(UserId, Message)>::empty(),
{
    let deliveries: Vec<Delivery> = Vec::new();
    assert(addressed(deliveries@) =~= Seq::<(UserId, Message)>::empty());
    deliveries
}

/// The shared state of the gateway.
pub struct App {
    /// The users that are connected.
    pub connections: ActiveConnections,
    pub storage_mapping: StorageMapping,
    pub pre_auth: PreAuthStore,
    pub metrics: Metrics,
    /// The number that the backend published last to test the way to the
    /// gateway.
    pub test_cookie: u32,
}

impl App {
    /// The state of a gateway that has seen nothing yet. `database_prefix`
    /// is the prefix of the names of the tables of the backend.
    pub fn new(database_prefix: String) -> (app: App)
        ensures
            app.connections@ == connection::no_users(),
            app.connections@.finite(),
            app.storage_mapping.mappings() == storage_mapping::no_mappings(),
            app.storage_mapping.prefix() == database_prefix@,
            app.pre_auth@ == pre_auth::no_entries(),
            app.metrics@ == Counters::zero(),
            app.test_cookie == 0,
    {
        App {
            connections: ActiveConnections::default(),
            storage_mapping: StorageMapping::new(database_prefix),
            pre_auth: PreAuthStore::new(),
            metrics: Metrics::new(),
            test_cookie: 0,
        }
    }

    /// Takes in an event at `now`: says which messages go to which users,
    /// keeps what the event asks to keep, and says what is left to do.
    pub fn handle_event(&mut self, event: Event, now: u64) -> (handled: Handled)
        ensures
            addressed(handled.deliveries@) == planned(
                event,
                old(self).storage_mapping.mappings(),
                now,
            ),
            handled.pending == left_over(event, old(self).storage_mapping.mappings(), now),
            final(self).pre_auth@ == match event {
                Event::PreAuth(pre) => old(self).pre_auth@.insert(pre.token@, (now, pre.user)),
                _ => old(self).pre_auth@,
            },
            final(self).test_cookie == match event {
                Event::TestCookie(cookie) => cookie,
                _ => old(self).test_cookie,
            },
            final(self).connections == old(self).connections,
            final(self).storage_mapping == old(self).storage_mapping,
            final(self).metrics == old(self).metrics,
    {
        match event {
            Event::StorageUpdate(update) => {
                match self.storage_mapping.get_users_for_storage_path(
                    update.storage,
                    update.path.as_str(),
                    now,
                ) {
                    Some(users) => Handled {
                        deliveries: fan_out(&users, update.file_id),
                        pending: Pending::Nothing,
                    },
                    None => Handled { deliveries: none(), pending: Pending::LoadMapping(update) },
                }
            },
            Event::GroupUpdate(update) => Handled {
                deliveries: one(update.user, PushMessage::File(UpdatedFiles::Unknown)),
                pending: Pending::Nothing,
            },
            Event::ShareCreate(share) => Handled {
                deliveries: one(share.user, PushMessage::File(UpdatedFiles::Unknown)),
                pending: Pending::Nothing,
            },
            Event::TestCookie(cookie) => {
                self.test_cookie = cookie;
                Handled { deliveries: none(), pending: Pending::Nothing }
            },
            Event::Activity(activity) => Handled {
                deliveries: one(activity.user, PushMessage::Activity),
                pending: Pending::Nothing,
            },
            Event::Notification(notification) => Handled {
                deliveries: one(notification.user, PushMessage::Notification),
                pending: Pending::Nothing,
            },
            Event::PreAuth(pre) => {
                self.pre_auth.insert(pre.token, pre.user, now);
                Handled { deliveries: none(), pending: Pending::Nothing }
            },
            Event::Custom(custom) => Handled {
                deliveries: one(custom.user, PushMessage::Custom(custom.message, custom.body)),
                pending: Pending::Nothing,
            },
            Event::Config(Config::LogSpec(spec)) => Handled {
                deliveries: none(),
                pending: Pending::PushLogSpec(spec),
            },
            Event::Config(Config::LogRestore) => Handled {
                deliveries: none(),
                pending: Pending::PopLogSpec,
            },
            Event::Query(Query::Metrics) => Handled {
                deliveries: none(),
                pending: Pending::PublishMetrics,
            },
            Event::Signal(Signal::Reset) => Handled { deliveries: none(), pending: Pending::Reset },
        }
    }

    /// Opens a session for `user` after the handshake: registers the
    /// connection, and counts it if it is let in.
    pub fn open_session(&mut self, user: UserId) -> (rx: Result<
        tokio::sync::broadcast::Receiver<PushMessage>,
        Error,
    >)
        ensures
            !old(self).connections@.contains(user) ==> rx is Ok && final(self).connections@ == old(self).connections@
                .insert(user),
            old(self).connections@.contains(user) ==> final(self).connections@ == old(self)
                .connections@,
            old(self).connections@.finite() ==> final(self).connections@.finite(),
            rx matches Err(e) ==> e == Error::Authentication(AuthenticationError::LimitExceeded),
            rx is Ok ==> final(self).metrics@ == (Counters {
                total_connection_count: wrapping_next(old(self).metrics@.total_connection_count),
                active_connection_count: wrapping_next(old(self).metrics@.active_connection_count),
                ..old(self).metrics@
            }),
            rx is Err ==> final(self).metrics@ == old(self).metrics@,
            final(self).storage_mapping == old(self).storage_mapping,
            final(self).pre_auth == old(self).pre_auth,
            final(self).test_cookie == old(self).test_cookie,
    {
        let rx = self.connections.add(user);
        if rx.is_ok() {
            self.metrics.add_connection();
        }
        rx
    }

    /// Closes a session of `user`: the connection is no longer counted as
    /// open, and leaves the registry. Says how many connections the user
    /// was found to have.
    pub fn close_session(&mut self, user: &UserId) -> (receivers: Option<usize>)
        ensures
            receivers is Some <==> old(self).connections@.contains(*user),
            final(self).connections@ == connection::after_remove(
                old(self).connections@,
                *user,
                receivers,
            ),
            old(self).connections@.finite() ==> final(self).connections@.finite(),
            final(self).metrics@ == (Counters {
                active_connection_count: wrapping_prev(old(self).metrics@.active_connection_count),
                ..old(self).metrics@
            }),
            final(self).storage_mapping == old(self).storage_mapping,
            final(self).pre_auth == old(self).pre_auth,
            final(self).test_cookie == old(self).test_cookie,
    {
        self.metrics.remove_connection();
        self.connections.remove(user)
    }

    /// Takes in the grants that the database gave at `now` for the storage
    /// of `update`, and says which users are told of the change. The
    /// grants are cached for the updates to come.
    pub fn complete_storage_update(
        &mut self,
        update: &StorageUpdate,
        access: Vec<UserStorageAccess>,
        now: u64,
    ) -> (deliveries: Vec<Delivery>)
        ensures
            addressed(deliveries@) == to_each(
                recipients(grants(access@), update.path@),
                file_changed(update.file_id),
            ),
            final(self).storage_mapping.prefix() == old(self).storage_mapping.prefix(),
            final(self).storage_mapping.mappings().dom() == old(self).storage_mapping.mappings().dom()
                .insert(update.storage),
            forall|other: u32|
                other != update.storage && old(self).storage_mapping.mappings().contains_key(other)
                    ==> #[trigger] final(self).storage_mapping.mappings()[other] == old(self).storage_mapping
                    .mappings()[other],
            final(self).storage_mapping.mappings()[update.storage].access == grants(access@),
            exists|ttl: u64|
                storage_mapping::MAPPING_TTL_LOW <= ttl < storage_mapping::MAPPING_TTL_HIGH && final(self)
                    .storage_mapping.mappings()[update.storage].valid_till
                    == storage_mapping::valid_until(now, ttl),
            final(self).metrics@ == (Counters {
                mapping_query_count: wrapping_next(old(self).metrics@.mapping_query_count),
                ..old(self).metrics@
            }),
            final(self).pre_auth == old(self).pre_auth,
            final(self).test_cookie == old(self).test_cookie,
            final(self).connections == old(self).connections,
    {
        let users = self.storage_mapping.load_storage_mapping(
            update.storage,
            update.path.as_str(),
            access,
            now,
            &mut self.metrics,
        );
        fan_out(&users, update.file_id)
    }
}

/// An event that names a user leads to one message, for that user and for
/// no one else.
pub proof fn law_only_the_named_user_is_told(
    event: Event,
    mappings: Map<u32, storage_mapping::Cached>,
    now: u64,
)
    requires
        !(event is StorageUpdate),
    ensures
        planned(event, mappings, now).len() <= 1,
        event matches Event::Activity(activity) ==> planned(event, mappings, now) == seq![
            (activity.user, Message::Activity),
        ],
        event matches Event::Notification(notification) ==> planned(event, mappings, now) == seq![
            (notification.user, Message::Notification),
        ],
{
}

/// A change of a file is told to a user if and only if the grants of the
/// storage hold one of that user that lets the path be seen; and it is told
/// as a change of that file.
pub proof fn law_file_change_reaches_who_sees_it(
    access: Seq<storage_mapping::Access>,
    path: Seq<char>,
    file_id: u64,
    user: UserId,
)
    ensures
        (exists|i: int|
            0 <= i < to_each(recipients(access, path), file_changed(file_id)).len() && to_each(
                recipients(access, path),
                file_changed(file_id),
            )[i].0 == user) <==> (exists|i: int|
            0 <= i < access.len() && access[i].0 == user && storage_mapping::sees(access[i].1, path)),
        forall|i: int|
            0 <= i < to_each(recipients(access, path), file_changed(file_id)).len() ==> to_each(
                recipients(access, path),
                file_changed(file_id),
            )[i].1 == file_changed(file_id),
{
    let users = recipients(access, path);
    let told = to_each(users, file_changed(file_id));
    storage_mapping::law_recipients_are_covered(access, path, user);
    if exists|i: int| 0 <= i < told.len() && told[i].0 == user {
        let i = choose|i: int| 0 <= i < told.len() && told[i].0 == user;
        assert(users[i] == user);
        assert(users.contains(user));
    }
    if users.contains(user) {
        let i = choose|i: int| 0 <= i < users.len() && users[i] == user;
        assert(told[i].0 == user);
    }
}

} // verus!
