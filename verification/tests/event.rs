use notify_push::event::{
    channels, ingest, received, Activity, Channel, Config, Custom, Event, GroupUpdate,
    MessageDecodeError, Notification, Payload, PreAuth, Query, ShareCreate, Signal,
    StorageUpdate, PING_INTERVAL_MILLIS, RECONNECT_DELAY_MILLIS,
};
use notify_push::message::{PushMessage, UpdatedFiles};
use notify_push::metrics::Metrics;
use notify_push::storage_mapping::UserStorageAccess;
use notify_push::error::{AuthenticationError, Error};
use notify_push::{fan_out, App, Delivery, Pending};
use notify_push::UserId;

const NAMES: [&str; 11] = [
    "notify_storage_update",
    "notify_group_membership_update",
    "notify_user_share_created",
    "notify_test_cookie",
    "notify_activity",
    "notify_notification",
    "notify_pre_auth",
    "notify_custom",
    "notify_config",
    "notify_query",
    "notify_signal",
];

fn storage_update(storage: u32, path: &str, file_id: u64) -> StorageUpdate {
    StorageUpdate {
        storage,
        path: path.to_string(),
        file_id,
    }
}

fn access(user: &str, root: &str) -> UserStorageAccess {
    UserStorageAccess::new(UserId::new(user), root.to_string())
}

fn file(user: &str, file_id: u64) -> Delivery {
    Delivery {
        user: UserId::new(user),
        message: PushMessage::File(UpdatedFiles::from(file_id)),
    }
}

#[test]
fn channels_in_the_order_of_subscription() {
    let all = channels();
    assert_eq!(11, all.len());
    let names: Vec<&str> = all.iter().map(|channel| channel.name()).collect();
    assert_eq!(NAMES.to_vec(), names);
}

#[test]
fn channel_is_found_by_its_name() {
    for channel in channels() {
        assert_eq!(Ok(channel), Channel::from_name(channel.name()));
    }
    assert_eq!(Ok(Channel::Activity), Channel::from_name("notify_activity"));
    assert_eq!(Ok(Channel::Signal), Channel::from_name("notify_signal"));
}

#[test]
fn unknown_channel_is_unsupported() {
    for name in [
        "",
        "notify",
        "notify_",
        "notify_activity ",
        "Notify_activity",
        "notify_activity_other",
        "something",
    ] {
        assert_eq!(
            Err(MessageDecodeError::UnsupportedEventType),
            Channel::from_name(name)
        );
    }
}

#[test]
fn event_knows_its_channel() {
    let user = UserId::new("foo");
    assert_eq!(
        Channel::StorageUpdate,
        Event::StorageUpdate(storage_update(1, "a", 2)).channel()
    );
    assert_eq!(
        Channel::GroupUpdate,
        Event::GroupUpdate(GroupUpdate {
            user,
            group: "g".to_string()
        })
        .channel()
    );
    assert_eq!(
        Channel::ShareCreate,
        Event::ShareCreate(ShareCreate { user }).channel()
    );
    assert_eq!(Channel::TestCookie, Event::TestCookie(1).channel());
    assert_eq!(Channel::Activity, Event::Activity(Activity { user }).channel());
    assert_eq!(
        Channel::Notification,
        Event::Notification(Notification { user }).channel()
    );
    assert_eq!(
        Channel::PreAuth,
        Event::PreAuth(PreAuth {
            user,
            token: "t".to_string()
        })
        .channel()
    );
    assert_eq!(
        Channel::Custom,
        Event::Custom(Custom {
            user,
            message: "m".to_string(),
            body: "null".to_string()
        })
        .channel()
    );
    assert_eq!(Channel::Config, Event::Config(Config::LogRestore).channel());
    assert_eq!(Channel::Query, Event::Query(Query::Metrics).channel());
    assert_eq!(Channel::Signal, Event::Signal(Signal::Reset).channel());
}

#[test]
fn only_events_are_counted() {
    let mut metrics = Metrics::new();
    let event = Event::TestCookie(5);
    assert_eq!(Ok(event.clone()), received(Ok(event), &mut metrics));
    assert_eq!(1, metrics.events_received());

    assert_eq!(
        Err(MessageDecodeError::UnsupportedEventType),
        received(Err(MessageDecodeError::UnsupportedEventType), &mut metrics)
    );
    let broken = MessageDecodeError::Json("expected value".to_string());
    assert_eq!(
        Err(broken.clone()),
        received(Err(broken), &mut metrics)
    );
    assert_eq!(1, metrics.events_received());
    assert_eq!(0, metrics.messages_sent());
    assert_eq!(0, metrics.mapping_query_count());
    assert_eq!(0, metrics.total_connection_count());
}

#[test]
fn decode_errors_say_why() {
    assert_eq!(
        "unsupported event type",
        MessageDecodeError::UnsupportedEventType.message()
    );
    assert_eq!(
        "json deserialization error: expected value at line 1 column 1",
        MessageDecodeError::Json("expected value at line 1 column 1".to_string()).message()
    );
}

#[test]
fn activity_is_told_to_its_user_only() {
    let mut app = App::new("oc_".to_string());
    let handled = app.handle_event(
        Event::Activity(Activity {
            user: UserId::new("foo"),
        }),
        1_000_000,
    );
    assert_eq!(
        vec![Delivery {
            user: UserId::new("foo"),
            message: PushMessage::Activity
        }],
        handled.deliveries
    );
    assert_eq!(Pending::Nothing, handled.pending);
}

#[test]
fn notification_is_told_to_its_user_only() {
    let mut app = App::new("oc_".to_string());
    let handled = app.handle_event(
        Event::Notification(Notification {
            user: UserId::new("foo"),
        }),
        1_000_000,
    );
    assert_eq!(
        vec![Delivery {
            user: UserId::new("foo"),
            message: PushMessage::Notification
        }],
        handled.deliveries
    );
    assert_eq!(Pending::Nothing, handled.pending);
}

#[test]
fn group_and_share_changes_tell_of_unknown_files() {
    let mut app = App::new("oc_".to_string());
    let expected = vec![Delivery {
        user: UserId::new("foo"),
        message: PushMessage::File(UpdatedFiles::Unknown),
    }];
    let handled = app.handle_event(
        Event::GroupUpdate(GroupUpdate {
            user: UserId::new("foo"),
            group: "admin".to_string(),
        }),
        1_000_000,
    );
    assert_eq!(expected, handled.deliveries);
    assert_eq!(Pending::Nothing, handled.pending);
    let handled = app.handle_event(
        Event::ShareCreate(ShareCreate {
            user: UserId::new("foo"),
        }),
        1_000_000,
    );
    assert_eq!(expected, handled.deliveries);
    assert_eq!(Pending::Nothing, handled.pending);
}

#[test]
fn custom_event_keeps_message_and_body() {
    let mut app = App::new("oc_".to_string());
    let handled = app.handle_event(
        Event::Custom(Custom {
            user: UserId::new("foo"),
            message: "my_custom_message".to_string(),
            body: "[1,2,3]".to_string(),
        }),
        1_000_000,
    );
    assert_eq!(
        vec![Delivery {
            user: UserId::new("foo"),
            message: PushMessage::Custom(
                "my_custom_message".to_string(),
                "[1,2,3]".to_string()
            )
        }],
        handled.deliveries
    );
    assert_eq!(Pending::Nothing, handled.pending);
}

#[test]
fn test_cookie_is_kept() {
    let mut app = App::new("oc_".to_string());
    assert_eq!(0, app.test_cookie);
    let handled = app.handle_event(Event::TestCookie(1234), 1_000_000);
    assert_eq!(Vec::<Delivery>::new(), handled.deliveries);
    assert_eq!(Pending::Nothing, handled.pending);
    assert_eq!(1234, app.test_cookie);
    app.handle_event(Event::TestCookie(5), 1_000_000);
    assert_eq!(5, app.test_cookie);
}

#[test]
fn pre_auth_event_registers_the_token() {
    let mut app = App::new("oc_".to_string());
    let handled = app.handle_event(
        Event::PreAuth(PreAuth {
            user: UserId::new("foo"),
            token: "token".to_string(),
        }),
        1_000_000,
    );
    assert_eq!(Vec::<Delivery>::new(), handled.deliveries);
    assert_eq!(Pending::Nothing, handled.pending);
    assert_eq!(
        Some(UserId::new("foo")),
        app.pre_auth.redeem("token", 1_010_000)
    );
    assert_eq!(None, app.pre_auth.redeem("token", 1_010_000));
}

#[test]
fn control_events_are_left_to_the_shell() {
    let mut app = App::new("oc_".to_string());
    let handled = app.handle_event(
        Event::Config(Config::LogSpec("debug".to_string())),
        1_000_000,
    );
    assert_eq!(Pending::PushLogSpec("debug".to_string()), handled.pending);
    assert_eq!(Vec::<Delivery>::new(), handled.deliveries);

    let handled = app.handle_event(Event::Config(Config::LogRestore), 1_000_000);
    assert_eq!(Pending::PopLogSpec, handled.pending);

    let handled = app.handle_event(Event::Query(Query::Metrics), 1_000_000);
    assert_eq!(Pending::PublishMetrics, handled.pending);

    let handled = app.handle_event(Event::Signal(Signal::Reset), 1_000_000);
    assert_eq!(Pending::Reset, handled.pending);
    assert_eq!(Vec::<Delivery>::new(), handled.deliveries);
}

#[test]
fn storage_update_asks_for_the_mapping_first() {
    let mut app = App::new("oc_".to_string());
    let update = storage_update(10, "foo/bar", 5);
    let handled = app.handle_event(Event::StorageUpdate(update.clone()), 1_000_000);
    assert_eq!(Vec::<Delivery>::new(), handled.deliveries);
    assert_eq!(Pending::LoadMapping(update.clone()), handled.pending);

    let deliveries = app.complete_storage_update(
        &update,
        vec![access("foo", "foo"), access("foo2", "foo/bar")],
        1_000_000,
    );
    assert_eq!(vec![file("foo", 5), file("foo2", 5)], deliveries);
    assert_eq!(1, app.metrics.mapping_query_count());

    // the next update of the storage is answered from the cache
    let handled = app.handle_event(
        Event::StorageUpdate(storage_update(10, "foo/else", 6)),
        1_000_500,
    );
    assert_eq!(vec![file("foo", 6)], handled.deliveries);
    assert_eq!(Pending::Nothing, handled.pending);
    assert_eq!(1, app.metrics.mapping_query_count());
}

#[test]
fn storage_update_of_another_storage_reaches_no_one() {
    let mut app = App::new("oc_".to_string());
    app.complete_storage_update(
        &storage_update(10, "foo/bar", 5),
        vec![access("foo", "foo")],
        1_000_000,
    );
    let update = storage_update(11, "foo/bar", 5);
    let handled = app.handle_event(Event::StorageUpdate(update.clone()), 1_000_001);
    assert_eq!(Vec::<Delivery>::new(), handled.deliveries);
    assert_eq!(Pending::LoadMapping(update.clone()), handled.pending);
    assert_eq!(
        Vec::<Delivery>::new(),
        app.complete_storage_update(&update, vec![], 1_000_001)
    );
    let handled = app.handle_event(Event::StorageUpdate(update), 1_000_002);
    assert_eq!(Vec::<Delivery>::new(), handled.deliveries);
    assert_eq!(Pending::Nothing, handled.pending);
}

#[test]
fn file_change_reaches_who_sees_the_path() {
    // mounts of foo at `foo`, of foo2 at `foo/bar` and `foo/outside`;
    // foo3 has no mount on the storage
    let mut app = App::new("oc_".to_string());
    let foo = UserId::new("foo");
    let foo2 = UserId::new("foo2");
    let foo3 = UserId::new("foo3");
    let mut rx1 = app.connections.add(foo).unwrap();
    let mut rx2 = app.connections.add(foo2).unwrap();
    let mut rx3 = app.connections.add(foo3).unwrap();

    let update = storage_update(10, "foo/bar", 5);
    let handled = app.handle_event(Event::StorageUpdate(update.clone()), 1_000_000);
    assert_eq!(Pending::LoadMapping(update.clone()), handled.pending);
    let deliveries = app.complete_storage_update(
        &update,
        vec![
            access("foo", "foo"),
            access("foo2", "foo/bar"),
            access("foo2", "foo/outside"),
        ],
        1_000_000,
    );
    for delivery in deliveries {
        app.connections
            .send_to_user(&delivery.user, delivery.message);
    }
    assert_eq!(
        PushMessage::File(UpdatedFiles::from(5)),
        rx1.try_recv().unwrap()
    );
    assert_eq!(
        PushMessage::File(UpdatedFiles::from(5)),
        rx2.try_recv().unwrap()
    );
    assert!(rx1.try_recv().is_err());
    assert!(rx2.try_recv().is_err());
    assert!(rx3.try_recv().is_err());
}

#[test]
fn fan_out_tells_each_user_of_the_file() {
    assert_eq!(Vec::<Delivery>::new(), fan_out(&vec![], 5));
    assert_eq!(
        vec![file("a", 5), file("b", 5), file("a", 5)],
        fan_out(
            &vec![UserId::new("a"), UserId::new("b"), UserId::new("a")],
            5
        )
    );
}

#[test]
fn new_app_is_empty() {
    let mut app = App::new("oc_".to_string());
    assert_eq!(0, app.connections.active_user_count());
    assert_eq!(0, app.test_cookie);
    assert_eq!(0, app.metrics.events_received());
    assert_eq!(None, app.pre_auth.redeem("token", 0));
    assert_eq!(
        None,
        app.storage_mapping.get_users_for_storage_path(1, "", 0)
    );
}

fn empty() -> Payload {
    Payload {
        text: None,
        number: None,
        user: None,
        group: None,
        storage: None,
        path: None,
        file_id: None,
        token: None,
        message: None,
        log_spec: None,
        body: "null".to_string(),
    }
}

fn of_user(user: &str) -> Payload {
    let mut payload = empty();
    payload.user = Some(user.to_string());
    payload
}

fn bare(text: &str) -> Payload {
    let mut payload = empty();
    payload.text = Some(text.to_string());
    payload
}

fn json_error(what: &str) -> Result<Event, MessageDecodeError> {
    Err(MessageDecodeError::Json(what.to_string()))
}

#[test]
fn timings_of_the_subscription() {
    assert_eq!(15_000, PING_INTERVAL_MILLIS);
    assert_eq!(1_000, RECONNECT_DELAY_MILLIS);
}

#[test]
fn events_of_one_user() {
    let user = UserId::new("foo");
    assert_eq!(
        Ok(Event::Activity(Activity { user })),
        Event::try_from("notify_activity", Ok(of_user("foo")))
    );
    assert_eq!(
        Ok(Event::Notification(Notification { user })),
        Event::try_from("notify_notification", Ok(of_user("foo")))
    );
    assert_eq!(
        Ok(Event::ShareCreate(ShareCreate { user })),
        Event::try_from("notify_user_share_created", Ok(of_user("foo")))
    );
    for channel in [
        "notify_activity",
        "notify_notification",
        "notify_user_share_created",
        "notify_group_membership_update",
        "notify_pre_auth",
        "notify_custom",
    ] {
        assert_eq!(
            json_error("missing field `user`"),
            Event::try_from(channel, Ok(empty()))
        );
    }
}

#[test]
fn storage_update_needs_its_three_fields() {
    let mut payload = empty();
    payload.storage = Some(10);
    payload.path = Some("foo/bar".to_string());
    payload.file_id = Some(5);
    assert_eq!(
        Ok(Event::StorageUpdate(storage_update(10, "foo/bar", 5))),
        Event::try_from("notify_storage_update", Ok(payload.clone()))
    );
    let mut lacking = payload.clone();
    lacking.file_id = None;
    assert_eq!(
        json_error("missing field `file_id`"),
        Event::try_from("notify_storage_update", Ok(lacking))
    );
    let mut lacking = payload.clone();
    lacking.path = None;
    assert_eq!(
        json_error("missing field `path`"),
        Event::try_from("notify_storage_update", Ok(lacking))
    );
    let mut lacking = payload.clone();
    lacking.storage = None;
    assert_eq!(
        json_error("missing field `storage`"),
        Event::try_from("notify_storage_update", Ok(lacking))
    );
    let mut large = payload.clone();
    large.storage = Some(u32::MAX as u64 + 1);
    assert_eq!(
        json_error("missing field `storage`"),
        Event::try_from("notify_storage_update", Ok(large))
    );
    let mut largest = payload;
    largest.storage = Some(u32::MAX as u64);
    largest.file_id = Some(u64::MAX);
    assert_eq!(
        Ok(Event::StorageUpdate(storage_update(
            u32::MAX,
            "foo/bar",
            u64::MAX
        ))),
        Event::try_from("notify_storage_update", Ok(largest))
    );
}

#[test]
fn events_with_more_than_a_user() {
    let user = UserId::new("foo");
    let mut payload = of_user("foo");
    payload.group = Some("admin".to_string());
    assert_eq!(
        Ok(Event::GroupUpdate(GroupUpdate {
            user,
            group: "admin".to_string()
        })),
        Event::try_from("notify_group_membership_update", Ok(payload))
    );
    assert_eq!(
        json_error("missing field `group`"),
        Event::try_from("notify_group_membership_update", Ok(of_user("foo")))
    );

    let mut payload = of_user("foo");
    payload.token = Some("token".to_string());
    assert_eq!(
        Ok(Event::PreAuth(PreAuth {
            user,
            token: "token".to_string()
        })),
        Event::try_from("notify_pre_auth", Ok(payload))
    );
    assert_eq!(
        json_error("missing field `token`"),
        Event::try_from("notify_pre_auth", Ok(of_user("foo")))
    );

    let mut payload = of_user("foo");
    payload.message = Some("my_custom_message".to_string());
    assert_eq!(
        Ok(Event::Custom(Custom {
            user,
            message: "my_custom_message".to_string(),
            body: "null".to_string()
        })),
        Event::try_from("notify_custom", Ok(payload.clone()))
    );
    payload.body = "[1,2,3]".to_string();
    assert_eq!(
        Ok(Event::Custom(Custom {
            user,
            message: "my_custom_message".to_string(),
            body: "[1,2,3]".to_string()
        })),
        Event::try_from("notify_custom", Ok(payload))
    );
    assert_eq!(
        json_error("missing field `message`"),
        Event::try_from("notify_custom", Ok(of_user("foo")))
    );
}

#[test]
fn events_without_fields() {
    let mut cookie = empty();
    cookie.number = Some(42);
    assert_eq!(
        Ok(Event::TestCookie(42)),
        Event::try_from("notify_test_cookie", Ok(cookie.clone()))
    );
    cookie.number = Some(u32::MAX as u64 + 1);
    assert_eq!(
        json_error("expected a 32-bit number"),
        Event::try_from("notify_test_cookie", Ok(cookie))
    );
    assert_eq!(
        json_error("expected a 32-bit number"),
        Event::try_from("notify_test_cookie", Ok(bare("42")))
    );

    assert_eq!(
        Ok(Event::Config(Config::LogRestore)),
        Event::try_from("notify_config", Ok(bare("log_restore")))
    );
    let mut spec = empty();
    spec.log_spec = Some("debug".to_string());
    assert_eq!(
        Ok(Event::Config(Config::LogSpec("debug".to_string()))),
        Event::try_from("notify_config", Ok(spec))
    );
    assert_eq!(
        json_error("expected `log_restore` or field `log_spec`"),
        Event::try_from("notify_config", Ok(bare("log_spec")))
    );

    assert_eq!(
        Ok(Event::Query(Query::Metrics)),
        Event::try_from("notify_query", Ok(bare("metrics")))
    );
    assert_eq!(
        json_error("expected `metrics`"),
        Event::try_from("notify_query", Ok(bare("reset")))
    );
    assert_eq!(
        Ok(Event::Signal(Signal::Reset)),
        Event::try_from("notify_signal", Ok(bare("reset")))
    );
    assert_eq!(
        json_error("expected `reset`"),
        Event::try_from("notify_signal", Ok(empty()))
    );
}

#[test]
fn channel_is_looked_at_before_the_payload() {
    assert_eq!(
        Err(MessageDecodeError::UnsupportedEventType),
        Event::try_from("notify_unknown", Ok(of_user("foo")))
    );
    assert_eq!(
        Err(MessageDecodeError::UnsupportedEventType),
        Event::try_from("notify_unknown", Err("expected value".to_string()))
    );
    assert_eq!(
        json_error("expected value"),
        Event::try_from("notify_activity", Err("expected value".to_string()))
    );
}

#[test]
fn frames_are_counted_if_they_are_events() {
    let mut metrics = Metrics::new();
    assert_eq!(
        Ok(Event::Activity(Activity {
            user: UserId::new("foo")
        })),
        ingest("notify_activity", Ok(of_user("foo")), &mut metrics)
    );
    assert_eq!(1, metrics.events_received());
    // a frame that is no event does not stop the next from being one
    assert_eq!(
        Err(MessageDecodeError::UnsupportedEventType),
        ingest("notify_unknown", Ok(of_user("foo")), &mut metrics)
    );
    assert_eq!(
        json_error("missing field `user`"),
        ingest("notify_activity", Ok(empty()), &mut metrics)
    );
    assert_eq!(
        json_error("EOF while parsing"),
        ingest(
            "notify_activity",
            Err("EOF while parsing".to_string()),
            &mut metrics
        )
    );
    assert_eq!(1, metrics.events_received());
    assert_eq!(
        Ok(Event::Signal(Signal::Reset)),
        ingest("notify_signal", Ok(bare("reset")), &mut metrics)
    );
    assert_eq!(2, metrics.events_received());
    assert_eq!(0, metrics.messages_sent());
    assert_eq!(0, metrics.mapping_query_count());
    assert_eq!(0, metrics.active_connection_count());
    assert_eq!(0, metrics.total_connection_count());
}

#[test]
fn sessions_are_counted_while_they_are_open() {
    let mut app = App::new("oc_".to_string());
    let foo = UserId::new("foo");
    let first = app.open_session(foo).unwrap();
    let second = app.open_session(foo).unwrap();
    assert_eq!(2, app.metrics.active_connection_count());
    assert_eq!(2, app.metrics.total_connection_count());
    assert_eq!(1, app.connections.active_user_count());

    assert_eq!(Some(2), app.close_session(&foo));
    drop(first);
    assert_eq!(1, app.metrics.active_connection_count());
    assert_eq!(2, app.metrics.total_connection_count());
    assert_eq!(1, app.connections.active_user_count());

    assert_eq!(Some(1), app.close_session(&foo));
    drop(second);
    assert_eq!(0, app.metrics.active_connection_count());
    assert_eq!(2, app.metrics.total_connection_count());
    assert_eq!(0, app.connections.active_user_count());
}

#[test]
fn refused_session_is_not_counted() {
    let mut app = App::new("oc_".to_string());
    let foo = UserId::new("foo");
    let mut open = Vec::new();
    for _ in 0..65 {
        open.push(app.open_session(foo).unwrap());
    }
    assert_eq!(65, app.metrics.active_connection_count());
    assert_eq!(
        Err(Error::Authentication(AuthenticationError::LimitExceeded)),
        app.open_session(foo).map(|_| ())
    );
    assert_eq!(65, app.metrics.active_connection_count());
    assert_eq!(65, app.metrics.total_connection_count());
}
