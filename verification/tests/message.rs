use notify_push::connection::ConnectionOptions;
use notify_push::message::{FileIds, MessageType, PushMessage, UpdatedFiles};

fn ids(ids: Vec<u64>) -> UpdatedFiles {
    UpdatedFiles::Known(ids.into())
}

fn opts(listen_file_id: bool) -> ConnectionOptions {
    let mut opts = ConnectionOptions::new(15, 0);
    opts.listen_file_id = listen_file_id;
    opts
}

#[test]
fn extend_unites_in_first_seen_order() {
    let mut files = ids(vec![1, 2, 3]);
    files.extend(&ids(vec![3, 4, 1, 5]));
    assert_eq!(ids(vec![1, 2, 3, 4, 5]), files);
}

#[test]
fn extend_skips_repeats_of_the_second_list() {
    let mut files = ids(vec![]);
    files.extend(&ids(vec![9, 9, 8, 9]));
    assert_eq!(ids(vec![9, 8]), files);
}

#[test]
fn extend_with_nothing_changes_nothing() {
    let mut files = ids(vec![4, 2]);
    files.extend(&ids(vec![]));
    assert_eq!(ids(vec![4, 2]), files);
}

#[test]
fn extend_beyond_inline_capacity() {
    let mut files = ids(vec![1, 2, 3, 4]);
    files.extend(&ids(vec![5, 6, 7, 8, 9]));
    assert_eq!(ids(vec![1, 2, 3, 4, 5, 6, 7, 8, 9]), files);
}

#[test]
fn merge_is_commutative_up_to_order() {
    let mut ab = ids(vec![1, 2]);
    ab.extend(&ids(vec![2, 3]));
    let mut ba = ids(vec![2, 3]);
    ba.extend(&ids(vec![1, 2]));
    assert_eq!(ids(vec![1, 2, 3]), ab);
    assert_eq!(ids(vec![2, 3, 1]), ba);
    let (mut left, mut right) = match (ab, ba) {
        (UpdatedFiles::Known(a), UpdatedFiles::Known(b)) => (a.to_vec(), b.to_vec()),
        _ => panic!("both are known"),
    };
    left.sort();
    right.sort();
    assert_eq!(left, right);
}

#[test]
fn unknown_absorbs() {
    let mut files = ids(vec![1]);
    files.extend(&UpdatedFiles::Unknown);
    assert_eq!(UpdatedFiles::Unknown, files);

    let mut files = UpdatedFiles::Unknown;
    files.extend(&ids(vec![1]));
    assert_eq!(UpdatedFiles::Unknown, files);

    let mut files = UpdatedFiles::Unknown;
    files.extend(&UpdatedFiles::Unknown);
    assert_eq!(UpdatedFiles::Unknown, files);
}

#[test]
fn updated_files_from_one_id() {
    assert_eq!(ids(vec![42]), UpdatedFiles::from(42));
}

#[test]
fn file_ids_read_back() {
    let ids: FileIds = vec![3, 1, 2].into();
    assert_eq!(vec![3, 1, 2], ids.to_vec());
    assert!(ids.contains(1));
    assert!(!ids.contains(4));
    let copy = ids.clone();
    assert_eq!(ids, copy);
}

#[test]
fn merge_of_messages() {
    let mut message = PushMessage::File(ids(vec![1]));
    message.merge(&PushMessage::File(ids(vec![2])));
    assert_eq!(PushMessage::File(ids(vec![1, 2])), message);

    message.merge(&PushMessage::Activity);
    assert_eq!(PushMessage::File(ids(vec![1, 2])), message);

    message.merge(&PushMessage::File(UpdatedFiles::Unknown));
    assert_eq!(PushMessage::File(UpdatedFiles::Unknown), message);

    let mut message = PushMessage::Activity;
    message.merge(&PushMessage::File(ids(vec![2])));
    assert_eq!(PushMessage::Activity, message);

    let mut message = PushMessage::Custom("a".to_string(), "1".to_string());
    message.merge(&PushMessage::Custom("b".to_string(), "2".to_string()));
    assert_eq!(PushMessage::Custom("a".to_string(), "1".to_string()), message);
}

#[test]
fn message_types() {
    assert_eq!(
        MessageType::File,
        PushMessage::File(UpdatedFiles::Unknown).message_type()
    );
    assert_eq!(MessageType::Activity, PushMessage::Activity.message_type());
    assert_eq!(
        MessageType::Notification,
        PushMessage::Notification.message_type()
    );
    assert_eq!(
        MessageType::Custom,
        PushMessage::Custom("a".to_string(), "null".to_string()).message_type()
    );
}

#[test]
fn frames_of_plain_messages() {
    assert_eq!(
        "notify_activity",
        PushMessage::Activity.into_message(&opts(false))
    );
    assert_eq!(
        "notify_notification",
        PushMessage::Notification.into_message(&opts(true))
    );
    assert_eq!(
        "notify_file",
        PushMessage::File(UpdatedFiles::Unknown).into_message(&opts(false))
    );
    assert_eq!(
        "notify_file",
        PushMessage::File(UpdatedFiles::Unknown).into_message(&opts(true))
    );
    assert_eq!(
        "notify_file",
        PushMessage::File(ids(vec![1, 2])).into_message(&opts(false))
    );
}

#[test]
fn frame_with_file_ids() {
    assert_eq!(
        "notify_file_id [1,2,3]",
        PushMessage::File(ids(vec![1, 2, 3])).into_message(&opts(true))
    );
    assert_eq!(
        "notify_file_id [5]",
        PushMessage::File(ids(vec![5])).into_message(&opts(true))
    );
    assert_eq!(
        "notify_file_id []",
        PushMessage::File(ids(vec![])).into_message(&opts(true))
    );
    assert_eq!(
        "notify_file_id [0,18446744073709551615,10]",
        PushMessage::File(ids(vec![0, u64::MAX, 10])).into_message(&opts(true))
    );
}

#[test]
fn frame_of_custom_message_with_body() {
    let body: serde_json::Value = serde_json::from_str("[1, 2, 3]").unwrap();
    let message = PushMessage::Custom("my_custom_message".to_string(), body.to_string());
    assert_eq!(
        "my_custom_message [1,2,3]",
        message.into_message(&opts(false))
    );
}

#[test]
fn frame_of_custom_message_without_body() {
    let body = serde_json::Value::Null;
    let message = PushMessage::Custom("my_custom_message".to_string(), body.to_string());
    assert_eq!("my_custom_message", message.into_message(&opts(false)));

    let body: serde_json::Value = serde_json::from_str("\"null\"").unwrap();
    let message = PushMessage::Custom("kind".to_string(), body.to_string());
    assert_eq!("kind \"null\"", message.into_message(&opts(true)));
}

#[test]
fn frame_by_reference_is_the_same() {
    let message = PushMessage::File(ids(vec![7, 8]));
    assert_eq!("notify_file_id [7,8]", message.frame(true));
    assert_eq!("notify_file", message.frame(false));
}

#[test]
fn connection_options_start_without_file_ids() {
    let opts = ConnectionOptions::new(15, 3600);
    assert!(!opts.listen_file_id);
    assert_eq!(15, opts.max_debounce_time);
    assert_eq!(3600, opts.max_connection_time);
}
