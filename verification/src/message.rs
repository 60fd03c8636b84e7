//! Push messages, their wire encoding, and the per-connection send queue
//! that coalesces bursts of notifications.

use crate::connection::ConnectionOptions;
use crate::text::decimal;
use smallvec::SmallVec;
use vstd::prelude::*;
use vstd::string::StringExecFns;

verus! {

/// A message may leave the queue only once nothing new arrived for its slot
/// for longer than this many milliseconds.
pub const QUIET_MILLIS: u64 = 100;

/// The time stamps of a fresh slot lie this many milliseconds before the
/// creation of the queue.
pub const INITIAL_AGE_MILLIS: u64 = 120_000;

/// The ids a small vector holds, in order.
pub uninterp spec fn file_ids(ids: FileIds) -> Seq<u64>;

/// File ids in first-seen order, kept inline while there are few of them.
#[verifier::external_body]
#[derive(Debug, PartialEq)]
pub struct FileIds {
    inner: SmallVec<[u64; 4]>,
}

impl View for FileIds {
    type V = Seq<u64>;

    open spec fn view(&self) -> Seq<u64> {
        file_ids(*self)
    }
}

impl Clone for FileIds {
    /// `SmallVec::clone`: the copy holds the same ids in the same order.
    #[verifier::external_body]
    fn clone(&self) -> (copy: Self)
        ensures
            file_ids(copy) == file_ids(*self),
    {
        FileIds { inner: self.inner.clone() }
    }
}

impl FileIds {
    /// `SmallVec::from_vec`: the small vector holds the items of the vector,
    /// in the same order.
    #[verifier::external_body]
    fn from_vec(ids: Vec<u64>) -> (out: FileIds)
        ensures
            file_ids(out) == ids@,
    {
        FileIds { inner: SmallVec::from_vec(ids) }
    }

    /// `SmallVec::as_slice`: the items as a slice.
    #[verifier::external_body]
    fn as_slice(&self) -> (items: &[u64])
        ensures
            items@ == file_ids(*self),
    {
        self.inner.as_slice()
    }

    /// `SmallVec::push`: appends one item at the end.
    #[verifier::external_body]
    fn push_id(&mut self, id: u64)
        ensures
            file_ids(*final(self)) == file_ids(*old(self)).push(id),
    {
        self.inner.push(id)
    }

    /// `serde_json::to_string` on the small vector: the compact JSON array
    /// of the ids. Writing unsigned integers into memory has no error path,
    /// so the text is always there.
    #[verifier::external_body]
    fn to_json(&self) -> (json: Option<String>)
        ensures
            json is Some,
            json->Some_0@ == json_array(file_ids(*self)),
    {
        serde_json::to_string(&self.inner).ok()
    }

    /// The ids as an ordinary vector.
    pub fn to_vec(&self) -> (ids: Vec<u64>)
        ensures
            ids@ == self@,
    {
        let items = self.as_slice();
        let mut ids: Vec<u64> = Vec::new();
        let mut i: usize = 0;
        while i < items.len()
            invariant
                i <= items.len(),
                ids@ == items@.subrange(0, i as int),
            decreases items.len() - i,
        {
            ids.push(items[i]);
            i += 1;
            assert(ids@ =~= items@.subrange(0, i as int));
        }
        assert(ids@ =~= self@);
        ids
    }

    /// Whether `id` is among the ids.
    pub fn contains(&self, id: u64) -> (found: bool)
        ensures
            found == self@.contains(id),
    {
        let items = self.as_slice();
        let mut i: usize = 0;
        while i < items.len()
            invariant
                i <= items.len(),
                items@ == self@,
                forall|k: int| 0 <= k < i ==> items@[k] != id,
            decreases items.len() - i,
        {
            if items[i] == id {
                return true;
            }
            i += 1;
        }
        false
    }

    /// Appends every id of `more` that is not yet present, in the order of
    /// `more`.
    pub fn extend(&mut self, more: &FileIds)
        ensures
            final(self)@ == union_in_order(old(self)@, more@),
    {
        let items = more.as_slice();
        let mut i: usize = 0;
        assert(items@.subrange(0, items@.len() as int) =~= more@);
        while i < items.len()
            invariant
                i <= items.len(),
                items@ == more@,
                union_in_order(self@, items@.subrange(i as int, items@.len() as int))
                    == union_in_order(old(self)@, more@),
            decreases items.len() - i,
        {
            let id = items[i];
            proof {
                let rest = items@.subrange(i as int, items@.len() as int);
                assert(rest[0] == id);
                assert(rest.drop_first() =~= items@.subrange(i + 1, items@.len() as int));
            }
            if !self.contains(id) {
                self.push_id(id);
            }
            i += 1;
        }
        assert(items@.subrange(i as int, items@.len() as int).len() == 0);
    }
}

impl vstd::std_specs::convert::FromSpecImpl<Vec<u64>> for FileIds {
    open spec fn obeys_from_spec() -> bool {
        false
    }

    open spec fn from_spec(ids: Vec<u64>) -> Self {
        arbitrary()
    }
}

impl From<Vec<u64>> for FileIds {
    fn from(ids: Vec<u64>) -> (out: FileIds)
        ensures
            out@ == ids@,
    {
        FileIds::from_vec(ids)
    }
}

/// `a`, followed by the items of `b` that occur neither in `a` nor earlier
/// in `b`, in the order of `b`.
pub open spec fn union_in_order(a: Seq<u64>, b: Seq<u64>) -> Seq<u64>
    decreases b.len(),
{
    if b.len() == 0 {
        a
    } else if a.contains(b[0]) {
        union_in_order(a, b.drop_first())
    } else {
        union_in_order(a.push(b[0]), b.drop_first())
    }
}

/// The decimal numerals of `ids`, separated by commas.
pub open spec fn joined_decimals(ids: Seq<u64>) -> Seq<char>
    decreases ids.len(),
{
    if ids.len() == 0 {
        Seq::empty()
    } else if ids.len() == 1 {
        decimal(ids[0] as nat)
    } else {
        joined_decimals(ids.drop_last()) + seq![','] + decimal(ids.last() as nat)
    }
}

/// The compact JSON array of `ids`.
pub open spec fn json_array(ids: Seq<u64>) -> Seq<char> {
    seq!['['] + joined_decimals(ids) + seq![']']
}

/// What is known about the files an update touched, as a mathematical value.
pub enum Files {
    /// Any file may have changed.
    Unknown,
    /// Exactly these files changed, in first-seen order.
    Known(Seq<u64>),
}

impl Files {
    /// The merge rule: two known lists are united in first-seen order, and
    /// anything merged with `Unknown` is `Unknown`.
    pub open spec fn extend(self, more: Files) -> Files {
        match (self, more) {
            (Files::Known(a), Files::Known(b)) => Files::Known(union_in_order(a, b)),
            _ => Files::Unknown,
        }
    }
}

/// The files that a file notification reports.
#[derive(Debug, Clone, PartialEq)]
pub enum UpdatedFiles {
    Unknown,
    Known(FileIds),
}

impl View for UpdatedFiles {
    type V = Files;

    open spec fn view(&self) -> Files {
        match self {
            UpdatedFiles::Unknown => Files::Unknown,
            UpdatedFiles::Known(ids) => Files::Known(ids@),
        }
    }
}

impl UpdatedFiles {
    /// Merges `more` into this value.
    pub fn extend(&mut self, more: &UpdatedFiles)
        ensures
            final(self)@ == old(self)@.extend(more@),
    {
        match more {
            UpdatedFiles::Known(added) => {
                match self {
                    UpdatedFiles::Known(items) => {
                        items.extend(added);
                    },
                    UpdatedFiles::Unknown => {},
                }
            },
            UpdatedFiles::Unknown => {
                *self = UpdatedFiles::Unknown;
            },
        }
    }
}

impl vstd::std_specs::convert::FromSpecImpl<u64> for UpdatedFiles {
    open spec fn obeys_from_spec() -> bool {
        false
    }

    open spec fn from_spec(id: u64) -> Self {
        arbitrary()
    }
}

impl From<u64> for UpdatedFiles {
    fn from(id: u64) -> (files: UpdatedFiles)
        ensures
            files@ == Files::Known(seq![id]),
    {
        let mut ids: Vec<u64> = Vec::new();
        ids.push(id);
        assert(ids@ =~= seq![id]);
        UpdatedFiles::Known(FileIds::from_vec(ids))
    }
}

/// The kinds of push message.
#[derive(Debug, Clone, Copy, PartialEq, Eq, Structural)]
pub enum MessageType {
    File,
    Activity,
    Notification,
    Custom,
}

/// A push message as a mathematical value.
pub enum Message {
    File(Files),
    Activity,
    Notification,
    /// The frame text of the message, and the compact JSON text of its body.
    Custom(Seq<char>, Seq<char>),
}

impl Message {
    pub open spec fn kind(self) -> MessageType {
        match self {
            Message::File(_) => MessageType::File,
            Message::Activity => MessageType::Activity,
            Message::Notification => MessageType::Notification,
            Message::Custom(_, _) => MessageType::Custom,
        }
    }

    /// Two file messages merge their files; every other pair leaves the
    /// first message as it is.
    pub open spec fn merge(self, other: Message) -> Message {
        match (self, other) {
            (Message::File(a), Message::File(b)) => Message::File(a.extend(b)),
            _ => self,
        }
    }

    /// The text frame that carries the message to a client.
    pub open spec fn frame(self, listen_file_id: bool) -> Seq<char> {
        match self {
            Message::File(Files::Known(ids)) => if listen_file_id {
                "notify_file_id "@ + json_array(ids)
            } else {
                "notify_file"@
            },
            Message::File(Files::Unknown) => "notify_file"@,
            Message::Activity => "notify_activity"@,
            Message::Notification => "notify_notification"@,
            Message::Custom(kind, body) => if body == "null"@ {
                kind
            } else {
                kind + " "@ + body
            },
        }
    }
}

/// The seconds that file and activity messages are held back when
/// `connection_count` connections are open: a tenth of the count, at most
/// `max_debounce_time` and at least one.
pub open spec fn debounce_seconds(connection_count: nat, max_debounce_time: nat) -> nat {
    let tenth = connection_count / 10;
    let capped = if tenth < max_debounce_time {
        tenth
    } else {
        max_debounce_time
    };
    if capped < 1 {
        1
    } else {
        capped
    }
}

/// The debounce time of a message kind in milliseconds. `debounce_factor`
/// is in thousandths.
pub open spec fn debounce_millis(
    kind: MessageType,
    connection_count: nat,
    max_debounce_time: nat,
    debounce_factor: nat,
) -> nat {
    match kind {
        MessageType::File | MessageType::Activity => debounce_seconds(
            connection_count,
            max_debounce_time,
        ) * debounce_factor,
        MessageType::Notification => 1000,
        MessageType::Custom => 1,
    }
}

/// A message that is about to be delivered to one user.
#[derive(Debug, Clone, PartialEq)]
pub enum PushMessage {
    File(UpdatedFiles),
    Activity,
    Notification,
    /// A custom message: the text of its frame, and the compact JSON text of
    /// its body (`null` where it has none).
    Custom(String, String),
}

impl View for PushMessage {
    type V = Message;

    open spec fn view(&self) -> Message {
        match self {
            PushMessage::File(files) => Message::File(files@),
            PushMessage::Activity => Message::Activity,
            PushMessage::Notification => Message::Notification,
            PushMessage::Custom(kind, body) => Message::Custom(kind@, body@),
        }
    }
}

impl PushMessage {
    pub fn merge(&mut self, other: &PushMessage)
        ensures
            final(self)@ == old(self)@.merge(other@),
    {
        match self {
            PushMessage::File(files) => {
                match other {
                    PushMessage::File(more) => {
                        files.extend(more);
                    },
                    _ => {},
                }
            },
            _ => {},
        }
    }

    /// How long the message is held back, in milliseconds; `u64::MAX` where
    /// the time does not fit.
    pub fn debounce_time(
        &self,
        connection_count: usize,
        max_debounce_time: usize,
        debounce_factor: u32,
    ) -> (millis: u64)
        ensures
            millis as nat == if debounce_millis(
                self@.kind(),
                connection_count as nat,
                max_debounce_time as nat,
                debounce_factor as nat,
            ) > u64::MAX {
                u64::MAX as nat
            } else {
                debounce_millis(
                    self@.kind(),
                    connection_count as nat,
                    max_debounce_time as nat,
                    debounce_factor as nat,
                )
            },
    {
        let tenth = connection_count / 10;
        let capped = if tenth < max_debounce_time {
            tenth
        } else {
            max_debounce_time
        };
        let seconds = if capped < 1 {
            1
        } else {
            capped
        };
        match self {
            PushMessage::File(_) | PushMessage::Activity => {
                match (seconds as u64).checked_mul(debounce_factor as u64) {
                    Some(millis) => millis,
                    None => u64::MAX,
                }
            },
            PushMessage::Notification => 1000,
            PushMessage::Custom(_, _) => 1,
        }
    }

    /// The text frame that carries the message to a client.
    pub fn into_message(self, opts: &ConnectionOptions) -> (frame: String)
        ensures
            frame@ == self@.frame(opts.listen_file_id),
    {
        self.frame(opts.listen_file_id)
    }

    /// The text frame of the message, for a client that did or did not ask
    /// for file ids.
    pub fn frame(&self, listen_file_id: bool) -> (frame: String)
        ensures
            frame@ == self@.frame(listen_file_id),
    {
        match self {
            PushMessage::File(UpdatedFiles::Known(ids)) => {
                if listen_file_id {
                    match ids.to_json() {
                        Some(json) => String::from_str("notify_file_id ").concat(json.as_str()),
                        None => String::from_str("notify_file"),
                    }
                } else {
                    String::from_str("notify_file")
                }
            },
            PushMessage::File(UpdatedFiles::Unknown) => String::from_str("notify_file"),
            PushMessage::Activity => String::from_str("notify_activity"),
            PushMessage::Notification => String::from_str("notify_notification"),
            PushMessage::Custom(kind, body) => {
                if *body == String::from_str("null") {
                    kind.clone()
                } else {
                    kind.clone().concat(" ").concat(body.as_str())
                }
            },
        }
    }

    pub fn message_type(&self) -> (kind: MessageType)
        ensures
            kind == self@.kind(),
    {
        match self {
            PushMessage::File(_) => MessageType::File,
            PushMessage::Activity => MessageType::Activity,
            PushMessage::Notification => MessageType::Notification,
            PushMessage::Custom(_, _) => MessageType::Custom,
        }
    }
}

/// The milliseconds from `since` to `now`; zero where `since` is the later
/// of the two.
pub open spec fn elapsed(now: u64, since: u64) -> nat {
    if now >= since {
        (now - since) as nat
    } else {
        0
    }
}

/// The mathematical value of an optional message.
pub open spec fn pending(message: Option<PushMessage>) -> Option<Message> {
    match message {
        Some(m) => Some(m@),
        None => None,
    }
}

/// The mathematical values of a run of messages.
pub open spec fn messages(run: Seq<PushMessage>) -> Seq<Message> {
    run.map_values(|m: PushMessage| m@)
}

/// One slot of the send queue, as a mathematical value.
pub struct SlotState {
    /// When a message for the slot was last queued.
    pub received: u64,
    /// When the slot last released a message.
    pub sent: u64,
    /// The queued message, if there is one.
    pub message: Option<Message>,
}

impl SlotState {
    /// The slot of a queue made at `now`.
    pub open spec fn fresh(now: u64) -> SlotState {
        SlotState {
            received: (now - INITIAL_AGE_MILLIS) as u64,
            sent: (now - INITIAL_AGE_MILLIS) as u64,
            message: None,
        }
    }

    /// The slot after `message` was queued at `time`.
    pub open spec fn store(self, message: Message, time: u64) -> SlotState {
        SlotState {
            received: time,
            sent: self.sent,
            message: Some(
                match self.message {
                    Some(queued) => queued.merge(message),
                    None => message,
                },
            ),
        }
    }

    /// Whether the slot releases its message at `now`: the debounce time
    /// of the message has passed since the last release, and the slot has
    /// been quiet for more than [`QUIET_MILLIS`].
    pub open spec fn due(
        self,
        now: u64,
        connection_count: nat,
        max_debounce_time: nat,
        debounce_factor: nat,
    ) -> bool {
        match self.message {
            Some(m) => elapsed(now, self.sent) > debounce_millis(
                m.kind(),
                connection_count,
                max_debounce_time,
                debounce_factor,
            ) && elapsed(now, self.received) > QUIET_MILLIS,
            None => false,
        }
    }

    /// The slot after a check at `now`.
    pub open spec fn drain(
        self,
        now: u64,
        connection_count: nat,
        max_debounce_time: nat,
        debounce_factor: nat,
    ) -> SlotState {
        if self.due(now, connection_count, max_debounce_time, debounce_factor) {
            SlotState { received: self.received, sent: now, message: None }
        } else {
            self
        }
    }

    /// What a check at `now` hands out: the queued message or nothing.
    pub open spec fn drained(
        self,
        now: u64,
        connection_count: nat,
        max_debounce_time: nat,
        debounce_factor: nat,
    ) -> Seq<Message> {
        if self.due(now, connection_count, max_debounce_time, debounce_factor) {
            seq![self.message->Some_0]
        } else {
            Seq::empty()
        }
    }
}

/// The send queue as a mathematical value.
pub struct QueueState {
    pub max_debounce_time: usize,
    pub debounce_factor: u32,
    pub enabled: bool,
    pub file: SlotState,
    pub activity: SlotState,
    pub notification: SlotState,
}

impl QueueState {
    /// The queue that [`SendQueue::new`] makes.
    pub open spec fn fresh(max_debounce_time: usize, debounce_factor: u32, now: u64) -> QueueState {
        QueueState {
            max_debounce_time,
            debounce_factor,
            enabled: true,
            file: SlotState::fresh(now),
            activity: SlotState::fresh(now),
            notification: SlotState::fresh(now),
        }
    }

    /// Whether each slot holds nothing but messages of its own kind.
    pub open spec fn sorted(self) -> bool {
        &&& self.file.message matches Some(m) ==> m.kind() == MessageType::File
        &&& self.activity.message matches Some(m) ==> m.kind() == MessageType::Activity
        &&& self.notification.message matches Some(m) ==> m.kind() == MessageType::Notification
    }

    /// The slot that messages of `kind` wait in. Custom messages wait in
    /// none; the slot of notifications stands in for it.
    pub open spec fn slot(self, kind: MessageType) -> SlotState {
        match kind {
            MessageType::File => self.file,
            MessageType::Activity => self.activity,
            _ => self.notification,
        }
    }

    /// Whether a pushed message is queued rather than handed back at once.
    pub open spec fn holds_back(self, message: Message) -> bool {
        self.enabled && message.kind() != MessageType::Custom
    }

    /// The queue after `message` was pushed at `time`.
    pub open spec fn push(self, message: Message, time: u64) -> QueueState {
        if !self.holds_back(message) {
            self
        } else {
            match message.kind() {
                MessageType::File => QueueState { file: self.file.store(message, time), ..self },
                MessageType::Activity => QueueState {
                    activity: self.activity.store(message, time),
                    ..self
                },
                _ => QueueState {
                    notification: self.notification.store(message, time),
                    ..self
                },
            }
        }
    }

    /// The queue after a drain at `now`.
    pub open spec fn drain(self, now: u64, connection_count: nat) -> QueueState {
        let max = self.max_debounce_time as nat;
        let factor = self.debounce_factor as nat;
        QueueState {
            file: self.file.drain(now, connection_count, max, factor),
            activity: self.activity.drain(now, connection_count, max, factor),
            notification: self.notification.drain(now, connection_count, max, factor),
            ..self
        }
    }

    /// The messages that a drain at `now` hands out, in slot order: file,
    /// activity, notification.
    pub open spec fn drained(self, now: u64, connection_count: nat) -> Seq<Message> {
        let max = self.max_debounce_time as nat;
        let factor = self.debounce_factor as nat;
        self.file.drained(now, connection_count, max, factor) + self.activity.drained(
            now,
            connection_count,
            max,
            factor,
        ) + self.notification.drained(now, connection_count, max, factor)
    }
}

#[derive(Debug, Clone)]
struct SendQueueItem {
    received: u64,
    sent: u64,
    message: Option<PushMessage>,
}

impl View for SendQueueItem {
    type V = SlotState;

    closed spec fn view(&self) -> SlotState {
        SlotState { received: self.received, sent: self.sent, message: pending(self.message) }
    }
}

impl SendQueueItem {
    fn new(now: u64) -> (item: SendQueueItem)
        requires
            now >= INITIAL_AGE_MILLIS,
        ensures
            item@ == SlotState::fresh(now),
    {
        SendQueueItem {
            received: now - INITIAL_AGE_MILLIS,
            sent: now - INITIAL_AGE_MILLIS,
            message: None,
        }
    }

    fn store(&mut self, message: PushMessage, time: u64)
        ensures
            final(self)@ == old(self)@.store(message@, time),
    {
        match self.message.take() {
            Some(mut queued) => {
                queued.merge(&message);
                self.message = Some(queued);
            },
            None => {
                self.message = Some(message);
            },
        }
        self.received = time;
    }

    fn drain(
        &mut self,
        now: u64,
        connection_count: usize,
        max_debounce_time: usize,
        debounce_factor: u32,
    ) -> (out: Option<PushMessage>)
        ensures
            final(self)@ == old(self)@.drain(
                now,
                connection_count as nat,
                max_debounce_time as nat,
                debounce_factor as nat,
            ),
            old(self)@.due(
                now,
                connection_count as nat,
                max_debounce_time as nat,
                debounce_factor as nat,
            ) ==> pending(out) == old(self)@.message,
            !old(self)@.due(
                now,
                connection_count as nat,
                max_debounce_time as nat,
                debounce_factor as nat,
            ) ==> out is None,
    {
        let due = match &self.message {
            Some(message) => {
                let debounce_time = message.debounce_time(
                    connection_count,
                    max_debounce_time,
                    debounce_factor,
                );
                now.saturating_sub(self.sent) > debounce_time && now.saturating_sub(self.received)
                    > QUIET_MILLIS
            },
            None => false,
        };
        if due {
            self.sent = now;
            self.message.take()
        } else {
            None
        }
    }
}

/// Queue of the messages that wait for one connection.
///
/// Repeated notifications of one kind are merged into a single message that
/// is released once the debounce time of its kind has passed.
#[derive(Debug)]
pub struct SendQueue {
    max_debounce_time: usize,
    debounce_factor: u32,
    enabled: bool,
    file: SendQueueItem,
    activity: SendQueueItem,
    notification: SendQueueItem,
}

impl View for SendQueue {
    type V = QueueState;

    closed spec fn view(&self) -> QueueState {
        QueueState {
            max_debounce_time: self.max_debounce_time,
            debounce_factor: self.debounce_factor,
            enabled: self.enabled,
            file: self.file@,
            activity: self.activity@,
            notification: self.notification@,
        }
    }
}

impl SendQueue {
    /// An empty queue made at `now`. `debounce_factor` scales the debounce
    /// time of file and activity messages, in thousandths.
    pub fn new(max_debounce_time: usize, debounce_factor: u32, now: u64) -> (queue: SendQueue)
        requires
            now >= INITIAL_AGE_MILLIS,
        ensures
            queue@ == QueueState::fresh(max_debounce_time, debounce_factor, now),
    {
        SendQueue {
            max_debounce_time,
            debounce_factor,
            enabled: true,
            file: SendQueueItem::new(now),
            activity: SendQueueItem::new(now),
            notification: SendQueueItem::new(now),
        }
    }

    /// Switches debouncing on or off. While it is off, every pushed message
    /// is handed back at once.
    pub fn set_debounce(&mut self, enabled: bool)
        ensures
            final(self)@ == (QueueState { enabled, ..old(self)@ }),
    {
        self.enabled = enabled;
    }

    /// Takes in a message at `time`. Hands the message back where it is to
    /// be sent at once; otherwise the message waits in the slot of its kind,
    /// merged into what waits there already.
    pub fn push(&mut self, message: PushMessage, time: u64) -> (immediate: Option<PushMessage>)
        ensures
            final(self)@ == old(self)@.push(message@, time),
            old(self)@.holds_back(message@) ==> immediate is None,
            !old(self)@.holds_back(message@) ==> immediate == Some(message),
    {
        if !self.enabled {
            return Some(message);
        }
        match message.message_type() {
            MessageType::File => {
                self.file.store(message, time);
            },
            MessageType::Activity => {
                self.activity.store(message, time);
            },
            MessageType::Notification => {
                self.notification.store(message, time);
            },
            MessageType::Custom => {
                return Some(message);
            },
        }
        None
    }

    /// Releases the messages that are due at `now`, in slot order.
    pub fn drain(&mut self, now: u64, connection_count: usize) -> (out: Vec<PushMessage>)
        ensures
            final(self)@ == old(self)@.drain(now, connection_count as nat),
            messages(out@) == old(self)@.drained(now, connection_count as nat),
            out@.len() == old(self)@.drained(now, connection_count as nat).len(),
    {
        let max = self.max_debounce_time;
        let factor = self.debounce_factor;
        let mut out: Vec<PushMessage> = Vec::new();
        if let Some(message) = self.file.drain(now, connection_count, max, factor) {
            out.push(message);
        }
        if let Some(message) = self.activity.drain(now, connection_count, max, factor) {
            out.push(message);
        }
        if let Some(message) = self.notification.drain(now, connection_count, max, factor) {
            out.push(message);
        }
        assert(messages(out@) =~= old(self)@.drained(now, connection_count as nat));
        out
    }
}

/// The first list is kept as it is, at the front of the union.
pub proof fn lemma_union_keeps_prefix(a: Seq<u64>, b: Seq<u64>)
    ensures
        a.is_prefix_of(union_in_order(a, b)),
    decreases b.len(),
{
    if b.len() > 0 {
        if a.contains(b[0]) {
            lemma_union_keeps_prefix(a, b.drop_first());
        } else {
            lemma_union_keeps_prefix(a.push(b[0]), b.drop_first());
            let longer = a.push(b[0]);
            let whole = union_in_order(a, b);
            assert(a =~= whole.subrange(0, a.len() as int)) by {
                assert(longer =~= whole.subrange(0, longer.len() as int));
                assert forall|i: int| 0 <= i < a.len() implies a[i] == whole[i] by {
                    assert(longer[i] == whole.subrange(0, longer.len() as int)[i]);
                }
            }
        }
    }
}

/// The union holds exactly the ids of the two lists.
pub proof fn lemma_union_members(a: Seq<u64>, b: Seq<u64>, id: u64)
    ensures
        union_in_order(a, b).contains(id) <==> a.contains(id) || b.contains(id),
    decreases b.len(),
{
    if b.len() > 0 {
        let rest = b.drop_first();
        assert(b.contains(id) <==> b[0] == id || rest.contains(id)) by {
            if b.contains(id) {
                let i = choose|i: int| 0 <= i < b.len() && b[i] == id;
                if i > 0 {
                    assert(rest[i - 1] == id);
                }
            }
            if rest.contains(id) {
                let i = choose|i: int| 0 <= i < rest.len() && rest[i] == id;
                assert(b[i + 1] == id);
            }
            if b[0] == id {
                assert(b.contains(id));
            }
        }
        if a.contains(b[0]) {
            lemma_union_members(a, rest, id);
        } else {
            let longer = a.push(b[0]);
            lemma_union_members(longer, rest, id);
            assert(longer.contains(id) <==> a.contains(id) || b[0] == id) by {
                if a.contains(id) {
                    let i = choose|i: int| 0 <= i < a.len() && a[i] == id;
                    assert(longer[i] == id);
                }
                if b[0] == id {
                    assert(longer[a.len() as int] == id);
                }
            }
        }
    }
}

/// Merging into a list without repetition gives a list without repetition.
pub proof fn law_union_has_no_repeats(a: Seq<u64>, b: Seq<u64>)
    requires
        a.no_duplicates(),
    ensures
        union_in_order(a, b).no_duplicates(),
    decreases b.len(),
{
    if b.len() > 0 {
        if a.contains(b[0]) {
            law_union_has_no_repeats(a, b.drop_first());
        } else {
            law_union_has_no_repeats(a.push(b[0]), b.drop_first());
        }
    }
}

/// Merging two known file lists gives a known list that holds the ids of
/// both, whichever of the two comes first: the merge is commutative up to
/// the order of the ids. The ids of the first list keep their places.
pub proof fn law_merge_commutes_up_to_order(a: Seq<u64>, b: Seq<u64>)
    ensures
        Files::Known(a).extend(Files::Known(b)) == Files::Known(union_in_order(a, b)),
        union_in_order(a, b).to_set() == a.to_set().union(b.to_set()),
        union_in_order(a, b).to_set() == union_in_order(b, a).to_set(),
        a.is_prefix_of(union_in_order(a, b)),
        b.is_prefix_of(union_in_order(b, a)),
{
    lemma_union_keeps_prefix(a, b);
    lemma_union_keeps_prefix(b, a);
    assert forall|id: u64|
        union_in_order(a, b).to_set().contains(id) <==> a.to_set().union(b.to_set()).contains(
            id,
        ) by {
        lemma_union_members(a, b, id);
    }
    assert forall|id: u64|
        union_in_order(b, a).to_set().contains(id) <==> a.to_set().union(b.to_set()).contains(
            id,
        ) by {
        lemma_union_members(b, a, id);
    }
    assert(union_in_order(a, b).to_set() =~= a.to_set().union(b.to_set()));
    assert(union_in_order(b, a).to_set() =~= a.to_set().union(b.to_set()));
}

/// `Unknown` absorbs whatever it is merged with, on either side.
pub proof fn law_unknown_absorbs(files: Files)
    ensures
        files.extend(Files::Unknown) == Files::Unknown,
        Files::Unknown.extend(files) == Files::Unknown,
{
}

/// A drain leaves nothing that a second drain at the same instant and
/// under the same load would release: the second drain hands out no
/// message and changes nothing.
pub proof fn law_drain_twice(queue: QueueState, now: u64, connection_count: nat)
    ensures
        queue.drain(now, connection_count).drained(now, connection_count) == Seq::<
            Message,
        >::empty(),
        queue.drain(now, connection_count).drain(now, connection_count) == queue.drain(
            now,
            connection_count,
        ),
{
    assert(queue.drain(now, connection_count).drained(now, connection_count) =~= Seq::<
        Message,
    >::empty());
}

/// Each slot holds messages of its own kind only: a fresh queue is sorted,
/// and pushing and draining keep it so.
pub proof fn law_queue_stays_sorted(
    queue: QueueState,
    message: Message,
    time: u64,
    connection_count: nat,
)
    requires
        queue.sorted(),
    ensures
        queue.push(message, time).sorted(),
        queue.drain(time, connection_count).sorted(),
{
}

/// A message that was queued leaves with the first drain for which the
/// debounce time of its kind has passed since the last release of its
/// slot and more than the quiet time since the message came.
pub proof fn law_queued_message_is_released(
    queue: QueueState,
    message: Message,
    time: u64,
    now: u64,
    connection_count: nat,
)
    requires
        queue.sorted(),
        queue.holds_back(message),
        elapsed(now, time) > QUIET_MILLIS,
        elapsed(now, queue.slot(message.kind()).sent) > debounce_millis(
            message.kind(),
            connection_count,
            queue.max_debounce_time as nat,
            queue.debounce_factor as nat,
        ),
    ensures
        exists|i: int|
            0 <= i < queue.push(message, time).drained(now, connection_count).len() && (
            #[trigger] queue.push(message, time).drained(now, connection_count)[i]).kind()
                == message.kind(),
{
    let pushed = queue.push(message, time);
    let out = pushed.drained(now, connection_count);
    let max = queue.max_debounce_time as nat;
    let factor = queue.debounce_factor as nat;
    let file = pushed.file.drained(now, connection_count, max, factor);
    let activity = pushed.activity.drained(now, connection_count, max, factor);
    match message.kind() {
        MessageType::File => {
            assert(pushed.file.due(now, connection_count, max, factor));
            assert(out[0].kind() == message.kind());
        },
        MessageType::Activity => {
            assert(pushed.activity.due(now, connection_count, max, factor));
            assert(out[file.len() as int].kind() == message.kind());
        },
        _ => {
            assert(pushed.notification.due(now, connection_count, max, factor));
            assert(out[(file.len() + activity.len()) as int].kind() == message.kind());
        },
    }
}

/// A drain hands out at most one message of a kind, however many were
/// pushed: what was pushed since the last release went into one message.
pub proof fn law_one_message_of_a_kind(queue: QueueState, now: u64, connection_count: nat)
    requires
        queue.sorted(),
    ensures
        queue.drained(now, connection_count).len() <= 3,
        forall|i: int, j: int|
            0 <= i < j < queue.drained(now, connection_count).len() ==> (
            #[trigger] queue.drained(now, connection_count)[i]).kind() != (
            #[trigger] queue.drained(now, connection_count)[j]).kind(),
{
}

} // verus!
