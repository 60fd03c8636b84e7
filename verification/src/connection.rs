//! The registry of open connections, and the protocol of one connection:
//! the handshake, the debounced delivery of messages, and the keepalive.

use crate::error::{AuthenticationError, Error, WebSocketError};
use crate::message::{elapsed, Message, PushMessage, QueueState, SendQueue, INITIAL_AGE_MILLIS};
use crate::metrics::{wrapping_next, Counters, Metrics};
use crate::passthru_hasher::PassthruHasher;
use crate::pre_auth::{entries_after_redeem, redeemed_user, PreAuthStore};
use crate::random::{random_between, random_nonzero};
use crate::user::UserId;
use dashmap::DashMap;
use tokio::sync::broadcast::{Receiver, Sender};
use vstd::bytes::{spec_u64_to_le_bytes, u64_to_le_bytes};
use vstd::prelude::*;
use vstd::string::StringExecFns;

verus! {

/// A user may have one connection more than this open at a time.
pub const USER_CONNECTION_LIMIT: usize = 64;

/// The number of messages that may wait for the connections of one user.
pub const USER_CHANNEL_CAPACITY: usize = 4;

/// A connection that sent nothing for longer than this is sent a ping.
pub const PING_INTERVAL_MILLIS: u64 = 30_000;

/// A client has this long to complete the handshake.
pub const AUTH_TIMEOUT_MILLIS: u64 = 15_000;

/// A connection waits this long for a message before it looks after its
/// queue and its keepalive.
pub const RECEIVE_TIMEOUT_MILLIS: u64 = 500;

/// The debounce factor of a connection is chosen from this many
/// thousandths upwards,
pub const DEBOUNCE_FACTOR_LOW: u64 = 500;

/// and below this many.
pub const DEBOUNCE_FACTOR_HIGH: u64 = 1500;

/// `tokio::sync::broadcast::Sender`, the sending end of the channel of a
/// user.
#[verifier::external_type_specification]
#[verifier::external_body]
#[verifier::reject_recursive_types(T)]
pub struct ExSender<T>(Sender<T>);

/// `tokio::sync::broadcast::Receiver`, the end of the channel that one
/// connection listens on.
#[verifier::external_type_specification]
#[verifier::external_body]
#[verifier::reject_recursive_types(T)]
pub struct ExReceiver<T>(Receiver<T>);

/// The users for whom a map of senders holds a sender.
pub uninterp spec fn registered_users(
    senders: DashMap<UserId, Sender<PushMessage>, PassthruHasher>,
) -> Set<UserId>;

/// No user at all.
pub open spec fn no_users() -> Set<UserId> {
    Set::empty()
}

/// `DashMap::default`: a map without entries.
#[verifier::external_body]
fn empty_senders() -> (senders: DashMap<UserId, Sender<PushMessage>, PassthruHasher>)
    ensures
        registered_users(senders) == no_users(),
{
    DashMap::default()
}

/// `DashMap::get`, with a copy of the sender where the key is present:
/// there is a sender exactly for the users of the map.
#[verifier::external_body]
fn sender_of(senders: &DashMap<UserId, Sender<PushMessage>, PassthruHasher>, user: &UserId) -> (tx:
    Option<Sender<PushMessage>>)
    ensures
        tx is Some <==> registered_users(*senders).contains(*user),
{
    senders.get(user).map(|entry| entry.value().clone())
}

/// `DashMap::insert`: afterwards the user has a sender, and so has everyone
/// who had one.
#[verifier::external_body]
fn insert_sender(
    senders: &mut DashMap<UserId, Sender<PushMessage>, PassthruHasher>,
    user: UserId,
    tx: Sender<PushMessage>,
)
    ensures
        registered_users(*final(senders)) == registered_users(*old(senders)).insert(user),
{
    senders.insert(user, tx);
}

/// `DashMap::remove`: afterwards the user has no sender, and everyone else
/// is as before.
#[verifier::external_body]
fn remove_sender(senders: &mut DashMap<UserId, Sender<PushMessage>, PassthruHasher>, user: &UserId)
    ensures
        registered_users(*final(senders)) == registered_users(*old(senders)).remove(*user),
{
    senders.remove(user);
}

/// `DashMap::len`: the number of users of the map.
#[verifier::external_body]
fn count_senders(senders: &DashMap<UserId, Sender<PushMessage>, PassthruHasher>) -> (count: usize)
    ensures
        count == registered_users(*senders).len(),
{
    senders.len()
}

/// `broadcast::channel`: a bounded channel that drops its oldest message
/// when a new one finds it full, together with its first receiver.
#[verifier::external_body]
fn user_channel(capacity: usize) -> (ends: (Sender<PushMessage>, Receiver<PushMessage>))
    requires
        0 < capacity <= usize::MAX / 2,
{
    tokio::sync::broadcast::channel(capacity)
}

/// `Sender::receiver_count`: how many receivers of the channel are alive
/// at this moment.
#[verifier::external_body]
fn receiver_count(tx: &Sender<PushMessage>) -> (count: usize) {
    tx.receiver_count()
}

/// `Sender::subscribe`: one more receiver of the channel. (It gives up
/// only at a number of receivers that no memory holds.)
#[verifier::external_body]
fn another_receiver(tx: &Sender<PushMessage>) -> (rx: Receiver<PushMessage>) {
    tx.subscribe()
}

/// `Sender::send`: hands the message to the receivers that are alive.
#[verifier::external_body]
fn send(tx: &Sender<PushMessage>, message: PushMessage) {
    tx.send(message).ok();
}

/// Whether a user with `receiver_count` connections may open one more.
pub fn within_limit(receiver_count: usize) -> (allowed: bool)
    ensures
        allowed == (receiver_count <= USER_CONNECTION_LIMIT),
{
    receiver_count <= USER_CONNECTION_LIMIT
}

/// Whether the connection that is about to close is the only one that is
/// left of `receiver_count`.
pub fn is_last(receiver_count: usize) -> (last: bool)
    ensures
        last == (receiver_count == 1),
{
    receiver_count == 1
}

/// The users that have a connection open, each with the channel that
/// reaches all connections of the user.
pub struct ActiveConnections {
    senders: DashMap<UserId, Sender<PushMessage>, PassthruHasher>,
}

impl View for ActiveConnections {
    type V = Set<UserId>;

    closed spec fn view(&self) -> Set<UserId> {
        registered_users(self.senders)
    }
}

impl Default for ActiveConnections {
    fn default() -> (connections: ActiveConnections)
        ensures
            connections@ == no_users(),
            connections@.finite(),
    {
        ActiveConnections { senders: empty_senders() }
    }
}

impl ActiveConnections {
    /// Opens a connection for `user`. A user without a connection gets a
    /// channel of their own. A user with connections gets one more receiver
    /// of their channel, unless the limit is reached.
    pub fn add(&mut self, user: UserId) -> (rx: Result<Receiver<PushMessage>, Error>)
        ensures
            !old(self)@.contains(user) ==> rx is Ok && final(self)@ == old(self)@.insert(user),
            old(self)@.contains(user) ==> final(self)@ == old(self)@,
            old(self)@.finite() ==> final(self)@.finite(),
            rx matches Err(e) ==> e == Error::Authentication(AuthenticationError::LimitExceeded),
    {
        match sender_of(&self.senders, &user) {
            Some(tx) => {
                if within_limit(receiver_count(&tx)) {
                    Ok(another_receiver(&tx))
                } else {
                    Err(Error::Authentication(AuthenticationError::LimitExceeded))
                }
            },
            None => {
                let (tx, rx) = user_channel(USER_CHANNEL_CAPACITY);
                insert_sender(&mut self.senders, user, tx);
                Ok(rx)
            },
        }
    }

    /// Hands `msg` to the connections of `user`. Says whether the user has
    /// a channel; without one nothing happens.
    pub fn send_to_user(&self, user: &UserId, msg: PushMessage) -> (known: bool)
        ensures
            known == self@.contains(*user),
    {
        match sender_of(&self.senders, user) {
            Some(tx) => {
                send(&tx, msg);
                true
            },
            None => false,
        }
    }

    /// Closes a connection of `user` and says how many the user was found to
    /// have: the channel of the user goes with the last connection.
    pub fn remove(&mut self, user: &UserId) -> (receivers: Option<usize>)
        ensures
            receivers is Some <==> old(self)@.contains(*user),
            final(self)@ == after_remove(old(self)@, *user, receivers),
            old(self)@.finite() ==> final(self)@.finite(),
    {
        match sender_of(&self.senders, user) {
            Some(tx) => {
                let receivers = receiver_count(&tx);
                if is_last(receivers) {
                    remove_sender(&mut self.senders, user);
                }
                Some(receivers)
            },
            None => None,
        }
    }

    /// The number of users that have a connection open.
    pub fn active_user_count(&self) -> (count: usize)
        ensures
            count == self@.len(),
    {
        count_senders(&self.senders)
    }
}

/// Settings of one client connection.
#[derive(Debug)]
pub struct ConnectionOptions {
    /// Whether the client asked for file ids in file notifications.
    pub listen_file_id: bool,
    /// Upper bound, in seconds, of the load-dependent debounce time.
    pub max_debounce_time: usize,
    /// Longest lifetime of the connection in seconds; zero means unlimited.
    pub max_connection_time: u64,
}

impl ConnectionOptions {
    pub fn new(max_debounce_time: usize, max_connection_time: usize) -> (opts: ConnectionOptions)
        ensures
            !opts.listen_file_id,
            opts.max_debounce_time == max_debounce_time,
            opts.max_connection_time == max_connection_time,
    {
        ConnectionOptions {
            listen_file_id: false,
            max_debounce_time,
            max_connection_time: max_connection_time as u64,
        }
    }
}

/// A frame that a client sent.
#[derive(Debug, Clone, PartialEq, Eq)]
pub enum Frame {
    Text(String),
    /// The answer to a ping, with its payload.
    Pong(Vec<u8>),
    /// Any other frame.
    Other,
}

/// What is to be done with a client after its credentials were read.
#[derive(Debug, Clone, PartialEq, Eq)]
pub enum AuthStep {
    /// The password was a token: the client is this user.
    Authenticated(UserId),
    /// The backend has to check the credentials.
    Verify,
    /// The client is turned away.
    Denied(AuthenticationError),
}

/// How a handshake ended.
#[derive(Debug, Clone, PartialEq, Eq)]
pub enum AuthOutcome {
    Accepted(UserId),
    Rejected(AuthenticationError),
    /// The client took longer than [`AUTH_TIMEOUT_MILLIS`].
    TimedOut,
}

impl AuthOutcome {
    /// The one frame that answers the handshake.
    pub open spec fn frame(self) -> Seq<char> {
        match self {
            AuthOutcome::Accepted(_) => "authenticated"@,
            AuthOutcome::Rejected(e) => "err: "@ + e.text(),
            AuthOutcome::TimedOut => "Authentication timeout"@,
        }
    }

    /// Whether the connection goes on after the answer.
    pub open spec fn proceeds(self) -> bool {
        self is Accepted
    }
}

/// What went wrong while a frame of the handshake was awaited.
#[derive(Debug, Clone, PartialEq, Eq)]
pub enum ReadFailure {
    /// The socket reported an error, given by its text.
    Failed(String),
    /// The client closed the socket.
    Closed,
}

/// The text of a frame of the handshake.
pub fn auth_message(read: Result<Frame, ReadFailure>) -> (text: Result<String, AuthenticationError>)
    ensures
        text == match read {
            Ok(Frame::Text(t)) => Ok::<String, AuthenticationError>(t),
            Ok(_) => Err(AuthenticationError::InvalidMessage),
            Err(ReadFailure::Failed(reason)) => Err(
                AuthenticationError::Socket(WebSocketError::Error(reason)),
            ),
            Err(ReadFailure::Closed) => Err(
                AuthenticationError::Socket(WebSocketError::Disconnected),
            ),
        },
{
    match read {
        Ok(Frame::Text(t)) => Ok(t),
        Ok(_) => Err(AuthenticationError::InvalidMessage),
        Err(ReadFailure::Failed(reason)) => Err(
            AuthenticationError::Socket(WebSocketError::Error(reason)),
        ),
        Err(ReadFailure::Closed) => Err(AuthenticationError::Socket(WebSocketError::Disconnected)),
    }
}

/// What follows from the two frames of a handshake that was read at `now`.
pub open spec fn auth_step(
    entries: Map<Seq<char>, (u64, UserId)>,
    username: Seq<char>,
    password: Seq<char>,
    now: u64,
) -> AuthStep {
    match redeemed_user(entries, password, now) {
        Some(user) => AuthStep::Authenticated(user),
        None => if username.len() > 0 {
            AuthStep::Verify
        } else {
            AuthStep::Denied(AuthenticationError::Invalid)
        },
    }
}

/// Decides on the credentials of a client at `now`. Expired tokens are
/// dropped; a password that is a live token is used up and names the user,
/// whatever the user name says. Any other password is for the backend to
/// check, unless the user name is empty.
pub fn socket_auth(pre_auth: &mut PreAuthStore, username: &str, password: &str, now: u64) -> (step:
    AuthStep)
    ensures
        step == auth_step(old(pre_auth)@, username@, password@, now),
        final(pre_auth)@ == entries_after_redeem(old(pre_auth)@, password@, now),
{
    match pre_auth.redeem(password, now) {
        Some(user) => AuthStep::Authenticated(user),
        None => {
            if !username.is_empty() {
                AuthStep::Verify
            } else {
                AuthStep::Denied(AuthenticationError::Invalid)
            }
        },
    }
}

/// The frame that tells a client how its handshake ended.
pub fn handshake_frame(outcome: &AuthOutcome) -> (frame: String)
    ensures
        frame@ == outcome.frame(),
{
    match outcome {
        AuthOutcome::Accepted(_) => String::from_str("authenticated"),
        AuthOutcome::Rejected(e) => String::from_str("err: ").concat(e.message().as_str()),
        AuthOutcome::TimedOut => String::from_str("Authentication timeout"),
    }
}

/// The frame that tells a client, after its handshake, why it gets no
/// session.
pub fn refusal_frame(e: &AuthenticationError) -> (frame: String)
    ensures
        frame@ == "err: "@ + e.text(),
{
    String::from_str("err: ").concat(e.message().as_str())
}

/// What a connection does after it looked after its queue and keepalive.
#[derive(Debug, Clone, Copy, PartialEq, Eq, Structural)]
pub enum Next {
    /// Flush what was handed to the socket and go on.
    Continue,
    /// Send a close frame and end.
    Close,
    /// End without another word: the client did not answer the last ping.
    Abandon,
}

/// What a connection hands to its socket when no message came in time.
#[derive(Debug)]
pub struct Tick {
    /// The text frames to send, in this order.
    pub frames: Vec<String>,
    /// The payload of the ping to send after the frames, if one is due.
    pub ping: Option<Vec<u8>>,
    pub next: Next,
}

/// The texts of a run of frames.
pub open spec fn texts(frames: Seq<String>) -> Seq<Seq<char>> {
    frames.map_values(|frame: String| frame@)
}

/// The frames of a run of messages.
pub open spec fn frames_of(run: Seq<Message>, listen_file_id: bool) -> Seq<Seq<char>> {
    run.map_values(|message: Message| message.frame(listen_file_id))
}

/// A counter after `steps` further counts.
pub open spec fn wrapping_advance(n: usize, steps: nat) -> usize
    decreases steps,
{
    if steps == 0 {
        n
    } else {
        wrapping_next(wrapping_advance(n, (steps - 1) as nat))
    }
}

/// One connection as a mathematical value.
pub struct ConnectionState {
    pub listen_file_id: bool,
    pub max_debounce_time: usize,
    /// In seconds; zero for no limit.
    pub max_connection_time: u64,
    pub queue: QueueState,
    pub connection_start: u64,
    /// When the last frame or ping was handed to the socket.
    pub last_send: u64,
    /// The payload of the ping that is not answered yet; zero when none is.
    pub expect_pong: u64,
}

impl ConnectionState {
    /// The connection that is opened at `now` with these settings.
    pub open spec fn fresh(opts: ConnectionOptions, debounce_factor: u32, now: u64) -> ConnectionState {
        ConnectionState {
            listen_file_id: opts.listen_file_id,
            max_debounce_time: opts.max_debounce_time,
            max_connection_time: opts.max_connection_time,
            queue: QueueState::fresh(opts.max_debounce_time, debounce_factor, now),
            connection_start: now,
            last_send: (now - PING_INTERVAL_MILLIS) as u64,
            expect_pong: 0,
        }
    }

    /// Whether the connection has been open for longer than it may.
    pub open spec fn expired(self, now: u64) -> bool {
        self.max_connection_time != 0 && elapsed(now, self.connection_start)
            > self.max_connection_time * 1000
    }

    /// The frame that goes out at once when `message` comes in, if one does.
    pub open spec fn immediate_frame(self, message: Message) -> Option<Seq<char>> {
        if self.queue.holds_back(message) {
            None
        } else {
            Some(message.frame(self.listen_file_id))
        }
    }

    /// The connection after `message` came in at `now`.
    pub open spec fn receive(self, message: Message, now: u64) -> ConnectionState {
        if self.queue.holds_back(message) {
            ConnectionState { queue: self.queue.push(message, now), ..self }
        } else {
            ConnectionState { last_send: now, ..self }
        }
    }

    /// The messages that leave the queue when the connection is idle at
    /// `now`.
    pub open spec fn released(self, now: u64, connection_count: nat) -> Seq<Message> {
        if self.expired(now) {
            Seq::empty()
        } else {
            self.queue.drained(now, connection_count)
        }
    }

    /// Whether a ping is due when the connection is idle at `now`: nothing
    /// leaves the queue, and nothing was sent for longer than the ping
    /// interval.
    pub open spec fn ping_due(self, now: u64, connection_count: nat) -> bool {
        &&& !self.expired(now)
        &&& self.released(now, connection_count).len() == 0
        &&& elapsed(now, self.last_send) > PING_INTERVAL_MILLIS
    }

    /// What the connection does next when it is idle at `now`.
    pub open spec fn next(self, now: u64, connection_count: nat) -> Next {
        if self.expired(now) {
            Next::Close
        } else if self.ping_due(now, connection_count) && self.expect_pong != 0 {
            Next::Abandon
        } else {
            Next::Continue
        }
    }

    /// The payload of the ping that goes out when the connection is idle at
    /// `now`, where `ping` is the number chosen for it.
    pub open spec fn ping_payload(self, now: u64, connection_count: nat, ping: u64) -> Option<
        Seq<u8>,
    > {
        if self.ping_due(now, connection_count) && self.expect_pong == 0 {
            Some(spec_u64_to_le_bytes(ping))
        } else {
            None
        }
    }

    /// The connection after it was idle at `now`, where `ping` is the
    /// number chosen for a ping.
    pub open spec fn idle(self, now: u64, connection_count: nat, ping: u64) -> ConnectionState {
        if self.expired(now) {
            self
        } else {
            let drained = ConnectionState {
                queue: self.queue.drain(now, connection_count),
                last_send: if self.released(now, connection_count).len() > 0 {
                    now
                } else {
                    self.last_send
                },
                ..self
            };
            if !self.ping_due(now, connection_count) {
                drained
            } else if self.expect_pong != 0 {
                ConnectionState { expect_pong: ping, ..drained }
            } else {
                ConnectionState { expect_pong: ping, last_send: now, ..drained }
            }
        }
    }

    /// Whether `payload` answers the ping that is outstanding.
    pub open spec fn answers(self, payload: Seq<u8>) -> bool {
        payload == spec_u64_to_le_bytes(self.expect_pong)
    }

    /// Whether the connection goes on after `frame` came from the client.
    pub open spec fn survives(self, frame: Frame) -> bool {
        match frame {
            Frame::Pong(payload) => self.answers(payload@),
            _ => true,
        }
    }

    /// The connection after `frame` came from the client.
    pub open spec fn hear(self, frame: Frame) -> ConnectionState {
        match frame {
            Frame::Pong(_) => ConnectionState { expect_pong: 0, ..self },
            Frame::Text(text) => if text@ == "listen notify_file_id"@ {
                ConnectionState { listen_file_id: true, ..self }
            } else {
                self
            },
            Frame::Other => self,
        }
    }
}

/// The protocol state of one authenticated connection.
#[derive(Debug)]
pub struct Connection {
    opts: ConnectionOptions,
    queue: SendQueue,
    connection_start: u64,
    last_send: u64,
    expect_pong: u64,
}

impl View for Connection {
    type V = ConnectionState;

    closed spec fn view(&self) -> ConnectionState {
        ConnectionState {
            listen_file_id: self.opts.listen_file_id,
            max_debounce_time: self.opts.max_debounce_time,
            max_connection_time: self.opts.max_connection_time,
            queue: self.queue@,
            connection_start: self.connection_start,
            last_send: self.last_send,
            expect_pong: self.expect_pong,
        }
    }
}

fn same_bytes(a: &[u8], b: &[u8]) -> (same: bool)
    ensures
        same == (a@ == b@),
{
    if a.len() != b.len() {
        return false;
    }
    let mut i: usize = 0;
    while i < a.len()
        invariant
            i <= a.len(),
            a.len() == b.len(),
            forall|k: int| 0 <= k < i ==> a@[k] == b@[k],
        decreases a.len() - i,
    {
        if a[i] != b[i] {
            return false;
        }
        i += 1;
    }
    assert(a@ =~= b@);
    true
}

impl Connection {
    /// The state of a connection that is opened at `now`, with a debounce
    /// factor in thousandths.
    pub fn with_factor(opts: ConnectionOptions, debounce_factor: u32, now: u64) -> (connection:
        Connection)
        requires
            now >= INITIAL_AGE_MILLIS,
        ensures
            connection@ == ConnectionState::fresh(opts, debounce_factor, now),
    {
        let queue = SendQueue::new(opts.max_debounce_time, debounce_factor, now);
        Connection {
            opts,
            queue,
            connection_start: now,
            last_send: now - PING_INTERVAL_MILLIS,
            expect_pong: 0,
        }
    }

    /// The state of a connection that is opened at `now`. Its debounce
    /// factor is chosen at random, once, between a half and one and a half.
    pub fn new(opts: ConnectionOptions, now: u64) -> (connection: Connection)
        requires
            now >= INITIAL_AGE_MILLIS,
        ensures
            exists|factor: u32|
                DEBOUNCE_FACTOR_LOW <= factor < DEBOUNCE_FACTOR_HIGH && connection@
                    == ConnectionState::fresh(opts, factor, now),
    {
        let factor = random_between(DEBOUNCE_FACTOR_LOW, DEBOUNCE_FACTOR_HIGH) as u32;
        Connection::with_factor(opts, factor, now)
    }

    /// Switches debouncing on or off.
    pub fn set_debounce(&mut self, enabled: bool)
        ensures
            final(self)@ == (ConnectionState {
                queue: QueueState { enabled, ..old(self)@.queue },
                ..old(self)@
            }),
    {
        self.queue.set_debounce(enabled);
    }

    /// Whether the connection has been open for longer than it may.
    pub fn expired(&self, now: u64) -> (yes: bool)
        ensures
            yes == self@.expired(now),
    {
        if self.opts.max_connection_time == 0 {
            false
        } else {
            match self.opts.max_connection_time.checked_mul(1000) {
                Some(limit) => now.saturating_sub(self.connection_start) > limit,
                None => false,
            }
        }
    }

    /// Takes in a message for the client at `now`. Hands out the frame to
    /// send at once, if the message does not wait in the queue.
    pub fn on_message(&mut self, message: PushMessage, now: u64, metrics: &mut Metrics) -> (frame:
        Option<String>)
        ensures
            final(self)@ == old(self)@.receive(message@, now),
            match old(self)@.immediate_frame(message@) {
                Some(text) => frame is Some && frame->Some_0@ == text && final(metrics)@ == (Counters {
                    messages_sent: wrapping_next(old(metrics)@.messages_sent),
                    ..old(metrics)@
                }),
                None => frame is None && final(metrics)@ == old(metrics)@,
            },
    {
        match self.queue.push(message, now) {
            Some(message) => {
                metrics.add_message();
                self.last_send = now;
                Some(message.into_message(&self.opts))
            },
            None => None,
        }
    }

    /// Looks after the queue and the keepalive at `now`, when no message
    /// came in time. `ping` is the payload of the ping, should one be due.
    pub fn idle(&mut self, now: u64, connection_count: usize, ping: u64, metrics: &mut Metrics) -> (tick:
        Tick)
        ensures
            final(self)@ == old(self)@.idle(now, connection_count as nat, ping),
            texts(tick.frames@) == frames_of(
                old(self)@.released(now, connection_count as nat),
                old(self)@.listen_file_id,
            ),
            tick.next == old(self)@.next(now, connection_count as nat),
            match old(self)@.ping_payload(now, connection_count as nat, ping) {
                Some(payload) => tick.ping is Some && tick.ping->Some_0@ == payload,
                None => tick.ping is None,
            },
            final(metrics)@ == (Counters {
                messages_sent: wrapping_advance(
                    old(metrics)@.messages_sent,
                    old(self)@.released(now, connection_count as nat).len(),
                ),
                ..old(metrics)@
            }),
    {
        let mut frames: Vec<String> = Vec::new();
        if self.expired(now) {
            assert(texts(frames@) =~= frames_of(
                old(self)@.released(now, connection_count as nat),
                old(self)@.listen_file_id,
            ));
            return Tick { frames, ping: None, next: Next::Close };
        }
        let released = self.queue.drain(now, connection_count);
        let ghost run = old(self)@.released(now, connection_count as nat);
        let mut i: usize = 0;
        while i < released.len()
            invariant
                i <= released.len(),
                crate::message::messages(released@) == run,
                released@.len() == run.len(),
                frames@.len() == i,
                texts(frames@) == frames_of(run.subrange(0, i as int), self.opts.listen_file_id),
                metrics@ == (Counters {
                    messages_sent: wrapping_advance(old(metrics)@.messages_sent, i as nat),
                    ..old(metrics)@
                }),
                self.opts == old(self).opts,
            decreases released.len() - i,
        {
            metrics.add_message();
            let ghost before = frames@;
            frames.push(released[i].frame(self.opts.listen_file_id));
            proof {
                let listen = self.opts.listen_file_id;
                assert(crate::message::messages(released@)[i as int] == released@[i as int]@);
                assert(run[i as int] == released@[i as int]@);
                assert forall|k: int| 0 <= k < i + 1 implies texts(frames@)[k] == frames_of(
                    run.subrange(0, i + 1),
                    listen,
                )[k] by {
                    if k < i {
                        assert(texts(before)[k] == frames_of(run.subrange(0, i as int), listen)[k]);
                        assert(frames@[k] == before[k]);
                        assert(run.subrange(0, i as int)[k] == run.subrange(0, i + 1)[k]);
                    }
                }
                assert(texts(frames@) =~= frames_of(run.subrange(0, i + 1), listen));
            }
            i += 1;
        }
        assert(run.subrange(0, i as int) =~= run);
        if released.len() > 0 {
            self.last_send = now;
        }
        if now.saturating_sub(self.last_send) > PING_INTERVAL_MILLIS {
            let unanswered = self.expect_pong;
            self.expect_pong = ping;
            if unanswered != 0 {
                return Tick { frames, ping: None, next: Next::Abandon };
            }
            self.last_send = now;
            return Tick { frames, ping: Some(u64_to_le_bytes(ping)), next: Next::Continue };
        }
        Tick { frames, ping: None, next: Next::Continue }
    }

    /// Looks after the queue and the keepalive at `now`, when no message
    /// came in time. The payload of a ping is chosen at random and is not
    /// zero.
    pub fn on_timeout(&mut self, now: u64, connection_count: usize, metrics: &mut Metrics) -> (tick:
        Tick)
        ensures
            exists|ping: u64|
                ping != 0 && final(self)@ == old(self)@.idle(now, connection_count as nat, ping) && (
                match old(self)@.ping_payload(now, connection_count as nat, ping) {
                    Some(payload) => tick.ping is Some && tick.ping->Some_0@ == payload,
                    None => tick.ping is None,
                }),
            texts(tick.frames@) == frames_of(
                old(self)@.released(now, connection_count as nat),
                old(self)@.listen_file_id,
            ),
            tick.next == old(self)@.next(now, connection_count as nat),
            final(metrics)@ == (Counters {
                messages_sent: wrapping_advance(
                    old(metrics)@.messages_sent,
                    old(self)@.released(now, connection_count as nat).len(),
                ),
                ..old(metrics)@
            }),
    {
        let ping = random_nonzero();
        self.idle(now, connection_count, ping, metrics)
    }

    /// What the connection does when the gateway is told to drop every
    /// connection.
    pub fn on_reset(&self) -> (next: Next)
        ensures
            next == Next::Close,
    {
        Next::Close
    }

    /// Takes in a frame of the client. Says whether the connection goes on:
    /// it ends with a pong that does not answer the outstanding ping.
    pub fn on_frame(&mut self, frame: &Frame) -> (keep: bool)
        ensures
            keep == old(self)@.survives(*frame),
            final(self)@ == old(self)@.hear(*frame),
    {
        match frame {
            Frame::Pong(payload) => {
                let expected = self.expect_pong;
                self.expect_pong = 0;
                let bytes = u64_to_le_bytes(expected);
                same_bytes(payload.as_slice(), bytes.as_slice())
            },
            Frame::Text(text) => {
                if *text == String::from_str("listen notify_file_id") {
                    self.opts.listen_file_id = true;
                }
                true
            },
            Frame::Other => true,
        }
    }

    /// Whether the client asked for file ids in file notifications.
    pub fn listen_file_id(&self) -> (yes: bool)
        ensures
            yes == self@.listen_file_id,
    {
        self.opts.listen_file_id
    }
}

/// Whether an error of the socket, given by its text, is one of those
/// that an ordinary disconnect brings with it.
pub fn is_disconnect(error: &str) -> (benign: bool)
    ensures
        benign == (error@
            == "WebSocket protocol error: Connection reset without closing handshake"@ || error@
            == "IO error: Connection reset by peer (os error 104)"@),
{
    let error = String::from_str(error);
    error == String::from_str(
        "WebSocket protocol error: Connection reset without closing handshake",
    ) || error == String::from_str("IO error: Connection reset by peer (os error 104)")
}

/// A client that did not answer the last ping is dropped as soon as the
/// next ping is due.
pub proof fn law_unanswered_ping_ends_connection(
    connection: ConnectionState,
    now: u64,
    connection_count: nat,
)
    requires
        connection.expect_pong != 0,
        connection.ping_due(now, connection_count),
    ensures
        connection.next(now, connection_count) == Next::Abandon,
{
}

/// After a ping went out, only a pong with the payload of that ping keeps
/// the connection, and none is outstanding afterwards.
pub proof fn law_pong_must_match(
    connection: ConnectionState,
    now: u64,
    connection_count: nat,
    ping: u64,
    payload: Vec<u8>,
)
    requires
        connection.ping_payload(now, connection_count, ping) is Some,
    ensures
        connection.idle(now, connection_count, ping).expect_pong == ping,
        connection.idle(now, connection_count, ping).survives(Frame::Pong(payload)) <==> Some(
            payload@,
        ) == connection.ping_payload(now, connection_count, ping),
        connection.idle(now, connection_count, ping).hear(Frame::Pong(payload)).expect_pong == 0,
{
}

/// A connection that is open for longer than it may is closed the next
/// time it is idle, and hands out nothing more.
pub proof fn law_expired_connection_closes(
    connection: ConnectionState,
    now: u64,
    connection_count: nat,
    ping: u64,
)
    requires
        connection.expired(now),
    ensures
        connection.next(now, connection_count) == Next::Close,
        connection.released(now, connection_count).len() == 0,
        connection.ping_payload(now, connection_count, ping) is None,
        connection.idle(now, connection_count, ping) == connection,
{
}

/// A handshake is answered with `authenticated` if and only if the client
/// was accepted, and only then does the connection go on.
pub proof fn law_only_the_accepted_are_told_so(outcome: AuthOutcome)
    ensures
        outcome.frame() == "authenticated"@ <==> outcome is Accepted,
        outcome.proceeds() <==> outcome.frame() == "authenticated"@,
{
    reveal_strlit("authenticated");
    reveal_strlit("err: ");
    reveal_strlit("Authentication timeout");
    match outcome {
        AuthOutcome::Accepted(_) => {},
        AuthOutcome::Rejected(e) => {
            assert(outcome.frame()[0] == 'e');
        },
        AuthOutcome::TimedOut => {
            assert(outcome.frame()[0] == 'A');
        },
    }
}

/// When the gateway is told to drop every connection, that is all that is
/// left of the event, and a connection that hears of it closes.
pub proof fn law_reset_closes(mappings: Map<u32, crate::storage_mapping::Cached>, now: u64)
    ensures
        crate::left_over(
            crate::event::Event::Signal(crate::event::Signal::Reset),
            mappings,
            now,
        ) == crate::Pending::Reset,
        crate::planned(crate::event::Event::Signal(crate::event::Signal::Reset), mappings, now).len()
            == 0,
{
}

/// The users that are left with a channel after a connection of `user`
/// closed, where the user was found to have `receivers` connections, the
/// closing one among them: the user leaves if that was the only one.
pub open spec fn after_remove(users: Set<UserId>, user: UserId, receivers: Option<usize>) -> Set<
    UserId,
> {
    if receivers == Some(1usize) {
        users.remove(user)
    } else {
        users
    }
}

} // verus!
