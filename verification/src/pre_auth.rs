//! Tokens that let a user open a connection without sending credentials.

use crate::user::UserId;
use ahash::RandomState;
use dashmap::DashMap;
use vstd::prelude::*;

verus! {

/// A token can be redeemed for this many milliseconds after it was issued.
pub const PRE_AUTH_TTL_MILLIS: u64 = 15_000;

/// Whether a token issued at `issued_at` can still be redeemed at `now`.
pub open spec fn is_live(issued_at: u64, now: u64) -> bool {
    now <= issued_at + PRE_AUTH_TTL_MILLIS
}

/// The store without a token.
pub open spec fn no_entries() -> Map<Seq<char>, (u64, UserId)> {
    Map::empty()
}

/// The tokens of `entries` that can still be redeemed at `now`.
pub open spec fn live_entries(entries: Map<Seq<char>, (u64, UserId)>, now: u64) -> Map<
    Seq<char>,
    (u64, UserId),
> {
    Map::new(
        |token: Seq<char>| entries.contains_key(token) && is_live(entries[token].0, now),
        |token: Seq<char>| entries[token],
    )
}

/// The user that `token` is redeemed for at `now`, if it is redeemed.
pub open spec fn redeemed_user(
    entries: Map<Seq<char>, (u64, UserId)>,
    token: Seq<char>,
    now: u64,
) -> Option<UserId> {
    if live_entries(entries, now).contains_key(token) {
        Some(entries[token].1)
    } else {
        None
    }
}

/// The entries that are left after `token` was presented at `now`.
pub open spec fn entries_after_redeem(
    entries: Map<Seq<char>, (u64, UserId)>,
    token: Seq<char>,
    now: u64,
) -> Map<Seq<char>, (u64, UserId)> {
    live_entries(entries, now).remove(token)
}

/// Whether a token issued at `issued_at` can still be redeemed at `now`.
pub fn live(issued_at: u64, now: u64) -> (yes: bool)
    ensures
        yes == is_live(issued_at, now),
{
    now <= issued_at || now - issued_at <= PRE_AUTH_TTL_MILLIS
}

/// The map from a token to the time it was issued at and its user.
pub type TokenMap = DashMap<String, (u64, UserId), RandomState>;

/// What a map of tokens holds: for each token, when it was issued and for
/// whom.
pub uninterp spec fn pre_auth_entries(map: DashMap<String, (u64, UserId), RandomState>) -> Map<
    Seq<char>,
    (u64, UserId),
>;

/// `DashMap::default`: a map without entries.
#[verifier::external_body]
fn empty_map() -> (table: TokenMap)
    ensures
        pre_auth_entries(table) == no_entries(),
{
    DashMap::default()
}

/// `DashMap::insert`: afterwards the key stands for the new value, and
/// every other key for what it stood for before.
#[verifier::external_body]
fn map_insert(
    map: &mut DashMap<String, (u64, UserId), RandomState>,
    token: String,
    issued_at: u64,
    user: UserId,
)
    ensures
        pre_auth_entries(*final(map)) == pre_auth_entries(*old(map)).insert(
            token@,
            (issued_at, user),
        ),
{
    map.insert(token, (issued_at, user));
}

/// `DashMap::retain` with [`live`] as the test: the entries for which the
/// test holds stay, the others leave.
#[verifier::external_body]
fn map_retain_live(map: &mut DashMap<String, (u64, UserId), RandomState>, now: u64)
    ensures
        pre_auth_entries(*final(map)) == live_entries(pre_auth_entries(*old(map)), now),
{
    map.retain(|_, entry| live(entry.0, now));
}

/// `DashMap::remove`: the entry of the key leaves the map, and its user is
/// handed out if there was one.
#[verifier::external_body]
fn map_remove(map: &mut TokenMap, token: &str) -> (user: Option<UserId>)
    ensures
        pre_auth_entries(*final(map)) == pre_auth_entries(*old(map)).remove(token@),
        user == if pre_auth_entries(*old(map)).contains_key(token@) {
            Some(pre_auth_entries(*old(map))[token@].1)
        } else {
            None
        },
{
    map.remove(token).map(|(_, (_, user))| user)
}

/// The tokens that were issued and not yet redeemed.
pub struct PreAuthStore {
    entries: DashMap<String, (u64, UserId), RandomState>,
}

impl View for PreAuthStore {
    type V = Map<Seq<char>, (u64, UserId)>;

    closed spec fn view(&self) -> Map<Seq<char>, (u64, UserId)> {
        pre_auth_entries(self.entries)
    }
}

impl PreAuthStore {
    pub fn new() -> (store: PreAuthStore)
        ensures
            store@ == no_entries(),
    {
        PreAuthStore { entries: empty_map() }
    }

    /// Registers `token` for `user` at `now`. A token that is registered
    /// again stands for the later user.
    pub fn insert(&mut self, token: String, user: UserId, now: u64)
        ensures
            final(self)@ == old(self)@.insert(token@, (now, user)),
    {
        map_insert(&mut self.entries, token, now, user);
    }

    /// Drops every token that can no longer be redeemed at `now`.
    pub fn sweep(&mut self, now: u64)
        ensures
            final(self)@ == live_entries(old(self)@, now),
    {
        map_retain_live(&mut self.entries, now);
    }

    /// Presents `token` at `now`: expired tokens are dropped first, then the
    /// token is taken out of the store if it is there.
    pub fn redeem(&mut self, token: &str, now: u64) -> (user: Option<UserId>)
        ensures
            user == redeemed_user(old(self)@, token@, now),
            final(self)@ == entries_after_redeem(old(self)@, token@, now),
    {
        map_retain_live(&mut self.entries, now);
        map_remove(&mut self.entries, token)
    }
}

/// A token that was registered no more than the time to live ago is
/// redeemed for its user, and for no one a second time.
pub proof fn law_token_is_redeemed_once(
    entries: Map<Seq<char>, (u64, UserId)>,
    token: Seq<char>,
    user: UserId,
    issued_at: u64,
    now: u64,
    later: u64,
)
    requires
        issued_at <= now <= issued_at + PRE_AUTH_TTL_MILLIS,
    ensures
        redeemed_user(entries.insert(token, (issued_at, user)), token, now) == Some(user),
        redeemed_user(
            entries_after_redeem(entries.insert(token, (issued_at, user)), token, now),
            token,
            later,
        ) is None,
{
}

/// A token that was registered longer than the time to live ago is not
/// redeemed, and is gone afterwards.
pub proof fn law_expired_token_is_refused(
    entries: Map<Seq<char>, (u64, UserId)>,
    token: Seq<char>,
    now: u64,
)
    requires
        entries.contains_key(token),
        now > entries[token].0 + PRE_AUTH_TTL_MILLIS,
    ensures
        redeemed_user(entries, token, now) is None,
        !entries_after_redeem(entries, token, now).contains_key(token),
{
}

} // verus!
