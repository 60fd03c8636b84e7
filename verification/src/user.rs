//! Identity tokens for users.

use crate::text::{decimal, push_decimal};
use ahash::RandomState;
use dashmap::DashMap;
use std::collections::hash_map::DefaultHasher;
use std::hash::Hasher;
use vstd::prelude::*;
use vstd::std_specs::hash::DefaultHasherAdditionalSpecFns;
use vstd::string::StringExecFns;

verus! {

/// The 64-bit token that stands for the user named `name`: the digest of a
/// default hasher that was fed the UTF-8 bytes of the name in one write.
pub open spec fn user_hash(name: Seq<char>) -> u64 {
    DefaultHasher::spec_finish(seq![vstd::utf8::encode_utf8(name)])
}

/// Fixed-size identity of a user, derived from the textual user id.
///
/// Two ids are equal exactly if their tokens are.
#[derive(Debug, Clone, Copy, PartialEq, Eq, Hash)]
pub struct UserId {
    hash: u64,
}

impl UserId {
    /// The token this id carries.
    pub closed spec fn token(&self) -> u64 {
        self.hash
    }

    /// The id of the user named `user_id`.
    pub fn new(user_id: &str) -> (id: UserId)
        ensures
            id.token() == user_hash(user_id@),
    {
        let mut hasher = DefaultHasher::new();
        hasher.write(user_id.as_bytes());
        let hash = hasher.finish();
        UserId { hash }
    }

    /// The token this id carries.
    pub fn hash(&self) -> (hash: u64)
        ensures
            hash == self.token(),
    {
        self.hash
    }

    /// How the user is named in a report: by `name` where the name is
    /// known, and by the token otherwise.
    pub open spec fn label(self, name: Option<Seq<char>>) -> Seq<char> {
        match name {
            Some(name) => name,
            None => "user #"@ + decimal(self.token() as nat),
        }
    }

    /// Names the user for a report.
    pub fn describe(&self, name: Option<&str>) -> (label: String)
        ensures
            label@ == self.label(
                match name {
                    Some(name) => Some(name@),
                    None => None,
                },
            ),
    {
        match name {
            Some(name) => String::from_str(name),
            None => {
                let mut label = String::from_str("user #");
                push_decimal(&mut label, self.hash);
                label
            },
        }
    }
}

impl vstd::std_specs::convert::FromSpecImpl<String> for UserId {
    open spec fn obeys_from_spec() -> bool {
        false
    }

    open spec fn from_spec(id: String) -> Self {
        arbitrary()
    }
}

impl From<String> for UserId {
    fn from(id: String) -> (user: UserId)
        ensures
            user.token() == user_hash(id@),
    {
        UserId::new(id.as_str())
    }
}

impl<'a> vstd::std_specs::convert::FromSpecImpl<&'a str> for UserId {
    open spec fn obeys_from_spec() -> bool {
        false
    }

    open spec fn from_spec(id: &'a str) -> Self {
        arbitrary()
    }
}

impl<'a> From<&'a str> for UserId {
    fn from(id: &'a str) -> (user: UserId)
        ensures
            user.token() == user_hash(id@),
    {
        UserId::new(id)
    }
}

/// The same name gives the same id, wherever and whenever it is asked for.
pub proof fn law_same_name_same_id(first: UserId, second: UserId, name: Seq<char>)
    requires
        first.token() == user_hash(name),
        second.token() == user_hash(name),
    ensures
        first == second,
{
}

/// What a table of names holds: for each token that a name was kept for,
/// that name.
pub uninterp spec fn known_names(names: DashMap<u64, String, RandomState>) -> Map<u64, Seq<char>>;

/// The table without a name.
pub open spec fn no_names() -> Map<u64, Seq<char>> {
    Map::empty()
}

/// `DashMap::default`: a map without entries.
#[verifier::external_body]
fn empty_names() -> (names: DashMap<u64, String, RandomState>)
    ensures
        known_names(names) == no_names(),
{
    DashMap::default()
}

/// `DashMap::get`, with a copy of the value where the key is present.
#[verifier::external_body]
fn name_of(names: &DashMap<u64, String, RandomState>, token: u64) -> (name: Option<String>)
    ensures
        name is Some <==> known_names(*names).contains_key(token),
        name is Some ==> name->Some_0@ == known_names(*names)[token],
{
    names.get(&token).map(|entry| entry.value().clone())
}

/// `DashMap::insert`: afterwards the key stands for the new value, and
/// every other key for what it stood for before.
#[verifier::external_body]
fn insert_name(names: &mut DashMap<u64, String, RandomState>, token: u64, name: String)
    ensures
        known_names(*final(names)) == known_names(*old(names)).insert(token, name@),
{
    names.insert(token, name);
}

/// The names after `name` was heard of: where names are retained, the
/// first name that was heard for a token stays with it.
pub open spec fn names_after(names: Map<u64, Seq<char>>, name: Seq<char>, retain: bool) -> Map<
    u64,
    Seq<char>,
> {
    if retain && !names.contains_key(user_hash(name)) {
        names.insert(user_hash(name), name)
    } else {
        names
    }
}

/// The names of the users that were heard of, kept for reports only: an
/// id is told from its token alone.
pub struct UserNames {
    names: DashMap<u64, String, RandomState>,
}

impl View for UserNames {
    type V = Map<u64, Seq<char>>;

    closed spec fn view(&self) -> Map<u64, Seq<char>> {
        known_names(self.names)
    }
}

impl UserNames {
    pub fn new() -> (names: UserNames)
        ensures
            names@ == no_names(),
    {
        UserNames { names: empty_names() }
    }

    /// The id of the user named `name`. The name is kept for reports if
    /// names are retained, which they are while reports are wanted in
    /// detail.
    pub fn remember(&mut self, name: &str, retain: bool) -> (id: UserId)
        ensures
            id.token() == user_hash(name@),
            final(self)@ == names_after(old(self)@, name@, retain),
    {
        let id = UserId::new(name);
        if retain && name_of(&self.names, id.hash).is_none() {
            insert_name(&mut self.names, id.hash, String::from_str(name));
        }
        id
    }

    /// Names the user for a report: by the name that was kept, or else by
    /// the token.
    pub fn describe(&self, user: &UserId) -> (label: String)
        ensures
            label@ == user.label(
                if self@.contains_key(user.token()) {
                    Some(self@[user.token()])
                } else {
                    None
                },
            ),
    {
        match name_of(&self.names, user.hash) {
            Some(name) => user.describe(Some(name.as_str())),
            None => user.describe(None),
        }
    }
}

/// A name that was kept is the name that the user is reported by, and a
/// user whose name was not kept is reported by the token.
pub proof fn law_kept_name_is_reported(
    names: Map<u64, Seq<char>>,
    name: Seq<char>,
    user: UserId,
)
    requires
        user.token() == user_hash(name),
        !names.contains_key(user.token()),
    ensures
        user.label(
            if names_after(names, name, true).contains_key(user.token()) {
                Some(names_after(names, name, true)[user.token()])
            } else {
                None
            },
        ) == name,
        user.label(
            if names_after(names, name, false).contains_key(user.token()) {
                Some(names_after(names, name, false)[user.token()])
            } else {
                None
            },
        ) == "user #"@ + decimal(user.token() as nat),
{
}

} // verus!
