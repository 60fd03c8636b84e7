//! Who may see which part of a storage, and the cache of the answers.

use crate::metrics::{wrapping_next, Counters, Metrics};
use crate::random::random_between;
use crate::text::starts_with;
use crate::user::UserId;
use ahash::RandomState;
use dashmap::DashMap;
use vstd::prelude::*;
use vstd::string::StringExecFns;

verus! {

/// A cached mapping is good for at least this many milliseconds,
pub const MAPPING_TTL_LOW: u64 = 4 * 60 * 1000;

/// and for less than this many.
pub const MAPPING_TTL_HIGH: u64 = 5 * 60 * 1000;

/// A user, and the root below which the user sees a storage.
pub type Access = (UserId, Seq<char>);

/// Whether a grant with the root `root` lets its user see `path`: the
/// empty path stands for the storage as a whole, which every grant lets
/// see; any other path is seen where the root is a prefix of it.
pub open spec fn sees(root: Seq<char>, path: Seq<char>) -> bool {
    path.len() == 0 || root.is_prefix_of(path)
}

/// The users of `access` that see `path`, in the order of `access`. For
/// the empty path that is the user of every grant; for any other path it
/// is the user of every grant whose root is a prefix of the path. A user
/// is named once for each such grant.
pub open spec fn recipients(access: Seq<Access>, path: Seq<char>) -> Seq<UserId> {
    if path.len() == 0 {
        access.map_values(|entry: Access| entry.0)
    } else {
        access.filter(|entry: Access| entry.1.is_prefix_of(path)).map_values(
            |entry: Access| entry.0,
        )
    }
}

/// The time a mapping stays valid until, when it is loaded at `now` and
/// good for `ttl`.
pub open spec fn valid_until(now: u64, ttl: u64) -> u64 {
    if now + ttl > u64::MAX {
        u64::MAX
    } else {
        (now + ttl) as u64
    }
}

/// The grant of access to a part of a storage to one user.
#[derive(Debug, Clone)]
pub struct UserStorageAccess {
    user: UserId,
    root: String,
}

impl View for UserStorageAccess {
    type V = Access;

    closed spec fn view(&self) -> Access {
        (self.user, self.root@)
    }
}

impl UserStorageAccess {
    pub fn new(user: UserId, root: String) -> (access: UserStorageAccess)
        ensures
            access@ == (user, root@),
    {
        UserStorageAccess { user, root }
    }

    pub fn user(&self) -> (user: UserId)
        ensures
            user == self@.0,
    {
        self.user
    }

    /// Whether the grant lets its user see `path`.
    pub fn covers(&self, path: &str) -> (yes: bool)
        ensures
            yes == sees(self@.1, path@),
    {
        path.is_empty() || starts_with(path, self.root.as_str())
    }
}

/// The grants of a run of entries.
pub open spec fn grants(entries: Seq<UserStorageAccess>) -> Seq<Access> {
    entries.map_values(|entry: UserStorageAccess| entry@)
}

/// A cached mapping as a mathematical value.
pub struct Cached {
    pub access: Seq<Access>,
    pub valid_till: u64,
}

/// The grants of one storage, and how long they may be relied on.
#[derive(Debug, Clone)]
pub struct CachedAccess {
    access: Vec<UserStorageAccess>,
    valid_till: u64,
}

impl View for CachedAccess {
    type V = Cached;

    closed spec fn view(&self) -> Cached {
        Cached { access: grants(self.access@), valid_till: self.valid_till }
    }
}

impl CachedAccess {
    /// The mapping that was loaded at `now` and is good for `ttl`
    /// milliseconds.
    pub fn with_ttl(access: Vec<UserStorageAccess>, now: u64, ttl: u64) -> (cached: CachedAccess)
        ensures
            cached@ == (Cached { access: grants(access@), valid_till: valid_until(now, ttl) }),
    {
        CachedAccess { access, valid_till: now.saturating_add(ttl) }
    }

    /// The mapping that was loaded at `now`. How long it is good for is
    /// chosen at random, so that mappings loaded together do not expire
    /// together.
    pub fn new(access: Vec<UserStorageAccess>, now: u64) -> (cached: CachedAccess)
        ensures
            cached@.access == grants(access@),
            exists|ttl: u64|
                MAPPING_TTL_LOW <= ttl < MAPPING_TTL_HIGH && cached@.valid_till == valid_until(
                    now,
                    ttl,
                ),
    {
        let ttl = random_between(MAPPING_TTL_LOW, MAPPING_TTL_HIGH);
        CachedAccess::with_ttl(access, now, ttl)
    }

    /// Whether the mapping may still be relied on at `now`.
    pub fn is_valid(&self, now: u64) -> (valid: bool)
        ensures
            valid == (self@.valid_till > now),
    {
        self.valid_till > now
    }

    /// The users that see `path`.
    pub fn users_for_path(&self, path: &str) -> (users: Vec<UserId>)
        ensures
            users@ == recipients(self@.access, path@),
    {
        let mut users: Vec<UserId> = Vec::new();
        let mut i: usize = 0;
        let ghost all = grants(self.access@);
        if path.is_empty() {
            while i < self.access.len()
                invariant
                    i <= self.access.len(),
                    all == grants(self.access@),
                    users@ == all.subrange(0, i as int).map_values(|entry: Access| entry.0),
                decreases self.access.len() - i,
            {
                users.push(self.access[i].user());
                i += 1;
                assert(users@ =~= all.subrange(0, i as int).map_values(|entry: Access| entry.0));
            }
            assert(all.subrange(0, i as int) =~= all);
            return users;
        }
        assert(all.subrange(0, 0) =~= Seq::<Access>::empty());
        while i < self.access.len()
            invariant
                i <= self.access.len(),
                path@.len() > 0,
                all == grants(self.access@),
                users@ == recipients(all.subrange(0, i as int), path@),
            decreases self.access.len() - i,
        {
            let entry = &self.access[i];
            proof {
                let seen = all.subrange(0, i as int);
                let more = all.subrange(0, i + 1);
                let covers = |entry: Access| entry.1.is_prefix_of(path@);
                assert(more =~= seen.push(all[i as int]));
                assert(more.drop_last() =~= seen);
                reveal(Seq::filter);
                assert(more.filter(covers) == if covers(all[i as int]) {
                    seen.filter(covers).push(all[i as int])
                } else {
                    seen.filter(covers)
                });
                assert(all[i as int] == entry@);
            }
            if entry.covers(path) {
                users.push(entry.user());
            }
            i += 1;
            assert(users@ =~= recipients(all.subrange(0, i as int), path@));
        }
        assert(all.subrange(0, i as int) =~= all);
        users
    }
}

/// A table of a database that holds the mounts and the file cache.
#[derive(Debug, Clone, Copy, PartialEq, Eq, Structural)]
pub enum Backend {
    Postgres,
    MySql,
    Sqlite,
}

impl Backend {
    /// How the backend writes the one parameter of a query.
    pub open spec fn placeholder(self) -> Seq<char> {
        match self {
            Backend::Postgres => "$1"@,
            _ => "?"@,
        }
    }
}

/// The kind of database that the connect url `url` names.
pub open spec fn backend_named(url: Seq<char>) -> Backend {
    if "postgres:"@.is_prefix_of(url) || "postgresql:"@.is_prefix_of(url) {
        Backend::Postgres
    } else if "mysql:"@.is_prefix_of(url) || "mariadb:"@.is_prefix_of(url) {
        Backend::MySql
    } else {
        Backend::Sqlite
    }
}

/// Tells the kind of database from its connect url.
pub fn backend_of(url: &str) -> (backend: Backend)
    ensures
        backend == backend_named(url@),
{
    if starts_with(url, "postgres:") || starts_with(url, "postgresql:") {
        Backend::Postgres
    } else if starts_with(url, "mysql:") || starts_with(url, "mariadb:") {
        Backend::MySql
    } else {
        Backend::Sqlite
    }
}

/// The query for the grants of the storage that is bound to its parameter.
pub open spec fn mapping_query(prefix: Seq<char>, backend: Backend) -> Seq<char> {
    "SELECT user_id, path FROM "@ + prefix + "mounts INNER JOIN "@ + prefix
        + "filecache ON root_id = fileid WHERE storage_id = "@ + backend.placeholder()
}

/// What a cache holds: the mapping of each storage that has one.
pub uninterp spec fn cached_mappings(cache: DashMap<u32, CachedAccess, RandomState>) -> Map<
    u32,
    Cached,
>;

/// The cache without a mapping.
pub open spec fn no_mappings() -> Map<u32, Cached> {
    Map::empty()
}

/// `DashMap::default`: a map without entries.
#[verifier::external_body]
fn empty_cache() -> (cache: DashMap<u32, CachedAccess, RandomState>)
    ensures
        cached_mappings(cache) == no_mappings(),
{
    DashMap::default()
}

/// `DashMap::get`, with a copy of the value where the key is present.
#[verifier::external_body]
fn cache_get(cache: &DashMap<u32, CachedAccess, RandomState>, storage: u32) -> (cached: Option<
    CachedAccess,
>)
    ensures
        cached is Some <==> cached_mappings(*cache).contains_key(storage),
        cached is Some ==> cached->Some_0@ == cached_mappings(*cache)[storage],
{
    cache.get(&storage).map(|entry| entry.value().clone())
}

/// `DashMap::insert`: afterwards the key stands for the new value, and
/// every other key for what it stood for before.
#[verifier::external_body]
fn cache_insert(
    cache: &mut DashMap<u32, CachedAccess, RandomState>,
    storage: u32,
    cached: CachedAccess,
)
    ensures
        cached_mappings(*final(cache)) == cached_mappings(*old(cache)).insert(storage, cached@),
{
    cache.insert(storage, cached);
}

/// The users that the cache names for `path` on `storage` at `now`; `None`
/// where it holds no mapping of the storage that is still valid.
pub open spec fn cached_recipients(
    mappings: Map<u32, Cached>,
    storage: u32,
    path: Seq<char>,
    now: u64,
) -> Option<Seq<UserId>> {
    if mappings.contains_key(storage) && mappings[storage].valid_till > now {
        Some(recipients(mappings[storage].access, path))
    } else {
        None
    }
}

/// The cache of the grants of each storage.
pub struct StorageMapping {
    cache: DashMap<u32, CachedAccess, RandomState>,
    prefix: String,
}

impl StorageMapping {
    /// The mappings that are cached.
    pub closed spec fn mappings(&self) -> Map<u32, Cached> {
        cached_mappings(self.cache)
    }

    /// The prefix of the names of the tables.
    pub closed spec fn prefix(&self) -> Seq<char> {
        self.prefix@
    }

    /// An empty cache for a database whose tables are named with `prefix`.
    pub fn new(prefix: String) -> (mapping: StorageMapping)
        ensures
            mapping.mappings() == no_mappings(),
            mapping.prefix() == prefix@,
    {
        StorageMapping { cache: empty_cache(), prefix }
    }

    /// The users that see `path` on `storage`, as far as the cache knows at
    /// `now`. Where it does not, the mapping has to be loaded with
    /// [`StorageMapping::query`] and handed to
    /// [`StorageMapping::load_storage_mapping`].
    pub fn get_users_for_storage_path(&self, storage: u32, path: &str, now: u64) -> (users: Option<
        Vec<UserId>,
    >)
        ensures
            match cached_recipients(self.mappings(), storage, path@, now) {
                Some(expected) => users is Some && users->Some_0@ == expected,
                None => users is None,
            },
    {
        match cache_get(&self.cache, storage) {
            Some(cached) => {
                if cached.is_valid(now) {
                    Some(cached.users_for_path(path))
                } else {
                    None
                }
            },
            None => None,
        }
    }

    /// The text of the query that loads the grants of a storage.
    pub fn query(&self, backend: Backend) -> (text: String)
        ensures
            text@ == mapping_query(self.prefix(), backend),
    {
        let placeholder = match backend {
            Backend::Postgres => "$1",
            _ => "?",
        };
        String::from_str("SELECT user_id, path FROM ").concat(self.prefix.as_str()).concat(
            "mounts INNER JOIN ",
        ).concat(self.prefix.as_str()).concat(
            "filecache ON root_id = fileid WHERE storage_id = ",
        ).concat(placeholder)
    }

    /// Takes in the grants of `storage` that the database gave at `now`,
    /// and hands out the users that see `path`. The grants are kept as they
    /// came: in the order of the database, and with what it repeated.
    pub fn load_storage_mapping(
        &mut self,
        storage: u32,
        path: &str,
        access: Vec<UserStorageAccess>,
        now: u64,
        metrics: &mut Metrics,
    ) -> (users: Vec<UserId>)
        ensures
            users@ == recipients(grants(access@), path@),
            final(self).prefix() == old(self).prefix(),
            final(self).mappings().dom() == old(self).mappings().dom().insert(storage),
            forall|other: u32|
                other != storage && old(self).mappings().contains_key(other) ==> #[trigger] final(self)
                    .mappings()[other] == old(self).mappings()[other],
            final(self).mappings()[storage].access == grants(access@),
            exists|ttl: u64|
                MAPPING_TTL_LOW <= ttl < MAPPING_TTL_HIGH && final(self).mappings()[storage].valid_till
                    == valid_until(now, ttl),
            final(metrics)@ == (Counters {
                mapping_query_count: wrapping_next(old(metrics)@.mapping_query_count),
                ..old(metrics)@
            }),
    {
        metrics.add_mapping_query();
        let cached = CachedAccess::new(access, now);
        let users = cached.users_for_path(path);
        cache_insert(&mut self.cache, storage, cached);
        users
    }
}

/// The empty path selects the user of every grant of a storage, whatever
/// the roots are: as many users as there are grants, in their order.
pub proof fn law_empty_path(access: Seq<Access>)
    ensures
        recipients(access, Seq::empty()) == access.map_values(|entry: Access| entry.0),
        recipients(access, Seq::empty()).len() == access.len(),
        forall|i: int|
            0 <= i < access.len() ==> #[trigger] recipients(access, Seq::empty())[i] == access[i].0,
{
}

/// A path selects the users of the grants that let it be seen, and no
/// others.
pub proof fn law_recipients_are_covered(access: Seq<Access>, path: Seq<char>, user: UserId)
    ensures
        recipients(access, path).contains(user) <==> exists|i: int|
            0 <= i < access.len() && access[i].0 == user && sees(access[i].1, path),
{
    let users = recipients(access, path);
    if path.len() == 0 {
        if users.contains(user) {
            let k = choose|k: int| 0 <= k < users.len() && users[k] == user;
            assert(access[k].0 == user && sees(access[k].1, path));
        }
        if exists|i: int| 0 <= i < access.len() && access[i].0 == user && sees(access[i].1, path) {
            let i = choose|i: int|
                0 <= i < access.len() && access[i].0 == user && sees(access[i].1, path);
            assert(users[i] == user);
        }
    } else {
        let covers = |entry: Access| entry.1.is_prefix_of(path);
        let kept = access.filter(covers);
        assert(users == kept.map_values(|entry: Access| entry.0));
        if users.contains(user) {
            let k = choose|k: int| 0 <= k < users.len() && users[k] == user;
            access.lemma_filter_pred(covers, k);
            assert(kept.contains(kept[k]));
            access.lemma_filter_contains_rev(covers, kept[k]);
            let i = choose|i: int| 0 <= i < access.len() && access[i] == kept[k];
            assert(access[i].0 == user && sees(access[i].1, path));
        }
        if exists|i: int| 0 <= i < access.len() && access[i].0 == user && sees(access[i].1, path) {
            let i = choose|i: int|
                0 <= i < access.len() && access[i].0 == user && sees(access[i].1, path);
            assert(covers(access[i]));
            access.lemma_filter_contains(covers, i);
            let k = choose|k: int| 0 <= k < kept.len() && kept[k] == access[i];
            assert(users[k] == user);
        }
    }
}

} // verus!
