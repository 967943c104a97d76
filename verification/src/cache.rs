//! The per-connection prepared-statement cache.
//!
//! A bounded least-recently-used map from exact SQL text to a prepared
//! statement handle and its declared parameter count. Capacity zero disables
//! caching entirely: it is used when a pooled connection is not guaranteed to
//! be the same physical backend across calls, where server-side prepared
//! statements would silently become invalid.

use vstd::prelude::*;

verus! {

/// A prepared statement as the cache stores it: the driver-side handle and
/// the statement's declared parameter count.
pub type CachedStatement = (u64, usize);

/// The concrete least-recently-used map the cache is built on.
pub type StmtLru = lru_cache::LruCache<String, CachedStatement>;

#[verifier::external_type_specification]
#[verifier::external_body]
#[verifier::reject_recursive_types(K)]
#[verifier::reject_recursive_types(V)]
#[verifier::reject_recursive_types(S)]
pub struct ExLruCache<K: Eq + std::hash::Hash, V, S: std::hash::BuildHasher>(
    lru_cache::LruCache<K, V, S>,
);

/// A cache-contents map with nothing in it.
pub open spec fn no_entries() -> Map<Seq<char>, CachedStatement> {
    Map::empty()
}

/// What the cache currently stores, keyed by exact SQL text.
pub uninterp spec fn lru_entries(c: StmtLru) -> Map<Seq<char>, CachedStatement>;

/// The bound the cache was created with.
pub uninterp spec fn lru_capacity(c: StmtLru) -> nat;

/// Relies on lru_cache::LruCache::new: the cache starts empty and holds at
/// most `capacity` entries.
#[verifier::external_body]
fn lru_new(capacity: usize) -> (r: StmtLru)
    ensures
        lru_entries(r) == no_entries(),
        lru_capacity(r) == capacity as nat,
{
    lru_cache::LruCache::new(capacity)
}

/// Relies on lru_cache::LruCache::get_mut: returns the value stored for the
/// key, refreshing its recency; the stored entries themselves are unchanged.
#[verifier::external_body]
fn lru_get(c: &mut StmtLru, key: &String) -> (r: Option<CachedStatement>)
    ensures
        lru_entries(*final(c)) == lru_entries(*old(c)),
        lru_capacity(*final(c)) == lru_capacity(*old(c)),
        r == (if lru_entries(*old(c)).dom().contains(key@) {
            Some(lru_entries(*old(c))[key@])
        } else {
            None::<CachedStatement>
        }),
{
    c.get_mut(key).map(|v| *v)
}

/// Relies on lru_cache::LruCache::len: the number of entries the cache
/// currently stores.
#[verifier::external_body]
fn lru_len(c: &StmtLru) -> (r: usize)
    ensures
        r as nat == lru_entries(*c).dom().len(),
{
    c.len()
}

/// Relies on lru_cache::LruCache::insert: stores the pair as the most
/// recently used entry; when the cache would exceed its capacity, the least
/// recently used entry is evicted, so with capacity at least one the inserted
/// pair survives, and with capacity zero it is evicted at once. No entry
/// changes its value other than the inserted key, and nothing else is added.
#[verifier::external_body]
fn lru_insert(c: &mut StmtLru, key: &String, value: CachedStatement)
    ensures
        lru_capacity(*final(c)) == lru_capacity(*old(c)),
        lru_capacity(*old(c)) > 0 ==> lru_entries(*final(c)).contains_pair(key@, value),
        forall|k: Seq<char>| #[trigger] lru_entries(*final(c)).dom().contains(k)
            ==> k == key@ || lru_entries(*old(c)).dom().contains(k),
        forall|k: Seq<char>| #[trigger] lru_entries(*final(c)).dom().contains(k) && k != key@
            ==> lru_entries(*final(c))[k] == lru_entries(*old(c))[k],
        (lru_entries(*old(c)).dom().finite()
            && lru_entries(*old(c)).dom().len() <= lru_capacity(*old(c)))
            ==> (lru_entries(*final(c)).dom().finite()
                && lru_entries(*final(c)).dom().len() <= lru_capacity(*old(c))),
{
    c.insert(key.clone(), value);
}

/// What a lookup finds in the given cache contents: the entry stored under
/// the exact text, if any.
pub open spec fn lookup_spec(entries: Map<Seq<char>, CachedStatement>, sql: Seq<char>) -> Option<
    CachedStatement,
> {
    if entries.dom().contains(sql) {
        Some(entries[sql])
    } else {
        None
    }
}

/// Law: a statement just stored under positive capacity is found by the next
/// lookup of the same text, and under capacity zero nothing is ever found.
/// The premises are what [`StatementCache::store`] ensures about the cache's
/// contents; the conclusions are what [`StatementCache::lookup`] returns on
/// those contents.
pub proof fn lemma_store_then_lookup(
    entries_after: Map<Seq<char>, CachedStatement>,
    sql: Seq<char>,
    stmt: CachedStatement,
    capacity: nat,
)
    requires
        capacity > 0 ==> entries_after.contains_pair(sql, stmt),
        capacity == 0 ==> entries_after == no_entries(),
    ensures
        capacity > 0 ==> lookup_spec(entries_after, sql) == Some(stmt),
        capacity == 0 ==> lookup_spec(entries_after, sql) == None::<CachedStatement>,
{
}

/// Increments a diagnostic counter, sticking at the maximum.
pub open spec fn bump(x: u64) -> u64 {
    if x == 0xffff_ffff_ffff_ffff {
        x
    } else {
        (x + 1) as u64
    }
}

/// A bounded least-recently-used map from SQL text to prepared statements,
/// with hit and miss counts for diagnostics.
pub struct StatementCache {
    inner: StmtLru,
    capacity: usize,
    hits: u64,
    misses: u64,
}

impl StatementCache {
    /// What the cache currently stores, keyed by exact SQL text.
    pub closed spec fn entries(&self) -> Map<Seq<char>, CachedStatement> {
        lru_entries(self.inner)
    }

    /// The bound the cache was created with; zero disables caching.
    pub closed spec fn capacity_spec(&self) -> nat {
        self.capacity as nat
    }

    /// How many lookups found their statement.
    pub closed spec fn hits_spec(&self) -> u64 {
        self.hits
    }

    /// How many lookups missed.
    pub closed spec fn misses_spec(&self) -> u64 {
        self.misses
    }

    /// The cache never stores more entries than its capacity; in particular
    /// a cache bounded at zero holds nothing, ever.
    pub closed spec fn wf(&self) -> bool {
        &&& lru_capacity(self.inner) == self.capacity as nat
        &&& lru_entries(self.inner).dom().finite()
        &&& lru_entries(self.inner).dom().len() <= self.capacity as nat
        &&& (self.capacity == 0 ==> lru_entries(self.inner) == no_entries())
    }

    /// Law: a cache bounded at zero holds nothing, so every lookup on it
    /// misses, whatever was stored before.
    pub proof fn lemma_zero_capacity_is_empty(&self)
        requires
            self.wf(),
            self.capacity_spec() == 0,
        ensures
            self.entries() == no_entries(),
            forall|sql: Seq<char>| #[trigger] lookup_spec(self.entries(), sql) is None,
    {
    }

    /// An empty cache bounded by `capacity`.
    pub fn new(capacity: usize) -> (r: StatementCache)
        ensures
            r.wf(),
            r.capacity_spec() == capacity as nat,
            r.entries() == no_entries(),
            r.hits_spec() == 0,
            r.misses_spec() == 0,
    {
        let inner = lru_new(capacity);
        StatementCache { inner, capacity, hits: 0, misses: 0 }
    }

    /// The bound the cache was created with.
    pub fn capacity(&self) -> (r: usize)
        ensures
            r as nat == self.capacity_spec(),
    {
        self.capacity
    }

    /// How many lookups found their statement.
    pub fn hits(&self) -> (r: u64)
        ensures
            r == self.hits_spec(),
    {
        self.hits
    }

    /// How many lookups missed.
    pub fn misses(&self) -> (r: u64)
        ensures
            r == self.misses_spec(),
    {
        self.misses
    }

    /// How many statements the cache currently stores, for the hit and miss
    /// observations beside the capacity.
    pub fn len(&self) -> (r: usize)
        ensures
            r as nat == self.entries().dom().len(),
    {
        lru_len(&self.inner)
    }

    /// Looks the SQL text up by exact string equality. A hit returns the
    /// cached statement and counts as a hit; a miss counts as a miss. The
    /// stored entries are unchanged either way, so with capacity zero every
    /// lookup misses.
    pub fn lookup(&mut self, sql: &String) -> (r: Option<CachedStatement>)
        requires
            old(self).wf(),
        ensures
            final(self).wf(),
            final(self).capacity_spec() == old(self).capacity_spec(),
            final(self).entries() == old(self).entries(),
            r == lookup_spec(old(self).entries(), sql@),
            r is Some ==> final(self).hits_spec() == bump(old(self).hits_spec())
                && final(self).misses_spec() == old(self).misses_spec(),
            r is None ==> final(self).misses_spec() == bump(old(self).misses_spec())
                && final(self).hits_spec() == old(self).hits_spec(),
    {
        let r = lru_get(&mut self.inner, sql);
        match r {
            Some(_) => {
                if self.hits < u64::MAX {
                    self.hits = self.hits + 1;
                }
            }
            None => {
                if self.misses < u64::MAX {
                    self.misses = self.misses + 1;
                }
            }
        }
        r
    }

    /// Stores a freshly prepared statement. With capacity at least one the
    /// statement is cached afterwards; with capacity zero nothing is ever
    /// retained. At most the least-recently-used entry is evicted to make
    /// room, and no other entry changes.
    pub fn store(&mut self, sql: &String, handle: u64, param_count: usize)
        requires
            old(self).wf(),
        ensures
            final(self).wf(),
            final(self).capacity_spec() == old(self).capacity_spec(),
            final(self).hits_spec() == old(self).hits_spec(),
            final(self).misses_spec() == old(self).misses_spec(),
            old(self).capacity_spec() > 0 ==> final(self).entries().contains_pair(
                sql@,
                (handle, param_count),
            ),
            old(self).capacity_spec() == 0 ==> final(self).entries() == no_entries(),
            forall|k: Seq<char>| #[trigger] final(self).entries().dom().contains(k)
                ==> k == sql@ || old(self).entries().dom().contains(k),
            forall|k: Seq<char>| #[trigger] final(self).entries().dom().contains(k) && k != sql@
                ==> final(self).entries()[k] == old(self).entries()[k],
    {
        lru_insert(&mut self.inner, sql, (handle, param_count));
        proof {
            if self.capacity as nat == 0 {
                lru_entries(self.inner).dom().lemma_len0_is_empty();
                assert(lru_entries(self.inner) =~= no_entries());
            }
        }
    }
}

} // verus!
