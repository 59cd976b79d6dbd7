//! The correlation cache: a process-wide, concurrency-safe ledger mapping the
//! hex string of a trace identifier to the in-flight trace context. It is the
//! only bridge between a request's otherwise independent callback
//! invocations. Entries are removed at span completion; the bounded capacity
//! with eviction is a safety net against requests whose terminal phase never
//! fires.

use vstd::prelude::*;

use crate::span::TraceContext;

verus! {

/// The fixed capacity the cache is created with: large enough that eviction
/// never occurs under normal operation.
pub const CACHE_CAPACITY: usize = 1000000;

/// A bounded concurrent cache from hex trace-identifier strings to trace
/// contexts, with least-recently-used-style eviction.
#[verifier::external_body]
pub struct CorrelationCache {
    inner: quick_cache::sync::Cache<String, TraceContext>,
}

/// The entries the cache currently holds, as a map from key to context.
pub uninterp spec fn cache_entries(c: CorrelationCache) -> Map<Seq<char>, TraceContext>;

/// Non-destructive lookup in an entry map.
pub open spec fn lookup(m: Map<Seq<char>, TraceContext>, k: Seq<char>) -> Option<TraceContext> {
    if m.dom().contains(k) {
        Some(m[k])
    } else {
        None
    }
}

/// What an insertion guarantees: afterwards the key maps to the stored
/// context, and every other entry was already present before — the insertion
/// may evict entries (capacity pressure) but never invents or reorders any.
pub open spec fn store_post(
    pre: Map<Seq<char>, TraceContext>,
    post: Map<Seq<char>, TraceContext>,
    k: Seq<char>,
    v: TraceContext,
) -> bool {
    &&& post.dom().contains(k)
    &&& post[k] == v
    &&& forall|j: Seq<char>|
        #[trigger] post.dom().contains(j) && j != k ==> pre.dom().contains(j) && post[j] == pre[j]
}

/// An entry map with nothing in it.
pub open spec fn no_entries(m: Map<Seq<char>, TraceContext>) -> bool {
    m == Map::<Seq<char>, TraceContext>::empty()
}

impl CorrelationCache {
    /// Creates the cache with the fixed capacity.
    ///
    /// Relies on `quick_cache::sync::Cache::new`: a freshly created cache
    /// holds no entries.
    #[verifier::external_body]
    pub fn new() -> (r: CorrelationCache)
        ensures
            no_entries(cache_entries(r)),
    {
        CorrelationCache { inner: quick_cache::sync::Cache::new(CACHE_CAPACITY) }
    }

    /// Non-destructive lookup; absence means "no active trace for this
    /// request" and callers degrade gracefully.
    ///
    /// Relies on `quick_cache::sync::Cache::get`: returns a clone of the
    /// entry under this key if one is resident, and nothing otherwise; the
    /// derived `Clone` of the stored value is value-preserving.
    #[verifier::external_body]
    pub fn get(&self, key: &str) -> (r: Option<TraceContext>)
        ensures
            r == lookup(cache_entries(*self), key@),
    {
        self.inner.get(key)
    }

    /// Inserts or overwrites; last write wins.
    ///
    /// Relies on `quick_cache::sync::Cache::remove` and
    /// `quick_cache::sync::Cache::insert`. The removal clears whatever the
    /// cache holds under this key — a resident entry or the ghost left
    /// behind by an earlier eviction — so the insertion takes the fresh-key
    /// path: it makes room first (possibly evicting other entries, altering
    /// none) and links the new entry last, which is therefore resident when
    /// the call returns. Inserting without the removal would not support
    /// this contract: a ghost of the key in a shard at weight capacity is
    /// re-admitted unreferenced and can be evicted within the same call.
    #[verifier::external_body]
    pub fn store(&mut self, key: String, ctx: TraceContext)
        ensures
            store_post(cache_entries(*old(self)), cache_entries(*final(self)), key@, ctx),
    {
        self.inner.remove(&key);
        self.inner.insert(key, ctx);
    }

    /// Destructively takes the entry; idempotent, a second removal of the
    /// same key yields nothing.
    ///
    /// Relies on `quick_cache::sync::Cache::remove`: removes exactly the
    /// entry under this key, if any, and returns it.
    #[verifier::external_body]
    pub fn remove(&mut self, key: &str) -> (r: Option<TraceContext>)
        ensures
            r == lookup(cache_entries(*old(self)), key@),
            cache_entries(*final(self)) == cache_entries(*old(self)).remove(key@),
    {
        self.inner.remove(key).map(|(_, v)| v)
    }
}

/// Law: a store followed by a lookup of the same key returns the stored
/// context, whatever else the insertion may have evicted.
pub proof fn lemma_store_then_get(
    pre: Map<Seq<char>, TraceContext>,
    post: Map<Seq<char>, TraceContext>,
    k: Seq<char>,
    v: TraceContext,
)
    requires
        store_post(pre, post, k, v),
    ensures
        lookup(post, k) == Some(v),
{
}

/// Law: removal is destructive and idempotent — after a removal the key is
/// gone, a lookup returns nothing, and removing it again changes nothing and
/// yields nothing.
pub proof fn lemma_remove_idempotent(m: Map<Seq<char>, TraceContext>, k: Seq<char>)
    ensures
        lookup(m.remove(k), k) == None::<TraceContext>,
        m.remove(k).remove(k) == m.remove(k),
        lookup(m.remove(k).remove(k), k) == None::<TraceContext>,
{
    assert(m.remove(k).remove(k) =~= m.remove(k));
}

} // verus!
