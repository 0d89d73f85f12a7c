//! Raptor-10 binary HDPC precode whose LU factorisation of `I' + D_s S_h`
//! is kept in a cache that several precodes can share.

use std::sync::Arc;
use std::sync::OnceLock;

use fountain_scheme::precodes::hdpc_binary::R10HDPC;
use vstd::prelude::*;

verus! {

#[verifier::external_type_specification]
#[verifier::external_body]
pub struct ExR10HDPC(R10HDPC);

#[verifier::external_type_specification]
#[verifier::external_body]
#[verifier::reject_recursive_types(T)]
pub struct ExOnceLock<T>(OnceLock<T>);

/// The code parameters that decide whether a cached LU factorisation
/// belongs to a code: the numbers of message (`k`), active (`a`), LDPC (`l`)
/// and HDPC (`h`) vectors.
#[derive(Clone, Copy, Debug, PartialEq, Eq, Structural)]
pub struct LuParams {
    pub k: usize,
    pub a: usize,
    pub l: usize,
    pub h: usize,
}

/// A cached factorisation: the parameters it was computed for, the row
/// permutation `p` and the `h x h` matrix in L/U layout.
pub type LuEntry = (LuParams, Vec<usize>, Vec<Vec<u8>>);

/// A shared, write-once cache of one LU factorisation.
pub type LuCache = Arc<OnceLock<LuEntry>>;

/// `R10HDPC::new` of fountain_scheme: builds the (field-less) Raptor-10
/// binary HDPC precode. Nothing is stated of the value, which Verus sees as
/// opaque.
#[verifier::external_body]
fn r10_hdpc_new() -> R10HDPC {
    R10HDPC::new()
}

/// `OnceLock::get` of std: the cached value if the lock has been set. Which
/// of the two comes back depends on what the holders of the same lock did
/// before the call, so nothing is stated of the result.
#[verifier::external_body]
fn once_lock_get<T>(lock: &OnceLock<T>) -> Option<&T> {
    lock.get()
}

/// `OnceLock::set` of std: sets the lock if it is empty and returns `Ok`;
/// otherwise leaves it as it is and hands `value` back in `Err`. Whether the
/// lock was empty depends on the other holders, so only what comes back in
/// `Err` is stated.
#[verifier::external_body]
fn once_lock_set<T>(lock: &OnceLock<T>, value: T) -> (r: Result<(), T>)
    ensures
        r matches Err(v) ==> v == value,
{
    lock.set(value)
}

/// A cached factorisation serves `params` exactly when it was computed for
/// the same `k`, `a`, `l` and `h`.
pub open spec fn entry_serves(entry: LuEntry, params: LuParams) -> bool {
    entry.0 == params
}

/// An entry serves a code exactly when it was computed for the same numbers
/// of message, active, LDPC and HDPC vectors: a factorisation for other
/// parameters, larger or smaller, is never served.
pub proof fn lemma_entry_serves_same_params(entry: LuEntry, params: LuParams)
    ensures
        entry_serves(entry, params) <==> (entry.0.k == params.k && entry.0.a == params.a
            && entry.0.l == params.l && entry.0.h == params.h),
{
}

/// Raptor-10 binary HDPC precode with a shared LU cache.
pub struct CachedR10HDPC {
    inner: R10HDPC,
    cached_lu: LuCache,
}

impl CachedR10HDPC {
    /// The cache this precode reads and fills.
    pub closed spec fn cache(&self) -> LuCache {
        self.cached_lu
    }

    /// Creates a new Raptor-10 binary HDPC precode that uses `cache`.
    pub fn new(cache: LuCache) -> (s: Self)
        ensures
            s.cache() == cache,
    {
        CachedR10HDPC { inner: r10_hdpc_new(), cached_lu: cache }
    }

    /// The uncached Raptor-10 HDPC precode this one wraps.
    pub closed spec fn inner_precode(&self) -> R10HDPC {
        self.inner
    }

    /// The uncached Raptor-10 HDPC precode that does the work.
    pub fn inner(&self) -> (r: &R10HDPC)
        ensures
            *r == self.inner_precode(),
    {
        &self.inner
    }

    /// What a cache entry, if there is one, gives for `params`: a copy of
    /// the permutation and the matrix when the entry serves `params`,
    /// `None` otherwise.
    pub fn lookup_lu(cached: Option<&LuEntry>, params: &LuParams) -> (r: Option<(Vec<usize>, Vec<Vec<u8>>)>)
        ensures
            r is Some <==> (cached is Some && entry_serves(*cached.unwrap(), *params)),
            r is Some <==> (cached is Some && cached.unwrap().0.k == params.k
                && cached.unwrap().0.a == params.a && cached.unwrap().0.l == params.l
                && cached.unwrap().0.h == params.h),
            r is Some ==> r.unwrap().0@ == cached.unwrap().1@
                && r.unwrap().1.deep_view() == cached.unwrap().2.deep_view(),
    {
        match cached {
            Some(entry) => {
                if entry.0.k == params.k && entry.0.a == params.a && entry.0.l == params.l
                    && entry.0.h == params.h {
                    let p = entry.1.clone();
                    let m = entry.2.clone();
                    Some((p, m))
                } else {
                    None
                }
            },
            None => None,
        }
    }

    /// The cached factorisation for `params`, if the cache holds one that
    /// serves them: `lookup_lu` applied to what the cache holds at the time of
    /// the call. What it holds depends on the other holders of the cache, so
    /// the contract does not say whether a factorisation is found; it states
    /// that one returned is a copy of an entry that serves `params`, and
    /// `lookup_lu` states what is returned for each value the cache may hold.
    pub fn cached_lu(&self, params: &LuParams) -> (r: Option<(Vec<usize>, Vec<Vec<u8>>)>)
        ensures
            r matches Some(x) ==> exists|e: LuEntry|
                #![trigger entry_serves(e, *params)]
                entry_serves(e, *params) && x.0@ == e.1@ && x.1.deep_view() == e.2.deep_view(),
    {
        let cached = once_lock_get(&*self.cached_lu);
        let r = Self::lookup_lu(cached, params);
        if r.is_some() {
            assert(entry_serves(*cached.unwrap(), *params));
        }
        r
    }

    /// The cache entry for a factorisation `(p, m)` computed for `params`.
    pub fn lu_entry(params: &LuParams, p: &Vec<usize>, m: &Vec<Vec<u8>>) -> (e: LuEntry)
        ensures
            e.0 == *params,
            e.1@ == p@,
            e.2.deep_view() == m.deep_view(),
    {
        (*params, p.clone(), m.clone())
    }

    /// Offers the entry `lu_entry(params, p, m)` to the cache; the cache keeps
    /// the first entry it is given. Returns `Ok` when this one was kept, and
    /// hands it back in `Err` when the cache already held one. Which of the
    /// two happens depends on whether another holder of the cache stored an
    /// entry first, so only what comes back in `Err` is stated.
    pub fn store_lu(&self, params: &LuParams, p: &Vec<usize>, m: &Vec<Vec<u8>>) -> (r: Result<(), LuEntry>)
        ensures
            r matches Err(e) ==> e.0 == *params && e.1@ == p@ && e.2.deep_view() == m.deep_view(),
    {
        let entry = Self::lu_entry(params, p, m);
        once_lock_set(&*self.cached_lu, entry)
    }
}

} // verus!
