use vstd::prelude::*;

use crate::acquire::{Acquired, AcquiredModel};
use crate::probe::copy_gpus;

verus! {

/// How long, in milliseconds, a stored acquisition is served without a new one.
pub const CACHE_TTL_MS: u64 = 5000;

/// The one stored acquisition and the monotonic time, in milliseconds, at
/// which it was stored.
struct CachedSnapshot {
    data: Acquired,
    captured_at_ms: u64,
}

pub ghost struct CacheEntry {
    pub data: AcquiredModel,
    pub captured_at_ms: u64,
}

/// A single-slot store for the latest acquisition. A holder that shares it
/// between callers checks it and fills it in two separate steps, so that no
/// lock is held while an acquisition runs.
pub struct SnapshotCache {
    slot: Option<CachedSnapshot>,
}

impl View for SnapshotCache {
    type V = Option<CacheEntry>;

    closed spec fn view(&self) -> Option<CacheEntry> {
        match self.slot {
            Some(s) => Some(CacheEntry { data: s.data@, captured_at_ms: s.captured_at_ms }),
            None => None,
        }
    }
}

/// Data stored at `captured` is still served at `now`: less than the TTL has
/// passed (a `now` before `captured` counts as no time passed).
pub open spec fn is_fresh(captured: u64, now: u64) -> bool {
    now < captured + CACHE_TTL_MS
}

/// What a read at `now` serves from the cache, `None` where an acquisition
/// is due.
pub open spec fn cached_read(c: Option<CacheEntry>, now: u64) -> Option<AcquiredModel> {
    match c {
        Some(e) => if is_fresh(e.captured_at_ms, now) {
            Some(e.data)
        } else {
            None
        },
        None => None,
    }
}

pub open spec fn acquired_option_view(r: Option<Acquired>) -> Option<AcquiredModel> {
    match r {
        Some(a) => Some(a@),
        None => None,
    }
}

/// A copy of an acquisition.
pub fn copy_acquired(a: &Acquired) -> (r: Acquired)
    ensures
        r@ == a@,
{
    Acquired { gpus: copy_gpus(&a.gpus), battery: a.battery }
}

impl SnapshotCache {
    /// An empty cache.
    pub fn new() -> (r: SnapshotCache)
        ensures
            r@ is None,
    {
        SnapshotCache { slot: None }
    }

    /// A copy of the stored acquisition where it is fresh at `now_ms`; `None`
    /// where the caller is to acquire anew and `store` the result.
    pub fn lookup(&self, now_ms: u64) -> (r: Option<Acquired>)
        ensures
            acquired_option_view(r) == cached_read(self@, now_ms),
    {
        match &self.slot {
            Some(s) => {
                let fresh = if now_ms < s.captured_at_ms {
                    true
                } else {
                    now_ms - s.captured_at_ms < CACHE_TTL_MS
                };
                if fresh {
                    Some(copy_acquired(&s.data))
                } else {
                    None
                }
            },
            None => None,
        }
    }

    /// Replaces what the cache holds by `data`, stored at `now_ms`.
    pub fn store(&mut self, data: &Acquired, now_ms: u64)
        ensures
            final(self)@ == Some(CacheEntry { data: data@, captured_at_ms: now_ms }),
    {
        self.slot = Some(CachedSnapshot { data: copy_acquired(data), captured_at_ms: now_ms });
    }
}

/// Two reads within the TTL of a store serve the same stored data, so no
/// acquisition is made for either.
pub proof fn lemma_reads_within_ttl_agree(d: AcquiredModel, t: u64, t1: u64, t2: u64)
    requires
        t <= t1 < t + CACHE_TTL_MS,
        t <= t2 < t + CACHE_TTL_MS,
    ensures
        cached_read(Some(CacheEntry { data: d, captured_at_ms: t }), t1) == Some(d),
        cached_read(Some(CacheEntry { data: d, captured_at_ms: t }), t1) == cached_read(
            Some(CacheEntry { data: d, captured_at_ms: t }),
            t2,
        ),
{
}

/// Once the TTL has passed, a read finds nothing to serve, so one
/// acquisition is made; storing its result at that time moves the capture
/// time forward, and reads then serve the new data.
pub proof fn lemma_refresh_after_ttl(d: AcquiredModel, t: u64, d2: AcquiredModel, t2: u64)
    requires
        t2 >= t + CACHE_TTL_MS,
    ensures
        cached_read(Some(CacheEntry { data: d, captured_at_ms: t }), t2) is None,
        t2 > t,
        cached_read(Some(CacheEntry { data: d2, captured_at_ms: t2 }), t2) == Some(d2),
{
}

} // verus!
