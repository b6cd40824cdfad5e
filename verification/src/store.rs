//! The correlation registry: at most one trace context per session, plus a
//! fallback slot holding the most recently observed context.
//!
//! The registry is an explicitly constructed value with no ambient state of
//! its own. It is a sequential data structure; a transport layer that
//! handles requests in parallel owns it behind a single lock (correctness
//! over throughput: the hot path is request volume, not registry
//! contention), so concurrent operations take effect in some serial order.
//! [`lemma_disjoint_puts_commute`] shows that writers of distinct sessions
//! cannot corrupt each other under any such order.
//!
//! Entries are never purged by the propagation flow itself; the store grows
//! with the number of distinct sessions observed. `clear_trace_context` is
//! the hook a session-termination path may call to bound that growth.

use vstd::prelude::*;

use crate::session::SessionId;
use crate::trace_context::TraceContext;

verus! {

/// Mathematical model of the registry: a finite map from session-identifier
/// bytes to their originating contexts, and the fallback slot.
pub struct StoreModel {
    pub entries: Map<Seq<u8>, TraceContext>,
    pub fallback: Option<TraceContext>,
}

/// Effect of a write: insert or replace the entry for `key` — a later write
/// for the same session replaces the earlier one — and unconditionally
/// overwrite the fallback slot.
pub open spec fn spec_put(m: StoreModel, key: Seq<u8>, ctx: TraceContext) -> StoreModel {
    StoreModel { entries: m.entries.insert(key, ctx), fallback: Some(ctx) }
}

/// Effect of a read: the cached context, or nothing for an unknown session —
/// never a default context.
pub open spec fn spec_get(m: StoreModel, key: Seq<u8>) -> Option<TraceContext> {
    if m.entries.contains_key(key) {
        Some(m.entries[key])
    } else {
        None
    }
}

/// Effect of an eviction: the entry for `key` is gone; the fallback slot is
/// untouched.
pub open spec fn spec_remove(m: StoreModel, key: Seq<u8>) -> StoreModel {
    StoreModel { entries: m.entries.remove(key), fallback: m.fallback }
}

/// Effect of noting a request's context without a session: only the
/// fallback slot is overwritten.
pub open spec fn spec_observe(m: StoreModel, ctx: TraceContext) -> StoreModel {
    StoreModel { entries: m.entries, fallback: Some(ctx) }
}

/// The model after a sequence of writes, applied left to right.
pub open spec fn apply_puts(m: StoreModel, ops: Seq<(Seq<u8>, TraceContext)>) -> StoreModel
    decreases ops.len(),
{
    if ops.len() == 0 {
        m
    } else {
        spec_put(apply_puts(m, ops.drop_last()), ops.last().0, ops.last().1)
    }
}

/// The map denoted by an association list, later pairs taking precedence.
spec fn entries_map(s: Seq<(SessionId, TraceContext)>) -> Map<Seq<u8>, TraceContext>
    decreases s.len(),
{
    if s.len() == 0 {
        Map::empty()
    } else {
        entries_map(s.drop_last()).insert(s.last().0@, s.last().1)
    }
}

/// Pairwise-distinct session keys.
spec fn distinct_keys(s: Seq<(SessionId, TraceContext)>) -> bool {
    forall|i: int, j: int| 0 <= i < j < s.len() ==> s[i].0@ != s[j].0@
}

proof fn lemma_entries_map_found(s: Seq<(SessionId, TraceContext)>, i: int)
    requires
        distinct_keys(s),
        0 <= i < s.len(),
    ensures
        entries_map(s).contains_key(s[i].0@),
        entries_map(s)[s[i].0@] == s[i].1,
    decreases s.len(),
{
    if i < s.len() - 1 {
        assert(s.drop_last()[i] == s[i]);
        lemma_entries_map_found(s.drop_last(), i);
    }
}

proof fn lemma_entries_map_absent(s: Seq<(SessionId, TraceContext)>, key: Seq<u8>)
    requires
        forall|i: int| 0 <= i < s.len() ==> s[i].0@ != key,
    ensures
        !entries_map(s).contains_key(key),
    decreases s.len(),
{
    if s.len() > 0 {
        lemma_entries_map_absent(s.drop_last(), key);
    }
}

proof fn lemma_entries_map_update(
    s: Seq<(SessionId, TraceContext)>,
    i: int,
    p: (SessionId, TraceContext),
)
    requires
        distinct_keys(s),
        0 <= i < s.len(),
        s[i].0@ == p.0@,
    ensures
        entries_map(s.update(i, p)) == entries_map(s).insert(p.0@, p.1),
    decreases s.len(),
{
    if i == s.len() - 1 {
        assert(s.update(i, p).drop_last() =~= s.drop_last());
        assert(entries_map(s.update(i, p)) =~= entries_map(s).insert(p.0@, p.1));
    } else {
        assert(s.update(i, p).drop_last() =~= s.drop_last().update(i, p));
        assert(s.drop_last()[i] == s[i]);
        lemma_entries_map_update(s.drop_last(), i, p);
        // The final key differs from p's key, so the two inserts commute.
        assert(s.last().0@ != p.0@);
        assert(entries_map(s.update(i, p)) =~= entries_map(s).insert(p.0@, p.1));
    }
}

proof fn lemma_entries_map_remove(s: Seq<(SessionId, TraceContext)>, i: int)
    requires
        distinct_keys(s),
        0 <= i < s.len(),
    ensures
        entries_map(s.remove(i)) == entries_map(s).remove(s[i].0@),
    decreases s.len(),
{
    if i == s.len() - 1 {
        assert(s.remove(i) =~= s.drop_last());
        assert(forall|j: int| 0 <= j < s.len() - 1 ==> s.drop_last()[j].0@ != s[i].0@);
        lemma_entries_map_absent(s.drop_last(), s[i].0@);
        assert(entries_map(s.remove(i)) =~= entries_map(s).remove(s[i].0@));
    } else {
        assert(s.remove(i).drop_last() =~= s.drop_last().remove(i));
        assert(s.remove(i).last() == s.last());
        assert(s.drop_last()[i] == s[i]);
        lemma_entries_map_remove(s.drop_last(), i);
        assert(s.last().0@ != s[i].0@);
        assert(entries_map(s.remove(i)) =~= entries_map(s).remove(s[i].0@));
    }
}

/// Thread-safe use is by exclusion around the whole value; see the module
/// documentation. Reads and writes complete in time bounded by the number of
/// entries, with no waiting on events.
pub struct TraceStore {
    entries: Vec<(SessionId, TraceContext)>,
    fallback: Option<TraceContext>,
}

impl View for TraceStore {
    type V = StoreModel;

    closed spec fn view(&self) -> StoreModel {
        StoreModel { entries: entries_map(self.entries@), fallback: self.fallback }
    }
}

impl TraceStore {
    /// Internal consistency: one entry per session identifier.
    pub closed spec fn wf(&self) -> bool {
        distinct_keys(self.entries@)
    }

    /// An empty registry: no correlations, nothing observed yet.
    pub fn new() -> (r: TraceStore)
        ensures
            r.wf(),
            r@ == (StoreModel { entries: Map::<Seq<u8>, TraceContext>::empty(), fallback: None::<
                TraceContext> }),
    {
        TraceStore { entries: Vec::new(), fallback: None }
    }

    /// Stores `ctx` as the context that started `session`, replacing any
    /// earlier entry for the same session, and overwrites the fallback slot.
    /// Always succeeds.
    pub fn store_trace_context(&mut self, session: SessionId, ctx: TraceContext)
        requires
            old(self).wf(),
        ensures
            final(self).wf(),
            final(self)@ == spec_put(old(self)@, session@, ctx),
    {
        let n: usize = self.entries.len();
        let mut i: usize = 0;
        while i < n
            invariant
                0 <= i <= n,
                n == self.entries@.len(),
                self.wf(),
                self@ == old(self)@,
                forall|j: int| 0 <= j < i ==> self.entries@[j].0@ != session@,
            decreases n - i,
        {
            if self.entries[i].0.same_session(&session) {
                proof {
                    lemma_entries_map_update(self.entries@, i as int, (session, ctx));
                }
                self.entries[i] = (session, ctx);
                self.fallback = Some(ctx);
                return;
            }
            i = i + 1;
        }
        proof {
            assert(self.entries@.push((session, ctx)).drop_last() =~= self.entries@);
        }
        self.entries.push((session, ctx));
        self.fallback = Some(ctx);
    }

    /// The cached context for `session`, or `None` for a session the store
    /// has never seen. Read-only.
    pub fn get_trace_context(&self, session: &SessionId) -> (r: Option<TraceContext>)
        requires
            self.wf(),
        ensures
            r == spec_get(self@, session@),
    {
        let n: usize = self.entries.len();
        let mut i: usize = 0;
        while i < n
            invariant
                0 <= i <= n,
                n == self.entries@.len(),
                self.wf(),
                forall|j: int| 0 <= j < i ==> self.entries@[j].0@ != session@,
            decreases n - i,
        {
            if self.entries[i].0.same_session(session) {
                proof {
                    lemma_entries_map_found(self.entries@, i as int);
                }
                return Some(self.entries[i].1);
            }
            i = i + 1;
        }
        proof {
            lemma_entries_map_absent(self.entries@, session@);
        }
        None
    }

    /// Evicts the entry for `session`, if any. Not called by the propagation
    /// flow itself; exposed for session-termination hooks.
    pub fn clear_trace_context(&mut self, session: &SessionId)
        requires
            old(self).wf(),
        ensures
            final(self).wf(),
            final(self)@ == spec_remove(old(self)@, session@),
    {
        let n: usize = self.entries.len();
        let mut i: usize = 0;
        while i < n
            invariant
                0 <= i <= n,
                n == self.entries@.len(),
                self.wf(),
                self@ == old(self)@,
                forall|j: int| 0 <= j < i ==> self.entries@[j].0@ != session@,
            decreases n - i,
        {
            if self.entries[i].0.same_session(session) {
                proof {
                    lemma_entries_map_remove(self.entries@, i as int);
                }
                self.entries.remove(i);
                return;
            }
            i = i + 1;
        }
        proof {
            lemma_entries_map_absent(self.entries@, session@);
            assert(entries_map(self.entries@).remove(session@) =~= entries_map(self.entries@));
        }
    }

    /// The most recently observed context, irrespective of session, for
    /// calls where no session identifier is resolvable yet.
    pub fn get_current_trace_context(&self) -> (r: Option<TraceContext>)
        ensures
            r == self@.fallback,
    {
        self.fallback
    }

    /// Notes a request's extracted context in the fallback slot without
    /// correlating it to any session: the slot is overwritten on every
    /// request that carried a usable context, whether or not a session
    /// identifier could be determined later.
    pub fn observe_context(&mut self, ctx: TraceContext)
        requires
            old(self).wf(),
        ensures
            final(self).wf(),
            final(self)@ == spec_observe(old(self)@, ctx),
    {
        self.fallback = Some(ctx);
    }
}

/// Last write wins: after writing `c1` and then `c2` for the same session, a
/// read of that session yields `c2` — a client that re-propagates a fresh
/// header on a later call takes precedence over the cached context.
pub proof fn lemma_last_write_wins(m: StoreModel, key: Seq<u8>, c1: TraceContext, c2: TraceContext)
    ensures
        spec_get(spec_put(spec_put(m, key, c1), key, c2), key) == Some(c2),
{
}

/// The fallback reflects the latest write: after any non-empty sequence of
/// writes, the fallback slot holds the context of the last one, whatever its
/// session's relation to earlier sessions.
pub proof fn lemma_fallback_reflects_latest(m: StoreModel, ops: Seq<(Seq<u8>, TraceContext)>)
    requires
        ops.len() > 0,
    ensures
        apply_puts(m, ops).fallback == Some(ops.last().1),
{
}

/// A miss is explicit: a read of a session that no write ever named yields
/// nothing — not a default or leftover context.
pub proof fn lemma_miss_is_explicit(
    m: StoreModel,
    ops: Seq<(Seq<u8>, TraceContext)>,
    key: Seq<u8>,
)
    requires
        !m.entries.contains_key(key),
        forall|i: int| 0 <= i < ops.len() ==> ops[i].0 != key,
    ensures
        spec_get(apply_puts(m, ops), key) is None,
    decreases ops.len(),
{
    if ops.len() > 0 {
        lemma_miss_is_explicit(m, ops.drop_last(), key);
    }
}

/// Writers of distinct sessions do not corrupt each other: whichever serial
/// order two writes for sessions `k1 != k2` take effect in, a later read of
/// each session yields the context written for it.
pub proof fn lemma_disjoint_puts_commute(
    m: StoreModel,
    k1: Seq<u8>,
    c1: TraceContext,
    k2: Seq<u8>,
    c2: TraceContext,
)
    requires
        k1 != k2,
    ensures
        spec_get(spec_put(spec_put(m, k1, c1), k2, c2), k1) == Some(c1),
        spec_get(spec_put(spec_put(m, k1, c1), k2, c2), k2) == Some(c2),
        spec_get(spec_put(spec_put(m, k2, c2), k1, c1), k1) == Some(c1),
        spec_get(spec_put(spec_put(m, k2, c2), k1, c1), k2) == Some(c2),
{
}

} // verus!
