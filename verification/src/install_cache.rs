//! A short-lived cache of model install checks, so that polling the UI does not
//! stat the model directory many times a second.
use vstd::prelude::*;
use crate::model::InstallInfo;
use crate::text::str_eq;

verus! {

/// How long a cached install check stays fresh, in milliseconds.
pub const MODEL_INSTALL_TTL_MS: u64 = 500;

/// An install check and the (monotonic) millisecond at which it was made.
pub struct CachedModelInstall {
    pub model_id: String,
    pub info: InstallInfo,
    pub checked_at_ms: u64,
}

/// Install checks by model id.
pub struct ModelInstallCache {
    entries: Vec<CachedModelInstall>,
}

/// What a list of cached checks holds by model id (later entries win).
pub open spec fn cache_map(e: Seq<CachedModelInstall>) -> Map<Seq<char>, (InstallInfo, u64)>
    decreases e.len(),
{
    if e.len() == 0 {
        Map::empty()
    } else {
        cache_map(e.drop_last()).insert(e.last().model_id@, (e.last().info, e.last().checked_at_ms))
    }
}

/// The entries whose id is not `id`, in order.
pub open spec fn cache_without(e: Seq<CachedModelInstall>, id: Seq<char>) -> Seq<CachedModelInstall>
    decreases e.len(),
{
    if e.len() == 0 {
        seq![]
    } else if e.last().model_id@ == id {
        cache_without(e.drop_last(), id)
    } else {
        cache_without(e.drop_last(), id).push(e.last())
    }
}

/// Milliseconds from `then` to `now`, 0 when `now` is earlier (as
/// `Instant::duration_since` saturates).
pub open spec fn age_ms(now: u64, then: u64) -> nat {
    if now >= then {
        (now - then) as nat
    } else {
        0
    }
}

/// The cached check for `id` when it is younger than the time to live.
pub open spec fn fresh_entry(m: Map<Seq<char>, (InstallInfo, u64)>, id: Seq<char>, now: u64) -> Option<
    InstallInfo,
> {
    if m.contains_key(id) && age_ms(now, m[id].1) < MODEL_INSTALL_TTL_MS {
        Some(m[id].0)
    } else {
        None
    }
}

proof fn lemma_cache_without(e: Seq<CachedModelInstall>, id: Seq<char>)
    ensures
        cache_map(cache_without(e, id)) == cache_map(e).remove(id),
    decreases e.len(),
{
    if e.len() == 0 {
        assert(cache_map(e).remove(id) =~= Map::empty());
    } else {
        lemma_cache_without(e.drop_last(), id);
        let w = cache_without(e.drop_last(), id);
        if e.last().model_id@ == id {
            assert(cache_map(e).remove(id) =~= cache_map(e.drop_last()).remove(id));
        } else {
            assert(w.push(e.last()).drop_last() =~= w);
            assert(cache_map(e).remove(id) =~= cache_map(e.drop_last()).remove(id).insert(
                e.last().model_id@,
                (e.last().info, e.last().checked_at_ms),
            ));
        }
    }
}

proof fn lemma_cache_prefix(e: Seq<CachedModelInstall>, i: int, id: Seq<char>)
    requires
        0 <= i <= e.len(),
        forall|j: int| i <= j < e.len() ==> #[trigger] e[j].model_id@ != id,
    ensures
        cache_map(e).contains_key(id) == cache_map(e.take(i)).contains_key(id),
        cache_map(e).contains_key(id) ==> cache_map(e)[id] == cache_map(e.take(i))[id],
    decreases e.len() - i,
{
    if i < e.len() {
        let d = e.drop_last();
        assert(d.take(i) =~= e.take(i));
        assert forall|j: int| i <= j < d.len() implies #[trigger] d[j].model_id@ != id by {
            assert(d[j] == e[j]);
        }
        lemma_cache_prefix(d, i, id);
        assert(e.last().model_id@ != id);
    } else {
        assert(e.take(i) =~= e);
    }
}

/// A copy of an install check.
pub fn copy_install_info(i: &InstallInfo) -> (r: InstallInfo)
    ensures
        r == *i,
{
    InstallInfo {
        status: i.status,
        bytes: i.bytes,
        modified_ms: i.modified_ms,
        reason: i.reason.clone(),
    }
}

/// A check stored at `at` is found for `MODEL_INSTALL_TTL_MS` milliseconds
/// after it, and not once that time has passed.
pub proof fn law_fresh_after_store(
    m: Map<Seq<char>, (InstallInfo, u64)>,
    id: Seq<char>,
    info: InstallInfo,
    at: u64,
    now: u64,
)
    ensures
        at <= now && now - at < MODEL_INSTALL_TTL_MS ==> fresh_entry(m.insert(id, (info, at)), id, now)
            == Some(info),
        now >= at && now - at >= MODEL_INSTALL_TTL_MS ==> fresh_entry(m.insert(id, (info, at)), id, now)
            is None,
{
}

/// Storing or forgetting one model's check leaves the others as they were.
pub proof fn law_other_models_untouched(
    m: Map<Seq<char>, (InstallInfo, u64)>,
    id: Seq<char>,
    other: Seq<char>,
    info: InstallInfo,
    at: u64,
    now: u64,
)
    requires
        other != id,
    ensures
        fresh_entry(m.insert(id, (info, at)), other, now) == fresh_entry(m, other, now),
        fresh_entry(m.remove(id), other, now) == fresh_entry(m, other, now),
{
}

/// A forgotten check is not found.
pub proof fn law_nothing_after_remove(m: Map<Seq<char>, (InstallInfo, u64)>, id: Seq<char>, now: u64)
    ensures
        fresh_entry(m.remove(id), id, now) is None,
        fresh_entry(Map::<Seq<char>, (InstallInfo, u64)>::empty(), id, now) is None,
{
}

impl View for ModelInstallCache {
    type V = Map<Seq<char>, (InstallInfo, u64)>;

    closed spec fn view(&self) -> Map<Seq<char>, (InstallInfo, u64)> {
        cache_map(self.entries@)
    }
}

impl ModelInstallCache {
    pub fn new() -> (r: Self)
        ensures
            r@ == Map::<Seq<char>, (InstallInfo, u64)>::empty(),
    {
        ModelInstallCache { entries: Vec::new() }
    }

    /// The cached check for `model_id`, when it was made less than the time to
    /// live before `now_ms`.
    pub fn fresh(&self, model_id: &str, now_ms: u64) -> (r: Option<InstallInfo>)
        ensures
            r == fresh_entry(self@, model_id@, now_ms),
    {
        let mut i: usize = self.entries.len();
        while i > 0
            invariant
                i <= self.entries@.len(),
                forall|j: int|
                    i <= j < self.entries@.len() ==> #[trigger] self.entries@[j].model_id@
                        != model_id@,
            decreases i,
        {
            if str_eq(self.entries[i - 1].model_id.as_str(), model_id) {
                proof {
                    lemma_cache_prefix(self.entries@, i as int, model_id@);
                    let t = self.entries@.take(i as int);
                    assert(t.last() == self.entries@[i - 1]);
                }
                let e = &self.entries[i - 1];
                let age = if now_ms >= e.checked_at_ms {
                    now_ms - e.checked_at_ms
                } else {
                    0
                };
                if age < MODEL_INSTALL_TTL_MS {
                    return Some(copy_install_info(&e.info));
                } else {
                    return None;
                }
            }
            i -= 1;
        }
        proof {
            lemma_cache_prefix(self.entries@, 0, model_id@);
            assert(self.entries@.take(0) =~= seq![]);
        }
        None
    }

    /// Forget the check for `model_id`.
    pub fn remove(&mut self, model_id: &str)
        ensures
            final(self)@ == old(self)@.remove(model_id@),
    {
        let ghost old_entries = self.entries@;
        let mut kept: Vec<CachedModelInstall> = Vec::new();
        let mut i: usize = 0;
        assert(old_entries.take(0) =~= seq![]);
        while i < self.entries.len()
            invariant
                i <= self.entries@.len(),
                self.entries@ == old_entries,
                kept@ == cache_without(old_entries.take(i as int), model_id@),
            decreases self.entries.len() - i,
        {
            proof {
                let t = old_entries.take(i as int + 1);
                assert(t.drop_last() =~= old_entries.take(i as int));
                assert(t.last() == old_entries[i as int]);
            }
            if !str_eq(self.entries[i].model_id.as_str(), model_id) {
                let e = &self.entries[i];
                kept.push(
                    CachedModelInstall {
                        model_id: e.model_id.clone(),
                        info: copy_install_info(&e.info),
                        checked_at_ms: e.checked_at_ms,
                    },
                );
            }
            i += 1;
        }
        assert(old_entries.take(old_entries.len() as int) =~= old_entries);
        proof {
            lemma_cache_without(old_entries, model_id@);
        }
        self.entries = kept;
    }

    /// Remember `info` as the check for `model_id` made at `now_ms`.
    pub fn store(&mut self, model_id: &str, info: InstallInfo, now_ms: u64)
        ensures
            final(self)@ == old(self)@.insert(model_id@, (info, now_ms)),
    {
        let ghost before = self@;
        self.remove(model_id);
        let ghost mid = self.entries@;
        self.entries.push(
            CachedModelInstall { model_id: crate::text::owned(model_id), info, checked_at_ms: now_ms },
        );
        proof {
            assert(self.entries@.drop_last() =~= mid);
            assert(self@ =~= before.insert(model_id@, (info, now_ms)));
        }
    }

    /// Forget every check.
    pub fn clear(&mut self)
        ensures
            final(self)@ == Map::<Seq<char>, (InstallInfo, u64)>::empty(),
    {
        self.entries = Vec::new();
    }
}

} // verus!
