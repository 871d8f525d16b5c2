//! The session pool: at most one session per component id. Sessions are
//! built and connected by the caller; the pool decides what is stored and
//! what each lookup returns.

use vstd::prelude::*;
use crate::table::{find_key, lemma_table_entry, lemma_table_push, lemma_table_remove, table_map, unique_keys};

verus! {

/// The pool after offering `session` under `id`: unchanged when `id` is
/// already pooled.
pub open spec fn pool_insert<T>(m: Map<Seq<char>, T>, id: Seq<char>, session: T) -> Map<Seq<char>, T> {
    if m.contains_key(id) { m } else { m.insert(id, session) }
}

/// The pool after offering each of `candidates` under `id` in turn.
pub open spec fn pool_insert_all<T>(m: Map<Seq<char>, T>, id: Seq<char>, candidates: Seq<T>) -> Map<Seq<char>, T>
    decreases candidates.len(),
{
    if candidates.len() == 0 {
        m
    } else {
        pool_insert_all(pool_insert(m, id, candidates[0]), id, candidates.drop_first())
    }
}

/// Pool of sessions keyed by component id.
pub struct SessionPool<T> {
    entries: Vec<(String, T)>,
}

impl<T> SessionPool<T> {
    /// At most one session per component id.
    pub closed spec fn wf(&self) -> bool {
        unique_keys(self.entries@)
    }

    /// The pooled session of each component id.
    pub closed spec fn sessions(&self) -> Map<Seq<char>, T> {
        table_map(self.entries@)
    }

    pub fn new() -> (r: SessionPool<T>)
        ensures
            r.wf(),
            r.sessions() == Map::<Seq<char>, T>::empty(),
    {
        let r = SessionPool { entries: Vec::new() };
        assert(r.sessions() =~= Map::<Seq<char>, T>::empty());
        r
    }

    /// The pooled session of `component_id`, if any.
    pub fn get(&self, component_id: &str) -> (r: Option<&T>)
        requires
            self.wf(),
        ensures
            match r {
                Some(s) => self.sessions().contains_key(component_id@) && *s == self.sessions()[component_id@],
                None => !self.sessions().contains_key(component_id@),
            },
    {
        match find_key(&self.entries, component_id) {
            Some(i) => {
                proof {
                    lemma_table_entry(self.entries@, i as int);
                }
                Some(&self.entries[i].1)
            },
            None => None,
        }
    }

    /// Pools `session` under `component_id` unless a session is pooled
    /// there already; tells whether it was stored.
    pub fn insert(&mut self, component_id: String, session: T) -> (r: bool)
        requires
            old(self).wf(),
        ensures
            final(self).wf(),
            r == !old(self).sessions().contains_key(component_id@),
            final(self).sessions() == pool_insert(old(self).sessions(), component_id@, session),
    {
        match find_key(&self.entries, component_id.as_str()) {
            Some(i) => {
                proof {
                    lemma_table_entry(self.entries@, i as int);
                }
                false
            },
            None => {
                proof {
                    lemma_table_push(self.entries@, (component_id, session));
                }
                self.entries.push((component_id, session));
                true
            },
        }
    }

    /// Takes the session of `component_id` out of the pool.
    pub fn remove(&mut self, component_id: &str) -> (r: Option<T>)
        requires
            old(self).wf(),
        ensures
            final(self).wf(),
            match r {
                Some(s) => old(self).sessions().contains_key(component_id@) && s == old(self).sessions()[component_id@],
                None => !old(self).sessions().contains_key(component_id@),
            },
            final(self).sessions() == old(self).sessions().remove(component_id@),
    {
        match find_key(&self.entries, component_id) {
            Some(i) => {
                proof {
                    lemma_table_entry(self.entries@, i as int);
                    lemma_table_remove(self.entries@, i as int);
                }
                let e = self.entries.remove(i);
                Some(e.1)
            },
            None => {
                assert(old(self).sessions().remove(component_id@) =~= old(self).sessions());
                None
            },
        }
    }

    /// Empties the pool, handing out every pooled session.
    pub fn drain(&mut self) -> (r: Vec<T>)
        requires
            old(self).wf(),
        ensures
            final(self).wf(),
            final(self).sessions() == Map::<Seq<char>, T>::empty(),
            forall|s: T| #[trigger] r@.contains(s) <==> old(self).sessions().values().contains(s),
    {
        let mut out: Vec<T> = Vec::new();
        let ghost before = self.entries@;
        while self.entries.len() > 0
            invariant
                unique_keys(self.entries@),
                self.entries@ == before.subrange(0, self.entries@.len() as int),
                self.entries@.len() + out@.len() == before.len(),
                forall|j: int| 0 <= j < out@.len() ==> #[trigger] out@[j] == before[before.len() - 1 - j].1,
            decreases self.entries@.len(),
        {
            let ghost n = self.entries@.len();
            proof {
                lemma_table_remove(self.entries@, n - 1);
            }
            let e = self.entries.pop();
            match e {
                Some(e) => {
                    out.push(e.1);
                },
                None => {},
            }
            assert(self.entries@ =~= before.subrange(0, self.entries@.len() as int));
        }
        proof {
            assert(self.sessions() =~= Map::<Seq<char>, T>::empty());
            let m = table_map(before);
            assert forall|s: T| #[trigger] out@.contains(s) <==> m.values().contains(s) by {
                if out@.contains(s) {
                    let j = choose|j: int| 0 <= j < out@.len() && out@[j] == s;
                    let i = before.len() - 1 - j;
                    lemma_table_entry(before, i);
                    assert(m.contains_key(before[i].0@) && m[before[i].0@] == s);
                }
                if m.values().contains(s) {
                    let k = choose|k: Seq<char>| m.contains_key(k) && m[k] == s;
                    let i = choose|i: int| 0 <= i < before.len() && (#[trigger] before[i]).0@ == k;
                    lemma_table_entry(before, i);
                    let j = before.len() - 1 - i;
                    assert(out@[j] == s);
                }
            }
        }
        out
    }
}

/// However many sessions are offered under one id, one after another, the
/// pool keeps the first (or the one pooled before), so every lookup of that
/// id returns the same session.
pub proof fn lemma_pool_uniqueness<T>(m: Map<Seq<char>, T>, id: Seq<char>, candidates: Seq<T>)
    requires
        candidates.len() > 0,
    ensures
        pool_insert_all(m, id, candidates).contains_key(id),
        pool_insert_all(m, id, candidates)[id] == (if m.contains_key(id) { m[id] } else { candidates[0] }),
    decreases candidates.len(),
{
    let m1 = pool_insert(m, id, candidates[0]);
    assert(pool_insert_all(m, id, candidates) == pool_insert_all(m1, id, candidates.drop_first()));
    if candidates.len() > 1 {
        lemma_pool_uniqueness(m1, id, candidates.drop_first());
    } else {
        assert(pool_insert_all(m1, id, candidates.drop_first()) == m1);
    }
}

} // verus!
