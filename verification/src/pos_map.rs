use vstd::prelude::*;

use crate::chunk::ChunkPos;

verus! {

/// No two entries of `s` share a chunk position.
pub open spec fn unique_keys<V>(s: Seq<(ChunkPos, V)>) -> bool {
    forall|i: int, j: int| 0 <= i < j < s.len() ==> (#[trigger] s[i]).0 != (#[trigger] s[j]).0
}

/// The mathematical map described by a sequence of keyed entries, later
/// entries winning (entries with unique keys make the order irrelevant).
pub open spec fn entries_map<V: View>(s: Seq<(ChunkPos, V)>) -> Map<ChunkPos, V::V>
    decreases s.len(),
{
    if s.len() == 0 {
        Map::empty()
    } else {
        entries_map(s.drop_last()).insert(s.last().0, s.last().1@)
    }
}

proof fn lemma_entries_map_dom<V: View>(s: Seq<(ChunkPos, V)>)
    ensures
        forall|p: ChunkPos|
            #[trigger] entries_map(s).dom().contains(p) <==> exists|i: int|
                0 <= i < s.len() && (#[trigger] s[i]).0 == p,
    decreases s.len(),
{
    if s.len() > 0 {
        lemma_entries_map_dom(s.drop_last());
        assert forall|p: ChunkPos|
            #[trigger] entries_map(s).dom().contains(p) <==> exists|i: int|
                0 <= i < s.len() && (#[trigger] s[i]).0 == p by {
            if entries_map(s).dom().contains(p) {
                if p == s.last().0 {
                    assert(s[s.len() - 1].0 == p);
                } else {
                    assert(entries_map(s.drop_last()).dom().contains(p));
                    let i = choose|i: int|
                        0 <= i < s.drop_last().len() && (#[trigger] s.drop_last()[i]).0 == p;
                    assert(s[i].0 == p);
                }
            }
            if exists|i: int| 0 <= i < s.len() && (#[trigger] s[i]).0 == p {
                let i = choose|i: int| 0 <= i < s.len() && (#[trigger] s[i]).0 == p;
                if i < s.len() - 1 {
                    assert(s.drop_last()[i].0 == p);
                    assert(entries_map(s.drop_last()).dom().contains(p));
                }
            }
        }
    }
}

proof fn lemma_entries_map_index<V: View>(s: Seq<(ChunkPos, V)>, i: int)
    requires
        unique_keys(s),
        0 <= i < s.len(),
    ensures
        entries_map(s).dom().contains(s[i].0),
        entries_map(s)[s[i].0] == s[i].1@,
    decreases s.len(),
{
    if i == s.len() - 1 {
    } else {
        assert(unique_keys(s.drop_last())) by {
            assert forall|a: int, b: int|
                0 <= a < b < s.drop_last().len() implies (#[trigger] s.drop_last()[a]).0 != (
            #[trigger] s.drop_last()[b]).0 by {
                assert(s[a].0 != s[b].0);
            }
        }
        assert(s.drop_last()[i] == s[i]);
        lemma_entries_map_index(s.drop_last(), i);
        assert(s[i].0 != s.last().0);
    }
}

proof fn lemma_entries_map_push<V: View>(s: Seq<(ChunkPos, V)>, p: ChunkPos, v: V)
    ensures
        entries_map(s.push((p, v))) == entries_map(s).insert(p, v@),
{
    assert(s.push((p, v)).drop_last() =~= s);
    assert(s.push((p, v)).last() == (p, v));
}

proof fn lemma_unique_drop_last<V>(s: Seq<(ChunkPos, V)>)
    requires
        unique_keys(s),
        s.len() > 0,
    ensures
        unique_keys(s.drop_last()),
{
    assert forall|a: int, b: int|
        0 <= a < b < s.drop_last().len() implies (#[trigger] s.drop_last()[a]).0 != (
    #[trigger] s.drop_last()[b]).0 by {
        assert(s[a].0 != s[b].0);
    }
}

proof fn lemma_entries_map_update<V: View>(s: Seq<(ChunkPos, V)>, i: int, v: V)
    requires
        unique_keys(s),
        0 <= i < s.len(),
    ensures
        entries_map(s.update(i, (s[i].0, v))) == entries_map(s).insert(s[i].0, v@),
    decreases s.len(),
{
    let t = s.update(i, (s[i].0, v));
    if i == s.len() - 1 {
        assert(t.drop_last() =~= s.drop_last());
        assert(t.last() == (s[i].0, v));
        assert(entries_map(s.drop_last()).insert(s[i].0, v@) =~= entries_map(s.drop_last()).insert(
            s[i].0,
            s[i].1@,
        ).insert(s[i].0, v@));
    } else {
        lemma_unique_drop_last(s);
        assert(s.drop_last()[i] == s[i]);
        lemma_entries_map_update(s.drop_last(), i, v);
        assert(t.drop_last() =~= s.drop_last().update(i, (s[i].0, v)));
        assert(t.last() == s.last());
        assert(s[i].0 != s.last().0);
        assert(entries_map(s.drop_last()).insert(s[i].0, v@).insert(s.last().0, s.last().1@)
            =~= entries_map(s.drop_last()).insert(s.last().0, s.last().1@).insert(s[i].0, v@));
    }
}

proof fn lemma_entries_map_remove<V: View>(s: Seq<(ChunkPos, V)>, i: int)
    requires
        unique_keys(s),
        0 <= i < s.len(),
    ensures
        entries_map(s.remove(i)) == entries_map(s).remove(s[i].0),
    decreases s.len(),
{
    lemma_unique_drop_last(s);
    if i == s.len() - 1 {
        assert(s.remove(i) =~= s.drop_last());
        lemma_entries_map_dom::<V>(s.drop_last());
        assert forall|j: int|
            0 <= j < s.drop_last().len() implies (#[trigger] s.drop_last()[j]).0 != s[i].0 by {
            assert(s[j].0 != s[i].0);
        }
        assert(!entries_map(s.drop_last()).dom().contains(s[i].0));
        assert(entries_map(s.drop_last()) =~= entries_map(s.drop_last()).insert(
            s.last().0,
            s.last().1@,
        ).remove(s[i].0));
    } else {
        assert(s.drop_last()[i] == s[i]);
        lemma_entries_map_remove(s.drop_last(), i);
        assert(s.remove(i).drop_last() =~= s.drop_last().remove(i));
        assert(s.remove(i).last() == s.last());
        assert(s[i].0 != s.last().0);
        assert(entries_map(s.drop_last()).remove(s[i].0).insert(s.last().0, s.last().1@)
            =~= entries_map(s.drop_last()).insert(s.last().0, s.last().1@).remove(s[i].0));
    }
}

/// A finite map from chunk positions to values, backed by a flat vector of
/// entries with pairwise-distinct keys.
pub struct PosMap<V> {
    entries: Vec<(ChunkPos, V)>,
}

impl<V: View> View for PosMap<V> {
    type V = Map<ChunkPos, V::V>;

    closed spec fn view(&self) -> Map<ChunkPos, V::V> {
        entries_map(self.entries@)
    }
}

impl<V: View> PosMap<V> {
    /// Entry keys are pairwise distinct.
    pub closed spec fn wf(&self) -> bool {
        unique_keys(self.entries@)
    }

    pub fn new() -> (m: PosMap<V>)
        ensures
            m.wf(),
            m@ == Map::<ChunkPos, V::V>::empty(),
    {
        PosMap { entries: Vec::new() }
    }

    fn find_index(&self, pos: ChunkPos) -> (r: Option<usize>)
        ensures
            match r {
                Some(i) => i < self.entries@.len() && self.entries@[i as int].0 == pos,
                None => forall|i: int|
                    0 <= i < self.entries@.len() ==> (#[trigger] self.entries@[i]).0 != pos,
            },
    {
        let n = self.entries.len();
        let mut k: usize = 0;
        while k < n
            invariant
                k <= n,
                n == self.entries@.len(),
                forall|i: int| 0 <= i < k ==> (#[trigger] self.entries@[i]).0 != pos,
            decreases n - k,
        {
            if self.entries[k].0 == pos {
                return Some(k);
            }
            k = k + 1;
        }
        None
    }

    /// Whether `pos` is a key of the map.
    pub fn contains_key(&self, pos: ChunkPos) -> (r: bool)
        requires
            self.wf(),
        ensures
            r == self@.dom().contains(pos),
    {
        proof {
            lemma_entries_map_dom(self.entries@);
        }
        self.find_index(pos).is_some()
    }

    /// The value stored under `pos`, if any.
    pub fn get(&self, pos: ChunkPos) -> (r: Option<&V>)
        requires
            self.wf(),
        ensures
            match r {
                Some(v) => self@.dom().contains(pos) && v@ == self@[pos],
                None => !self@.dom().contains(pos),
            },
    {
        proof {
            lemma_entries_map_dom(self.entries@);
        }
        match self.find_index(pos) {
            Some(i) => {
                proof {
                    lemma_entries_map_index(self.entries@, i as int);
                }
                Some(&self.entries[i].1)
            },
            None => None,
        }
    }

    /// Binds `pos` to `value`, replacing any previous binding.
    pub fn insert(&mut self, pos: ChunkPos, value: V)
        requires
            old(self).wf(),
        ensures
            final(self).wf(),
            final(self)@ == old(self)@.insert(pos, value@),
    {
        match self.find_index(pos) {
            Some(i) => {
                proof {
                    lemma_entries_map_update(self.entries@, i as int, value);
                }
                self.entries[i] = (pos, value);
            },
            None => {
                proof {
                    lemma_entries_map_push(self.entries@, pos, value);
                }
                self.entries.push((pos, value));
            },
        }
    }

    /// Removes and returns the value bound to `pos`, if any.
    pub fn remove(&mut self, pos: ChunkPos) -> (r: Option<V>)
        requires
            old(self).wf(),
        ensures
            final(self).wf(),
            final(self)@ == old(self)@.remove(pos),
            match r {
                Some(v) => old(self)@.dom().contains(pos) && v@ == old(self)@[pos],
                None => !old(self)@.dom().contains(pos),
            },
    {
        proof {
            lemma_entries_map_dom(self.entries@);
        }
        match self.find_index(pos) {
            Some(i) => {
                proof {
                    lemma_entries_map_index(self.entries@, i as int);
                    lemma_entries_map_remove(self.entries@, i as int);
                }
                let ghost s = self.entries@;
                let entry = self.entries.remove(i);
                proof {
                    assert forall|a: int, b: int|
                        0 <= a < b < self.entries@.len() implies (#[trigger] self.entries@[a]).0
                        != (#[trigger] self.entries@[b]).0 by {
                        if b < i {
                            assert(s[a].0 != s[b].0);
                        } else if a < i {
                            assert(s[a].0 != s[b + 1].0);
                        } else {
                            assert(s[a + 1].0 != s[b + 1].0);
                        }
                    }
                }
                Some(entry.1)
            },
            None => {
                proof {
                    assert(old(self)@ =~= old(self)@.remove(pos));
                }
                None
            },
        }
    }

    /// All keys of the map, each exactly once, in storage order.
    pub fn keys(&self) -> (ks: Vec<ChunkPos>)
        requires
            self.wf(),
        ensures
            forall|p: ChunkPos| #[trigger] ks@.contains(p) <==> self@.dom().contains(p),
            forall|i: int, j: int| 0 <= i < j < ks@.len() ==> ks@[i] != ks@[j],
    {
        proof {
            lemma_entries_map_dom(self.entries@);
        }
        let n = self.entries.len();
        let mut ks: Vec<ChunkPos> = Vec::new();
        let mut k: usize = 0;
        while k < n
            invariant
                k <= n,
                n == self.entries@.len(),
                ks@.len() == k,
                forall|i: int| 0 <= i < k ==> ks@[i] == (#[trigger] self.entries@[i]).0,
            decreases n - k,
        {
            ks.push(self.entries[k].0);
            k = k + 1;
        }
        proof {
            assert forall|p: ChunkPos| #[trigger] ks@.contains(p) implies self@.dom().contains(
                p,
            ) by {
                let i = choose|i: int| 0 <= i < ks@.len() && ks@[i] == p;
                assert(self.entries@[i].0 == p);
            }
            assert forall|p: ChunkPos| self@.dom().contains(p) implies ks@.contains(p) by {
                let i = choose|i: int| 0 <= i < self.entries@.len() && (#[trigger] self.entries@[i]).0 == p;
                assert(ks@[i] == p);
            }
            assert forall|i: int, j: int| 0 <= i < j < ks@.len() implies ks@[i] != ks@[j] by {
                assert(self.entries@[i].0 != self.entries@[j].0);
            }
        }
        ks
    }
}

} // verus!
