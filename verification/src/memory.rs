//! Per-user location memory: a mapping from user identity to the last
//! query that user resolved.
//!
//! Keys are unique; insertion order carries no meaning. An entry appears
//! only when a user resolves a location or postal-code query, entries
//! are overwritten on each later resolution, and nothing removes them
//! while the process lives.

use vstd::prelude::*;
use crate::strutil::str_eq;

verus! {

pub struct UserLocationMemory {
    entries: Vec<(String, String)>,
}

impl View for UserLocationMemory {
    type V = Map<Seq<char>, Seq<char>>;

    closed spec fn view(&self) -> Map<Seq<char>, Seq<char>> {
        Map::new(
            |k: Seq<char>|
                exists|i: int| 0 <= i < self.entries@.len() && self.entries@[i].0@ == k,
            |k: Seq<char>|
                self.entries@[choose|i: int|
                    0 <= i < self.entries@.len() && self.entries@[i].0@ == k].1@,
        )
    }
}

impl UserLocationMemory {
    /// Keys are pairwise distinct, so a lookup has at most one match.
    pub closed spec fn inv(self) -> bool {
        forall|i: int, j: int|
            0 <= i < j < self.entries@.len() ==> self.entries@[i].0@ != self.entries@[j].0@
    }

    proof fn lemma_view_get(self, k: Seq<char>, i: int)
        requires
            self.inv(),
            0 <= i < self.entries@.len(),
            self.entries@[i].0@ == k,
        ensures
            self@.contains_key(k),
            self@[k] == self.entries@[i].1@,
    {
        let j = choose|j: int| 0 <= j < self.entries@.len() && self.entries@[j].0@ == k;
        if j != i {
            if j < i {
                assert(self.entries@[j].0@ != self.entries@[i].0@);
            } else {
                assert(self.entries@[i].0@ != self.entries@[j].0@);
            }
        }
    }

    proof fn lemma_view_absent(self, k: Seq<char>)
        requires
            forall|i: int| 0 <= i < self.entries@.len() ==> self.entries@[i].0@ != k,
        ensures
            !self@.contains_key(k),
    {
    }

    /// A fresh store holds nothing.
    pub fn new() -> (r: UserLocationMemory)
        ensures
            r.inv(),
            r@ == Map::<Seq<char>, Seq<char>>::empty(),
    {
        let r = UserLocationMemory { entries: Vec::new() };
        proof {
            assert(r@ =~= Map::<Seq<char>, Seq<char>>::empty());
        }
        r
    }

    /// The query stored for `nick`, if any.
    pub fn lookup(&self, nick: &str) -> (r: Option<String>)
        requires
            self.inv(),
        ensures
            match r {
                Some(q) => self@.contains_key(nick@) && q@ == self@[nick@],
                None => !self@.contains_key(nick@),
            },
    {
        let n = self.entries.len();
        let mut i: usize = 0;
        while i < n
            invariant
                self.inv(),
                i <= n,
                n == self.entries@.len(),
                forall|j: int| 0 <= j < i ==> self.entries@[j].0@ != nick@,
            decreases n - i,
        {
            if str_eq(self.entries[i].0.as_str(), nick) {
                let q = self.entries[i].1.clone();
                proof {
                    self.lemma_view_get(nick@, i as int);
                }
                return Some(q);
            }
            i += 1;
        }
        proof {
            self.lemma_view_absent(nick@);
        }
        None
    }

    /// Stores `query` under `nick`, overwriting any earlier entry.
    pub fn store(&mut self, nick: &str, query: String)
        requires
            old(self).inv(),
        ensures
            final(self).inv(),
            final(self)@ == old(self)@.insert(nick@, query@),
    {
        let ghost target = old(self)@.insert(nick@, query@);
        let n = self.entries.len();
        let mut i: usize = 0;
        while i < n
            invariant
                self.inv(),
                *self == *old(self),
                i <= n,
                n == self.entries@.len(),
                forall|j: int| 0 <= j < i ==> self.entries@[j].0@ != nick@,
            decreases n - i,
        {
            if str_eq(self.entries[i].0.as_str(), nick) {
                let k = self.entries[i].0.clone();
                self.entries.set(i, (k, query));
                proof {
                    self.lemma_store_replace(*old(self), nick@, query@, i as int);
                }
                return ;
            }
            i += 1;
        }
        let owned = nick.to_owned();
        self.entries.push((owned, query));
        proof {
            self.lemma_store_push(*old(self), nick@, query@);
        }
    }

    proof fn lemma_store_replace(
        self,
        prev: UserLocationMemory,
        nick: Seq<char>,
        query: Seq<char>,
        i: int,
    )
        requires
            prev.inv(),
            0 <= i < prev.entries@.len(),
            prev.entries@[i].0@ == nick,
            self.entries@.len() == prev.entries@.len(),
            self.entries@ == prev.entries@.update(i, self.entries@[i]),
            self.entries@[i].0@ == nick,
            self.entries@[i].1@ == query,
        ensures
            self.inv(),
            self@ == prev@.insert(nick, query),
    {
        assert forall|p: int, q: int| 0 <= p < q < self.entries@.len() implies self.entries@[p].0@
            != self.entries@[q].0@ by {
            assert(prev.entries@[p].0@ != prev.entries@[q].0@);
            assert(self.entries@[p].0@ == prev.entries@[p].0@);
            assert(self.entries@[q].0@ == prev.entries@[q].0@);
        }
        assert forall|k: Seq<char>| #[trigger] self@.contains_key(k) implies prev@.insert(
            nick,
            query,
        ).contains_key(k) by {
            let w = choose|w: int| 0 <= w < self.entries@.len() && self.entries@[w].0@ == k;
            if k != nick {
                assert(prev.entries@[w].0@ == k);
                prev.lemma_view_get(k, w);
            }
        }
        assert forall|k: Seq<char>| #[trigger] prev@.insert(nick, query).contains_key(
            k,
        ) implies self@.contains_key(k) by {
            if k == nick {
                assert(self.entries@[i].0@ == k);
            } else {
                let w = choose|w: int| 0 <= w < prev.entries@.len() && prev.entries@[w].0@ == k;
                assert(self.entries@[w].0@ == k);
            }
        }
        assert forall|k: Seq<char>| #[trigger] self@.contains_key(k) implies self@[k]
            == prev@.insert(nick, query)[k] by {
            if k == nick {
                self.lemma_view_get(k, i);
            } else {
                let w = choose|w: int| 0 <= w < self.entries@.len() && self.entries@[w].0@ == k;
                assert(w != i);
                self.lemma_view_get(k, w);
                assert(prev.entries@[w].0@ == k);
                assert(prev.entries@[w].1@ == self.entries@[w].1@);
                prev.lemma_view_get(k, w);
            }
        }
        assert(self@ =~= prev@.insert(nick, query));
    }

    proof fn lemma_store_push(self, prev: UserLocationMemory, nick: Seq<char>, query: Seq<char>)
        requires
            prev.inv(),
            forall|j: int| 0 <= j < prev.entries@.len() ==> prev.entries@[j].0@ != nick,
            self.entries@ == prev.entries@.push(self.entries@.last()),
            self.entries@.len() == prev.entries@.len() + 1,
            self.entries@.last().0@ == nick,
            self.entries@.last().1@ == query,
        ensures
            self.inv(),
            self@ == prev@.insert(nick, query),
    {
        let n = prev.entries@.len() as int;
        assert forall|p: int, q: int| 0 <= p < q < self.entries@.len() implies self.entries@[p].0@
            != self.entries@[q].0@ by {
            if q < n {
                assert(prev.entries@[p].0@ != prev.entries@[q].0@);
            } else {
                assert(self.entries@[q].0@ == nick);
                assert(prev.entries@[p].0@ != nick);
            }
        }
        assert forall|k: Seq<char>| #[trigger] self@.contains_key(k) implies prev@.insert(
            nick,
            query,
        ).contains_key(k) by {
            let w = choose|w: int| 0 <= w < self.entries@.len() && self.entries@[w].0@ == k;
            if k != nick {
                assert(w < n);
                prev.lemma_view_get(k, w);
            }
        }
        assert forall|k: Seq<char>| #[trigger] prev@.insert(nick, query).contains_key(
            k,
        ) implies self@.contains_key(k) by {
            if k == nick {
                assert(self.entries@[n].0@ == k);
            } else {
                let w = choose|w: int| 0 <= w < prev.entries@.len() && prev.entries@[w].0@ == k;
                assert(self.entries@[w].0@ == k);
            }
        }
        assert forall|k: Seq<char>| #[trigger] self@.contains_key(k) implies self@[k]
            == prev@.insert(nick, query)[k] by {
            if k == nick {
                self.lemma_view_get(k, n);
            } else {
                let w = choose|w: int| 0 <= w < self.entries@.len() && self.entries@[w].0@ == k;
                assert(w != n);
                self.lemma_view_get(k, w);
                assert(prev.entries@[w].0@ == k);
                prev.lemma_view_get(k, w);
            }
        }
        assert(self@ =~= prev@.insert(nick, query));
    }
}

} // verus!
