//! Per-network RPC endpoint overrides: a map from network id to URL.

use vstd::prelude::*;
use crate::text::str_equal;

verus! {

/// No two entries share a network id.
pub open spec fn keys_distinct(s: Seq<(String, String)>) -> bool {
    forall|i: int, j: int| 0 <= i < j < s.len() ==> #[trigger] s[i].0@ != #[trigger] s[j].0@
}

/// The map that distinct-keyed entries stand for.
pub open spec fn entries_map(s: Seq<(String, String)>) -> Map<Seq<char>, Seq<char>> {
    Map::new(
        |k: Seq<char>| exists|i: int| 0 <= i < s.len() && #[trigger] s[i].0@ == k,
        |k: Seq<char>| s[choose|i: int| 0 <= i < s.len() && #[trigger] s[i].0@ == k].1@,
    )
}

/// Network id to RPC URL, one URL per network.
pub struct RpcUrls {
    entries: Vec<(String, String)>,
}

impl View for RpcUrls {
    type V = Map<Seq<char>, Seq<char>>;

    closed spec fn view(&self) -> Map<Seq<char>, Seq<char>> {
        entries_map(self.entries@)
    }
}

proof fn lemma_entry_in_map(s: Seq<(String, String)>, i: int)
    requires
        keys_distinct(s),
        0 <= i < s.len(),
    ensures
        entries_map(s).contains_key(s[i].0@),
        entries_map(s)[s[i].0@] == s[i].1@,
{
    let k = s[i].0@;
    assert(exists|j: int| 0 <= j < s.len() && #[trigger] s[j].0@ == k);
    let j = choose|j: int| 0 <= j < s.len() && #[trigger] s[j].0@ == k;
    if j != i {
        if j < i {
            assert(s[j].0@ != s[i].0@);
        } else {
            assert(s[i].0@ != s[j].0@);
        }
    }
}

impl RpcUrls {
    #[verifier::type_invariant]
    spec fn inv(&self) -> bool {
        keys_distinct(self.entries@)
    }

    /// No overrides.
    pub fn new() -> (r: Self)
        ensures
            r@ == Map::<Seq<char>, Seq<char>>::empty(),
    {
        let r = RpcUrls { entries: Vec::new() };
        proof {
            assert(r@ =~= Map::<Seq<char>, Seq<char>>::empty());
        }
        r
    }

    /// The URL recorded for `network`, if any.
    pub fn get(&self, network: &str) -> (r: Option<&String>)
        ensures
            match r {
                Some(v) => self@.contains_key(network@) && self@[network@] == v@,
                None => !self@.contains_key(network@),
            },
    {
        proof {
            use_type_invariant(self);
        }
        let n = self.entries.len();
        let mut i: usize = 0;
        while i < n
            invariant
                n == self.entries@.len(),
                i <= n,
                keys_distinct(self.entries@),
                forall|k: int| 0 <= k < i ==> #[trigger] self.entries@[k].0@ != network@,
            decreases n - i,
        {
            if str_equal(self.entries[i].0.as_str(), network) {
                proof {
                    lemma_entry_in_map(self.entries@, i as int);
                }
                return Some(&self.entries[i].1);
            }
            i = i + 1;
        }
        None
    }

    /// Records `url` for `network`, replacing any earlier URL.
    pub fn insert(&mut self, network: String, url: String)
        ensures
            final(self)@ == old(self)@.insert(network@, url@),
    {
        proof {
            use_type_invariant(&*self);
        }
        let ghost old_entries = self.entries@;
        let n = self.entries.len();
        let mut i: usize = 0;
        let mut found = false;
        while i < n && !found
            invariant
                n == self.entries@.len(),
                self.entries@ == old_entries,
                i <= n,
                keys_distinct(self.entries@),
                found ==> (i < n && self.entries@[i as int].0@ == network@),
                !found ==> forall|k: int| 0 <= k < i ==> #[trigger] self.entries@[k].0@ != network@,
            decreases (n - i) * 2 + if found { 0int } else { 1int },
        {
            if str_equal(self.entries[i].0.as_str(), network.as_str()) {
                found = true;
            } else {
                i = i + 1;
            }
        }
        let mut entries = Vec::new();
        std::mem::swap(&mut entries, &mut self.entries);
        if found {
            entries.set(i, (network, url));
            proof {
                assert forall|a: int, b: int| 0 <= a < b < entries@.len() implies #[trigger] entries@[a].0@
                    != #[trigger] entries@[b].0@ by {
                    assert(entries@[a].0@ == old_entries[a].0@);
                    assert(entries@[b].0@ == old_entries[b].0@);
                    assert(old_entries[a].0@ != old_entries[b].0@);
                }
                assert forall|k: Seq<char>| #![auto] entries_map(entries@).contains_key(k)
                    <==> entries_map(old_entries).insert(network@, url@).contains_key(k) by {
                    if entries_map(old_entries).contains_key(k) {
                        let j = choose|j: int| 0 <= j < old_entries.len() && #[trigger] old_entries[j].0@ == k;
                        assert(entries@[j].0@ == k);
                    }
                    if entries_map(entries@).contains_key(k) {
                        let j = choose|j: int| 0 <= j < entries@.len() && #[trigger] entries@[j].0@ == k;
                        assert(old_entries[j].0@ == k);
                    }
                }
                assert forall|k: Seq<char>| #![auto] entries_map(entries@).contains_key(k)
                    implies entries_map(entries@)[k] == entries_map(old_entries).insert(network@, url@)[k] by {
                    let j = choose|j: int| 0 <= j < entries@.len() && #[trigger] entries@[j].0@ == k;
                    lemma_entry_in_map(entries@, j);
                    if j != i {
                        lemma_entry_in_map(old_entries, j);
                    }
                }
                assert(entries_map(entries@) =~= entries_map(old_entries).insert(network@, url@));
            }
        } else {
            entries.push((network, url));
            proof {
                assert forall|a: int, b: int| 0 <= a < b < entries@.len() implies #[trigger] entries@[a].0@
                    != #[trigger] entries@[b].0@ by {
                    if b < n {
                        assert(old_entries[a].0@ != old_entries[b].0@);
                    }
                }
                assert forall|k: Seq<char>| #![auto] entries_map(entries@).contains_key(k)
                    <==> entries_map(old_entries).insert(network@, url@).contains_key(k) by {
                    if entries_map(old_entries).contains_key(k) {
                        let j = choose|j: int| 0 <= j < old_entries.len() && #[trigger] old_entries[j].0@ == k;
                        assert(entries@[j].0@ == k);
                    }
                    if k == network@ {
                        assert(entries@[n as int].0@ == k);
                    }
                    if entries_map(entries@).contains_key(k) {
                        let j = choose|j: int| 0 <= j < entries@.len() && #[trigger] entries@[j].0@ == k;
                        if j < n {
                            assert(old_entries[j].0@ == k);
                        }
                    }
                }
                assert forall|k: Seq<char>| #![auto] entries_map(entries@).contains_key(k)
                    implies entries_map(entries@)[k] == entries_map(old_entries).insert(network@, url@)[k] by {
                    let j = choose|j: int| 0 <= j < entries@.len() && #[trigger] entries@[j].0@ == k;
                    lemma_entry_in_map(entries@, j);
                    if j < n {
                        lemma_entry_in_map(old_entries, j);
                    }
                }
                assert(entries_map(entries@) =~= entries_map(old_entries).insert(network@, url@));
            }
        }
        self.entries = entries;
    }

    /// Forgets the URL recorded for `network`, if any.
    pub fn remove(&mut self, network: &str)
        ensures
            final(self)@ == old(self)@.remove(network@),
    {
        proof {
            use_type_invariant(&*self);
        }
        let ghost old_entries = self.entries@;
        let n = self.entries.len();
        let mut i: usize = 0;
        let mut found = false;
        while i < n && !found
            invariant
                n == self.entries@.len(),
                self.entries@ == old_entries,
                i <= n,
                keys_distinct(self.entries@),
                found ==> (i < n && self.entries@[i as int].0@ == network@),
                !found ==> forall|k: int| 0 <= k < i ==> #[trigger] self.entries@[k].0@ != network@,
            decreases (n - i) * 2 + if found { 0int } else { 1int },
        {
            if str_equal(self.entries[i].0.as_str(), network) {
                found = true;
            } else {
                i = i + 1;
            }
        }
        if !found {
            proof {
                assert(!entries_map(old_entries).contains_key(network@)) by {
                    if entries_map(old_entries).contains_key(network@) {
                        let j = choose|j: int| 0 <= j < old_entries.len() && #[trigger] old_entries[j].0@ == network@;
                        assert(old_entries[j].0@ != network@);
                    }
                }
                assert(entries_map(old_entries) =~= entries_map(old_entries).remove(network@));
            }
            return;
        }
        let mut entries = Vec::new();
        std::mem::swap(&mut entries, &mut self.entries);
        let _gone = entries.remove(i);
        proof {
            let ne = entries@;
            assert forall|a: int, b: int| 0 <= a < b < ne.len() implies #[trigger] ne[a].0@
                != #[trigger] ne[b].0@ by {
                let oa = if a < i { a } else { a + 1 };
                let ob = if b < i { b } else { b + 1 };
                assert(ne[a] == old_entries[oa]);
                assert(ne[b] == old_entries[ob]);
                assert(old_entries[oa].0@ != old_entries[ob].0@);
            }
            assert forall|k: Seq<char>| #![auto] entries_map(ne).contains_key(k)
                <==> entries_map(old_entries).remove(network@).contains_key(k) by {
                if entries_map(ne).contains_key(k) {
                    let j = choose|j: int| 0 <= j < ne.len() && #[trigger] ne[j].0@ == k;
                    let oj = if j < i { j } else { j + 1 };
                    assert(ne[j] == old_entries[oj]);
                    assert(old_entries[oj].0@ == k);
                    assert(old_entries[i as int].0@ != old_entries[oj].0@ || oj == i);
                }
                if entries_map(old_entries).remove(network@).contains_key(k) {
                    let j = choose|j: int| 0 <= j < old_entries.len() && #[trigger] old_entries[j].0@ == k;
                    assert(j != i);
                    let nj = if j < i { j } else { j - 1 };
                    assert(ne[nj] == old_entries[j]);
                    assert(ne[nj].0@ == k);
                }
            }
            assert forall|k: Seq<char>| #![auto] entries_map(ne).contains_key(k)
                implies entries_map(ne)[k] == entries_map(old_entries).remove(network@)[k] by {
                let j = choose|j: int| 0 <= j < ne.len() && #[trigger] ne[j].0@ == k;
                let oj = if j < i { j } else { j + 1 };
                assert(ne[j] == old_entries[oj]);
                lemma_entry_in_map(ne, j);
                lemma_entry_in_map(old_entries, oj);
            }
            assert(entries_map(ne) =~= entries_map(old_entries).remove(network@));
        }
        self.entries = entries;
    }

    /// Whether both record the same URL for the same networks.
    pub fn same_as(&self, other: &RpcUrls) -> (r: bool)
        ensures
            r == (self@ == other@),
    {
        proof {
            use_type_invariant(self);
            use_type_invariant(other);
        }
        let n = self.entries.len();
        let mut i: usize = 0;
        while i < n
            invariant
                n == self.entries@.len(),
                i <= n,
                keys_distinct(self.entries@),
                keys_distinct(other.entries@),
                forall|k: int|
                    0 <= k < i ==> other@.contains_key(#[trigger] self.entries@[k].0@) && other@[self.entries@[k].0@]
                        == self.entries@[k].1@,
            decreases n - i,
        {
            let same_here = match other.get(self.entries[i].0.as_str()) {
                Some(v) => *v == self.entries[i].1,
                None => false,
            };
            if !same_here {
                proof {
                    lemma_entry_in_map(self.entries@, i as int);
                }
                return false;
            }
            i = i + 1;
        }
        let m = other.entries.len();
        let mut j: usize = 0;
        while j < m
            invariant
                m == other.entries@.len(),
                j <= m,
                keys_distinct(self.entries@),
                keys_distinct(other.entries@),
                forall|k: int| 0 <= k < j ==> self@.contains_key(#[trigger] other.entries@[k].0@),
            decreases m - j,
        {
            if self.get(other.entries[j].0.as_str()).is_none() {
                proof {
                    lemma_entry_in_map(other.entries@, j as int);
                }
                return false;
            }
            j = j + 1;
        }
        proof {
            assert forall|k: Seq<char>| #![auto] self@.contains_key(k) <==> other@.contains_key(k) by {
                if self@.contains_key(k) {
                    let a = choose|a: int| 0 <= a < self.entries@.len() && #[trigger] self.entries@[a].0@ == k;
                    assert(other@.contains_key(self.entries@[a].0@));
                }
                if other@.contains_key(k) {
                    let b = choose|b: int| 0 <= b < other.entries@.len() && #[trigger] other.entries@[b].0@ == k;
                    assert(self@.contains_key(other.entries@[b].0@));
                }
            }
            assert forall|k: Seq<char>| #![auto] self@.contains_key(k) implies self@[k] == other@[k] by {
                let a = choose|a: int| 0 <= a < self.entries@.len() && #[trigger] self.entries@[a].0@ == k;
                lemma_entry_in_map(self.entries@, a);
                assert(other@[self.entries@[a].0@] == self.entries@[a].1@);
            }
            assert(self@ =~= other@);
        }
        true
    }
}

} // verus!
