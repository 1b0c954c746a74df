//! The tool's configuration: GitLab connection, project layout, environment
//! branches and the map from merge-request source branches to target branches.

use vstd::prelude::*;
use crate::order::{
    lemma_seq_lt_total, lemma_strictly_sorted_unique, lemma_string_pair_order, seq_lt, sort_by_lt,
    sorted_by, str_lt, strictly_sorted, string_pair_lt,
};
use crate::text::{
    clone_strings, is_empty_str, join, join_strings, owned, split_words, str_eq, trim, trim_str,
    words,
};

verus! {

/// Views of string pairs.
pub open spec fn pair_views(v: Seq<(String, String)>) -> Seq<(Seq<char>, Seq<char>)> {
    v.map_values(|p: (String, String)| (p.0@, p.1@))
}

/// The keys of a map in ascending order.
pub open spec fn sorted_keys(m: Map<Seq<char>, Seq<char>>) -> Seq<Seq<char>> {
    choose|s: Seq<Seq<char>>|
        strictly_sorted(s) && forall|x: Seq<char>| #[trigger] s.contains(x) <==> m.contains_key(x)
}

/// The entries of a map in ascending order of their keys.
pub open spec fn sorted_pairs(m: Map<Seq<char>, Seq<char>>) -> Seq<(Seq<char>, Seq<char>)> {
    sorted_keys(m).map_values(|k: Seq<char>| (k, m[k]))
}

/// The keys of a map whose value is `target`, in ascending order.
pub open spec fn sorted_sources(m: Map<Seq<char>, Seq<char>>, target: Seq<char>) -> Seq<Seq<char>> {
    choose|s: Seq<Seq<char>>|
        strictly_sorted(s) && forall|x: Seq<char>|
            #[trigger] s.contains(x) <==> (m.contains_key(x) && m[x] == target)
}

proof fn lemma_sorted_keys(m: Map<Seq<char>, Seq<char>>, ks: Seq<Seq<char>>)
    requires
        strictly_sorted(ks),
        forall|x: Seq<char>| #[trigger] ks.contains(x) <==> m.contains_key(x),
    ensures
        sorted_keys(m) == ks,
{
    let c = sorted_keys(m);
    assert(strictly_sorted(c) && forall|x: Seq<char>| #[trigger] c.contains(x) <==> m.contains_key(x));
    lemma_strictly_sorted_unique(c, ks);
}

proof fn lemma_sorted_sources(m: Map<Seq<char>, Seq<char>>, target: Seq<char>, ks: Seq<Seq<char>>)
    requires
        strictly_sorted(ks),
        forall|x: Seq<char>| #[trigger] ks.contains(x) <==> (m.contains_key(x) && m[x] == target),
    ensures
        sorted_sources(m, target) == ks,
{
    let c = sorted_sources(m, target);
    assert(strictly_sorted(c) && forall|x: Seq<char>|
        #[trigger] c.contains(x) <==> (m.contains_key(x) && m[x] == target));
    lemma_strictly_sorted_unique(c, ks);
}

/// Connection settings of the GitLab server.
#[derive(Debug, Clone)]
pub struct GitLabConfig {
    pub host: String,
    pub token: String,
}

/// Where the local repositories live and how merge branches are named.
#[derive(Debug, Clone)]
pub struct ProjectConfig {
    /// The directories scanned for repositories; kept non-empty and free of
    /// repeats by the settings pages (see [`roots_wf`]).
    pub root_dirs: Vec<String>,
    pub merge_branch_middle: String,
    pub env_branches: Vec<String>,
}

/// The map that a list of `(key, value)` entries describes, later entries
/// overriding earlier ones.
pub open spec fn entries_map(s: Seq<(String, String)>) -> Map<Seq<char>, Seq<char>>
    decreases s.len(),
{
    if s.len() == 0 {
        Map::empty()
    } else {
        entries_map(s.drop_last()).insert(s.last().0@, s.last().1@)
    }
}

/// No key occurs twice among the entries.
pub open spec fn distinct_keys(s: Seq<(String, String)>) -> bool {
    forall|i: int, j: int| 0 <= i < j < s.len() ==> #[trigger] s[i].0@ != #[trigger] s[j].0@
}

proof fn lemma_entries_map(s: Seq<(String, String)>)
    requires
        distinct_keys(s),
    ensures
        entries_map(s).dom().finite(),
        entries_map(s).dom().len() == s.len(),
        forall|k: Seq<char>|
            #[trigger] entries_map(s).contains_key(k) <==> exists|i: int|
                0 <= i < s.len() && #[trigger] s[i].0@ == k,
        forall|i: int| 0 <= i < s.len() ==> #[trigger] entries_map(s)[s[i].0@] == s[i].1@,
    decreases s.len(),
{
    if s.len() > 0 {
        let t = s.drop_last();
        assert(distinct_keys(t)) by {
            assert forall|i: int, j: int| 0 <= i < j < t.len() implies #[trigger] t[i].0@
                != #[trigger] t[j].0@ by {
                assert(t[i] == s[i] && t[j] == s[j]);
            }
        }
        lemma_entries_map(t);
        let n = s.len() - 1;
        assert(!entries_map(t).contains_key(s.last().0@)) by {
            if entries_map(t).contains_key(s.last().0@) {
                let i = choose|i: int| 0 <= i < t.len() && #[trigger] t[i].0@ == s.last().0@;
                assert(t[i] == s[i]);
                assert(s[i].0@ != s[n].0@);
            }
        }
        assert forall|k: Seq<char>|
            #[trigger] entries_map(s).contains_key(k) <==> exists|i: int|
                0 <= i < s.len() && #[trigger] s[i].0@ == k by {
            if entries_map(s).contains_key(k) {
                if k != s.last().0@ {
                    let i = choose|i: int| 0 <= i < t.len() && #[trigger] t[i].0@ == k;
                    assert(t[i] == s[i]);
                } else {
                    assert(s[n].0@ == k);
                }
            }
            if exists|i: int| 0 <= i < s.len() && #[trigger] s[i].0@ == k {
                let i = choose|i: int| 0 <= i < s.len() && #[trigger] s[i].0@ == k;
                if i < n {
                    assert(t[i] == s[i]);
                }
            }
        }
        assert forall|i: int| 0 <= i < s.len() implies #[trigger] entries_map(s)[s[i].0@]
            == s[i].1@ by {
            if i < n {
                assert(t[i] == s[i]);
                assert(s[i].0@ != s[n].0@);
            }
        }
    }
}

proof fn lemma_permuted_entries(p: Seq<(String, String)>, r: Seq<(String, String)>)
    requires
        distinct_keys(p),
        r.to_multiset() == p.to_multiset(),
        sorted_by(r, |a: (String, String), b: (String, String)| string_pair_lt(a, b)),
    ensures
        r.len() == p.len(),
        forall|i: int|
            0 <= i < r.len() ==> entries_map(p).contains_key(#[trigger] r[i].0@)
                && entries_map(p)[r[i].0@] == r[i].1@,
        forall|k: Seq<char>|
            #[trigger] entries_map(p).contains_key(k) ==> exists|i: int|
                0 <= i < r.len() && #[trigger] r[i].0@ == k,
        forall|i: int, j: int| 0 <= i < j < r.len() ==> seq_lt(#[trigger] r[i].0@, #[trigger] r[j].0@),
{
    broadcast use vstd::seq_lib::group_to_multiset_ensures;

    lemma_entries_map(p);
    p.to_multiset_ensures();
    r.to_multiset_ensures();
    assert(p.no_duplicates()) by {
        assert forall|a: int, b: int| 0 <= a < p.len() && 0 <= b < p.len() && a != b implies p[a]
            != p[b] by {
            if a < b {
                assert(p[a].0@ != p[b].0@);
            } else {
                assert(p[b].0@ != p[a].0@);
            }
        }
    }
    p.lemma_multiset_has_no_duplicates();
    assert forall|i: int| 0 <= i < r.len() implies exists|m: int|
        0 <= m < p.len() && p[m] == #[trigger] r[i] by {
        assert(r.contains(r[i]));
        assert(p.to_multiset().count(r[i]) > 0);
        assert(p.contains(r[i]));
    }
    assert forall|i: int|
        0 <= i < r.len() implies entries_map(p).contains_key(#[trigger] r[i].0@)
            && entries_map(p)[r[i].0@] == r[i].1@ by {
        let m = choose|m: int| 0 <= m < p.len() && p[m] == r[i];
        assert(p[m].0@ == r[i].0@);
    }
    assert forall|k: Seq<char>| #[trigger] entries_map(p).contains_key(k) implies exists|i: int|
        0 <= i < r.len() && #[trigger] r[i].0@ == k by {
        let m = choose|m: int| 0 <= m < p.len() && #[trigger] p[m].0@ == k;
        assert(p.contains(p[m]));
        assert(r.to_multiset().count(p[m]) > 0);
        assert(r.contains(p[m]));
        let i = choose|i: int| 0 <= i < r.len() && r[i] == p[m];
        assert(r[i].0@ == k);
    }
    assert forall|i: int, j: int| 0 <= i < j < r.len() implies seq_lt(
        #[trigger] r[i].0@,
        #[trigger] r[j].0@,
    ) by {
        let a = choose|m: int| 0 <= m < p.len() && p[m] == r[i];
        let b = choose|m: int| 0 <= m < p.len() && p[m] == r[j];
        if a == b {
            let x = r[i];
            assert(r.remove(j).to_multiset() =~= r.to_multiset().remove(r[j]));
            assert(r.remove(j)[i] == x);
            assert(r.remove(j).contains(x));
            assert(r.remove(j).to_multiset().count(x) > 0);
            assert(r.to_multiset().count(x) >= 2);
            assert(p.to_multiset().count(x) == 1);
        }
        assert(a != b);
        if a < b {
            assert(p[a].0@ != p[b].0@);
        } else {
            assert(p[b].0@ != p[a].0@);
        }
        lemma_seq_lt_total(r[i].0@, r[j].0@);
        assert(!string_pair_lt(r[j], r[i]));
    }
}

/// The map from merge-request source branch to target branch; a source occurs
/// at most once.
pub struct BranchMap {
    entries: Vec<(String, String)>,
}

impl View for BranchMap {
    type V = Map<Seq<char>, Seq<char>>;

    closed spec fn view(&self) -> Map<Seq<char>, Seq<char>> {
        entries_map(self.entries@)
    }
}

impl BranchMap {
    #[verifier::type_invariant]
    spec fn keys_distinct(self) -> bool {
        distinct_keys(self.entries@)
    }

    /// An empty map.
    pub fn new() -> (m: BranchMap)
        ensures
            m@ == Map::<Seq<char>, Seq<char>>::empty(),
    {
        BranchMap { entries: Vec::new() }
    }

    /// The number of sources.
    pub fn len(&self) -> (n: usize)
        ensures
            self@.dom().finite(),
            n == self@.dom().len(),
    {
        proof {
            use_type_invariant(self);
            lemma_entries_map(self.entries@);
        }
        self.entries.len()
    }

    /// Whether the map holds no source.
    pub fn is_empty(&self) -> (r: bool)
        ensures
            r == (self@ == Map::<Seq<char>, Seq<char>>::empty()),
    {
        proof {
            use_type_invariant(self);
            lemma_entries_map(self.entries@);
            if self.entries@.len() > 0 {
                assert(self@.contains_key(self.entries@[0].0@));
            } else {
                assert(self@ =~= Map::<Seq<char>, Seq<char>>::empty());
            }
        }
        self.entries.len() == 0
    }

    fn position(&self, key: &str) -> (r: Option<usize>)
        ensures
            match r {
                Some(i) => i < self.entries@.len() && self.entries@[i as int].0@ == key@,
                None => forall|i: int|
                    0 <= i < self.entries@.len() ==> #[trigger] self.entries@[i].0@ != key@,
            },
    {
        let mut i: usize = 0;
        while i < self.entries.len()
            invariant
                i <= self.entries@.len(),
                forall|k: int| 0 <= k < i ==> #[trigger] self.entries@[k].0@ != key@,
            decreases self.entries@.len() - i,
        {
            if str_eq(self.entries[i].0.as_str(), key) {
                return Some(i);
            }
            i = i + 1;
        }
        None
    }

    /// The target branch of `key`, if it is a source of the map.
    pub fn get(&self, key: &str) -> (r: Option<&String>)
        ensures
            match r {
                Some(v) => self@.contains_key(key@) && v@ == self@[key@],
                None => !self@.contains_key(key@),
            },
    {
        proof {
            use_type_invariant(self);
            lemma_entries_map(self.entries@);
        }
        match self.position(key) {
            Some(i) => Some(&self.entries[i].1),
            None => None,
        }
    }

    /// Whether `key` is a source of the map.
    pub fn contains_key(&self, key: &str) -> (r: bool)
        ensures
            r == self@.contains_key(key@),
    {
        self.get(key).is_some()
    }

    /// Removes `key` and its target, if present.
    pub fn remove(&mut self, key: &str)
        ensures
            final(self)@ == old(self)@.remove(key@),
    {
        proof {
            use_type_invariant(&*self);
        }
        let ghost old_entries = self.entries@;
        let mut kept: Vec<(String, String)> = Vec::new();
        let mut i: usize = 0;
        while i < self.entries.len()
            invariant
                i <= self.entries@.len(),
                self.entries@ == old_entries,
                distinct_keys(old_entries),
                distinct_keys(kept@),
                forall|k: int|
                    0 <= k < kept@.len() ==> (#[trigger] kept@[k]).0@ != key@ && exists|m: int|
                        0 <= m < i && old_entries[m] == kept@[k],
                entries_map(kept@) == entries_map(old_entries.subrange(0, i as int)).remove(
                    key@,
                ),
            decreases self.entries@.len() - i,
        {
            let ghost pre = old_entries.subrange(0, i as int);
            assert(old_entries.subrange(0, i + 1).drop_last() =~= pre);
            if !str_eq(self.entries[i].0.as_str(), key) {
                let e = (self.entries[i].0.clone(), self.entries[i].1.clone());
                let ghost kept_before = kept@;
                kept.push(e);
                proof {
                    assert(kept@.drop_last() =~= kept_before);
                    assert forall|a: int, b: int| 0 <= a < b < kept@.len() implies #[trigger] kept@[a].0@
                        != #[trigger] kept@[b].0@ by {
                        if b == kept@.len() - 1 {
                            let m = choose|m: int| 0 <= m < i && old_entries[m] == kept@[a];
                            assert(old_entries[m].0@ != old_entries[i as int].0@);
                        } else {
                            assert(kept@[a] == kept_before[a] && kept@[b] == kept_before[b]);
                        }
                    }
                    assert forall|k: int| 0 <= k < kept@.len() implies (#[trigger] kept@[k]).0@
                        != key@ && exists|m: int| 0 <= m < i + 1 && old_entries[m] == kept@[k] by {
                        if k < kept@.len() - 1 {
                            assert(kept@[k] == kept_before[k]);
                            let m = choose|m: int| 0 <= m < i && old_entries[m] == kept_before[k];
                            assert(old_entries[m] == kept@[k]);
                        } else {
                            assert(old_entries[i as int] == kept@[k]);
                        }
                    }
                    assert(entries_map(kept@) =~= entries_map(old_entries.subrange(0, i + 1)).remove(
                        key@,
                    ));
                }
            } else {
                proof {
                    assert forall|k: int| 0 <= k < kept@.len() implies (#[trigger] kept@[k]).0@
                        != key@ && exists|m: int| 0 <= m < i + 1 && old_entries[m] == kept@[k] by {
                        let m = choose|m: int| 0 <= m < i && old_entries[m] == kept@[k];
                        assert(old_entries[m] == kept@[k]);
                    }
                    assert(entries_map(kept@) =~= entries_map(old_entries.subrange(0, i + 1)).remove(
                        key@,
                    ));
                }
            }
            i = i + 1;
        }
        assert(old_entries.subrange(0, old_entries.len() as int) =~= old_entries);
        self.entries = kept;
    }

    /// Sets the target of `key` to `value`.
    pub fn insert(&mut self, key: String, value: String)
        ensures
            final(self)@ == old(self)@.insert(key@, value@),
    {
        self.remove(key.as_str());
        proof {
            use_type_invariant(&*self);
            lemma_entries_map(self.entries@);
        }
        let ghost before = self.entries@;
        let ghost k = key@;
        let ghost v = value@;
        let mut es: Vec<(String, String)> = Vec::new();
        std::mem::swap(&mut es, &mut self.entries);
        es.push((key, value));
        proof {
            assert(es@.drop_last() =~= before);
            assert forall|a: int, b: int| 0 <= a < b < es@.len() implies #[trigger] es@[a].0@
                != #[trigger] es@[b].0@ by {
                if b == before.len() {
                    assert(es@[a] == before[a]);
                    assert(entries_map(before).contains_key(before[a].0@));
                } else {
                    assert(es@[a] == before[a] && es@[b] == before[b]);
                }
            }
            assert(entries_map(es@) =~= entries_map(before).insert(k, v));
            assert(old(self)@.remove(k).insert(k, v) =~= old(self)@.insert(k, v));
        }
        self.entries = es;
    }

    /// The entries, each source once, in no particular order.
    pub fn pairs(&self) -> (r: Vec<(String, String)>)
        ensures
            distinct_keys(r@),
            entries_map(r@) == self@,
    {
        proof {
            use_type_invariant(self);
        }
        let mut r: Vec<(String, String)> = Vec::new();
        let mut i: usize = 0;
        while i < self.entries.len()
            invariant
                i <= self.entries@.len(),
                r@ == self.entries@.subrange(0, i as int),
            decreases self.entries@.len() - i,
        {
            r.push((self.entries[i].0.clone(), self.entries[i].1.clone()));
            i = i + 1;
            assert(r@ =~= self.entries@.subrange(0, i as int));
        }
        assert(self.entries@.subrange(0, self.entries@.len() as int) =~= self.entries@);
        r
    }

    /// The entries ordered by source branch.
    pub fn sorted_entries(&self) -> (r: Vec<(String, String)>)
        ensures
            r@.len() == self@.dom().len(),
            forall|i: int|
                0 <= i < r@.len() ==> self@.contains_key(#[trigger] r@[i].0@) && self@[r@[i].0@]
                    == r@[i].1@,
            forall|k: Seq<char>|
                #[trigger] self@.contains_key(k) ==> exists|i: int|
                    0 <= i < r@.len() && #[trigger] r@[i].0@ == k,
            forall|i: int, j: int|
                0 <= i < j < r@.len() ==> seq_lt(#[trigger] r@[i].0@, #[trigger] r@[j].0@),
            pair_views(r@) == sorted_pairs(self@),
    {
        let p = self.pairs();
        proof {
            lemma_string_pair_order();
            lemma_entries_map(p@);
        }
        let lt = |a: &(String, String), b: &(String, String)| -> (x: bool)
            ensures
                x == string_pair_lt(*a, *b),
            {
                str_lt(a.0.as_str(), b.0.as_str()) || (str_eq(a.0.as_str(), b.0.as_str()) && str_lt(
                    a.1.as_str(),
                    b.1.as_str(),
                ))
            };
        let ghost p_view = p@;
        let r = sort_by_lt(
            p,
            &lt,
            Ghost(|a: (String, String), b: (String, String)| string_pair_lt(a, b)),
        );
        proof {
            lemma_permuted_entries(p_view, r@);
            let ks = r@.map_values(|e: (String, String)| e.0@);
            assert forall|i: int, j: int| 0 <= i < j < ks.len() implies seq_lt(
                #[trigger] ks[i],
                #[trigger] ks[j],
            ) by {
                assert(ks[i] == r@[i].0@ && ks[j] == r@[j].0@);
            }
            assert forall|x: Seq<char>| #[trigger] ks.contains(x) <==> self@.contains_key(x) by {
                if ks.contains(x) {
                    let i = choose|i: int| 0 <= i < ks.len() && ks[i] == x;
                    assert(r@[i].0@ == x);
                }
                if self@.contains_key(x) {
                    let i = choose|i: int| 0 <= i < r@.len() && #[trigger] r@[i].0@ == x;
                    assert(ks[i] == x);
                }
            }
            lemma_sorted_keys(self@, ks);
            assert(pair_views(r@) =~= sorted_pairs(self@)) by {
                assert forall|i: int| 0 <= i < r@.len() implies #[trigger] pair_views(r@)[i]
                    == sorted_pairs(self@)[i] by {
                    assert(ks[i] == r@[i].0@);
                }
            }
        }
        r
    }

    /// The sources whose target is `target`, ordered.
    pub fn sources_targeting(&self, target: &str) -> (r: Vec<String>)
        ensures
            forall|i: int|
                0 <= i < r@.len() ==> self@.contains_key(#[trigger] r@[i]@) && self@[r@[i]@]
                    == target@,
            forall|k: Seq<char>|
                #[trigger] self@.contains_key(k) && self@[k] == target@ ==> exists|i: int|
                    0 <= i < r@.len() && #[trigger] r@[i]@ == k,
            forall|i: int, j: int|
                0 <= i < j < r@.len() ==> seq_lt(#[trigger] r@[i]@, #[trigger] r@[j]@),
            views(r@) == sorted_sources(self@, target@),
    {
        let e = self.sorted_entries();
        let mut r: Vec<String> = Vec::new();
        let ghost idx: Seq<int> = seq![];
        let mut i: usize = 0;
        while i < e.len()
            invariant
                i <= e@.len(),
                forall|a: int|
                    0 <= a < e@.len() ==> self@.contains_key(#[trigger] e@[a].0@) && self@[e@[a].0@]
                        == e@[a].1@,
                forall|a: int, b: int|
                    0 <= a < b < e@.len() ==> seq_lt(#[trigger] e@[a].0@, #[trigger] e@[b].0@),
                idx.len() == r@.len(),
                forall|a: int|
                    0 <= a < r@.len() ==> 0 <= #[trigger] idx[a] < i && r@[a]@ == e@[idx[a]].0@
                        && e@[idx[a]].1@ == target@,
                forall|a: int, b: int| 0 <= a < b < r@.len() ==> #[trigger] idx[a] < #[trigger] idx[b],
                forall|m: int|
                    0 <= m < i && #[trigger] e@[m].1@ == target@ ==> exists|a: int|
                        0 <= a < r@.len() && idx[a] == m,
            decreases e@.len() - i,
        {
            let ghost old_idx = idx;
            let ghost old_len = r@.len();
            if str_eq(e[i].1.as_str(), target) {
                r.push(e[i].0.clone());
                proof {
                    idx = idx.push(i as int);
                }
            }
            proof {
                assert forall|m: int| 0 <= m < i + 1 && #[trigger] e@[m].1@ == target@ implies exists|a: int|
                    0 <= a < r@.len() && idx[a] == m by {
                    if m < i {
                        let a = choose|a: int| 0 <= a < old_len && old_idx[a] == m;
                        assert(idx[a] == old_idx[a]);
                    } else {
                        assert(idx[old_len as int] == m);
                    }
                }
            }
            i = i + 1;
        }
        proof {
            assert forall|a: int, b: int| 0 <= a < b < r@.len() implies seq_lt(
                #[trigger] r@[a]@,
                #[trigger] r@[b]@,
            ) by {
                assert(idx[a] < idx[b]);
                assert(seq_lt(e@[idx[a]].0@, e@[idx[b]].0@));
            }
            assert forall|k: Seq<char>| #[trigger] self@.contains_key(k) && self@[k] == target@ implies exists|a: int|
                0 <= a < r@.len() && #[trigger] r@[a]@ == k by {
                let m = choose|m: int| 0 <= m < e@.len() && #[trigger] e@[m].0@ == k;
                assert(e@[m].1@ == target@);
                let a = choose|a: int| 0 <= a < r@.len() && idx[a] == m;
                assert(r@[a]@ == k);
            }
            assert forall|a: int| 0 <= a < r@.len() implies self@.contains_key(#[trigger] r@[a]@)
                && self@[r@[a]@] == target@ by {
                assert(e@[idx[a]].0@ == r@[a]@);
            }
            let ks = views(r@);
            assert forall|a: int, b: int| 0 <= a < b < ks.len() implies seq_lt(
                #[trigger] ks[a],
                #[trigger] ks[b],
            ) by {
                assert(ks[a] == r@[a]@ && ks[b] == r@[b]@);
            }
            assert forall|x: Seq<char>| #[trigger] ks.contains(x) <==> (self@.contains_key(x)
                && self@[x] == target@) by {
                if ks.contains(x) {
                    let a = choose|a: int| 0 <= a < ks.len() && ks[a] == x;
                    assert(r@[a]@ == x);
                }
                if self@.contains_key(x) && self@[x] == target@ {
                    let a = choose|a: int| 0 <= a < r@.len() && #[trigger] r@[a]@ == x;
                    assert(ks[a] == x);
                }
            }
            lemma_sorted_sources(self@, target@, ks);
        }
        r
    }
}


/// The merge branch of environment branch `env` when its middle part is
/// `middle`: `{env}_{middle}_meger`.
pub open spec fn merge_source_name(env: Seq<char>, middle: Seq<char>) -> Seq<char> {
    env + "_"@ + middle + "_meger"@
}

/// The middle part of a project's merge branches: the project's name when the
/// configured middle is the placeholder `PROJECT_NAME`, the configured middle
/// otherwise.
pub open spec fn effective_middle(middle: Seq<char>, project_name: Seq<char>) -> Seq<char> {
    if middle == "PROJECT_NAME"@ {
        project_name
    } else {
        middle
    }
}

/// The merge branch that mirrors environment branch `env` in a project.
pub open spec fn merge_branch_name(middle: Seq<char>, env: Seq<char>, project_name: Seq<char>) -> Seq<
    char,
> {
    merge_source_name(env, effective_middle(middle, project_name))
}

/// The default branch map: each environment branch's merge branch maps to the
/// environment branch.
pub open spec fn default_map(envs: Seq<Seq<char>>, middle: Seq<char>) -> Map<Seq<char>, Seq<char>>
    decreases envs.len(),
{
    if envs.len() == 0 {
        Map::empty()
    } else {
        default_map(envs.drop_last(), middle).insert(
            merge_source_name(envs.last(), middle),
            envs.last(),
        )
    }
}

/// The names of the required settings that are empty, in the order
/// `gitlab.host`, `gitlab.token`, `project.root_dirs` (when there is no root,
/// or an empty one), `project.merge_branch_middle`.
pub open spec fn missing_fields(
    host: Seq<char>,
    token: Seq<char>,
    roots: Seq<Seq<char>>,
    middle: Seq<char>,
) -> Seq<Seq<char>> {
    (if host.len() == 0 {
        seq!["gitlab.host"@]
    } else {
        seq![]
    }) + (if token.len() == 0 {
        seq!["gitlab.token"@]
    } else {
        seq![]
    }) + (if roots.len() == 0 || exists|i: int| 0 <= i < roots.len() && #[trigger] roots[i].len() == 0 {
        seq!["project.root_dirs"@]
    } else {
        seq![]
    }) + (if middle.len() == 0 {
        seq!["project.merge_branch_middle"@]
    } else {
        seq![]
    })
}

/// The environment branches used when none are given.
pub open spec fn default_envs() -> Seq<Seq<char>> {
    seq!["uat"@, "test"@, "stage"@, "pre_prod"@]
}

/// Views of a list of strings.
pub open spec fn views(v: Seq<String>) -> Seq<Seq<char>> {
    v.map_values(|s: String| s@)
}

/// `uat`, `test`, `stage`, `pre_prod`.
pub fn default_env_branches() -> (r: Vec<String>)
    ensures
        views(r@) == default_envs(),
{
    let mut r: Vec<String> = Vec::new();
    r.push(owned("uat"));
    r.push(owned("test"));
    r.push(owned("stage"));
    r.push(owned("pre_prod"));
    assert(views(r@) =~= default_envs());
    r
}

/// Why a configuration is refused.
pub enum ConfigError {
    /// Required settings that are empty, by their dotted names.
    MissingFields(Vec<String>),
}

impl ConfigError {
    /// The error text: `配置缺少必填项: ` and the names joined by `, `.
    pub fn message(&self) -> (r: String)
        ensures
            match self {
                ConfigError::MissingFields(names) => r@ == "配置缺少必填项: "@ + join(
                    views(names@),
                    ", "@,
                ),
            },
    {
        match self {
            ConfigError::MissingFields(names) => {
                let mut r = owned("配置缺少必填项: ");
                let list = join_strings(names, ", ");
                r.append(list.as_str());
                r
            },
        }
    }
}

/// A setting typed in: its trimmed text, or, when that is empty, the error to
/// show.
pub open spec fn setting_value(value: Seq<char>) -> Option<Seq<char>> {
    if trim(value).len() == 0 {
        None
    } else {
        Some(trim(value))
    }
}

/// A setting typed in: its trimmed text, or the given error when it is blank.
pub fn accept_setting(value: &str, empty_error: &str) -> (r: Result<String, String>)
    ensures
        match r {
            Ok(v) => setting_value(value@) == Some(v@),
            Err(e) => setting_value(value@) is None && e@ == empty_error@,
        },
{
    let t = trim_str(value);
    if is_empty_str(t.as_str()) {
        Err(owned(empty_error))
    } else {
        Ok(t)
    }
}

/// The whole configuration.
pub struct Config {
    pub gitlab: GitLabConfig,
    pub project: ProjectConfig,
    pub branch_map: BranchMap,
}

fn push_name_if_empty(missing: &mut Vec<String>, value: &str, name: &str)
    ensures
        views(final(missing)@) == views(old(missing)@) + (if value@.len() == 0 {
            seq![name@]
        } else {
            seq![]
        }),
{
    if is_empty_str(value) {
        missing.push(owned(name));
        assert(views(final(missing)@) =~= views(old(missing)@) + seq![name@]);
    } else {
        assert(views(final(missing)@) =~= views(old(missing)@) + seq![]);
    }
}

/// `base` joined with the relative component `comp`, as `PathBuf::join` does
/// on Unix: a `/` goes between them unless `base` is empty or ends with one.
pub open spec fn path_join(base: Seq<char>, comp: Seq<char>) -> Seq<char> {
    if base.len() == 0 || base.last() == '/' {
        base + comp
    } else {
        base + "/"@ + comp
    }
}

fn join_path(base: String, comp: &str) -> (r: String)
    ensures
        r@ == path_join(base@, comp@),
{
    let mut r = base;
    let v = crate::text::chars_of(r.as_str());
    if v.len() == 0 || v[v.len() - 1] == '/' {
        r.append(comp);
    } else {
        r.append("/");
        r.append(comp);
    }
    r
}

/// The configuration file's path: `~/.config/gmux/gmux.toml` under the home
/// directory, or under `.` when there is none.
pub open spec fn config_path(home: Option<Seq<char>>) -> Seq<char> {
    let base = match home {
        Some(h) => h,
        None => "."@,
    };
    path_join(path_join(path_join(base, ".config"@), "gmux"@), "gmux.toml"@)
}

/// A line typed at a prompt: its trimmed text, unless that is empty.
pub open spec fn answer(line: Seq<char>) -> Option<Seq<char>> {
    if trim(line).len() == 0 {
        None
    } else {
        Some(trim(line))
    }
}

/// The environment branches typed at the prompt: the default list for a
/// blank line, the whitespace-separated words otherwise.
pub open spec fn env_branch_answer(line: Seq<char>) -> Seq<Seq<char>> {
    if trim(line).len() == 0 {
        default_envs()
    } else {
        words(trim(line))
    }
}

/// Different environment branches have different merge branches.
pub proof fn lemma_merge_source_name_injective(a: Seq<char>, b: Seq<char>, middle: Seq<char>)
    requires
        merge_source_name(a, middle) == merge_source_name(b, middle),
    ensures
        a == b,
{
    let x = merge_source_name(a, middle);
    let y = merge_source_name(b, middle);
    assert(x.len() == a.len() + "_"@.len() + middle.len() + "_meger"@.len());
    assert(y.len() == b.len() + "_"@.len() + middle.len() + "_meger"@.len());
    assert(a.len() == b.len());
    assert(a =~= x.subrange(0, a.len() as int));
    assert(b =~= y.subrange(0, b.len() as int));
}

/// The default branch map sends the merge branch of every environment branch
/// to that environment branch, and holds no other source.
pub proof fn law_default_map_targets(envs: Seq<Seq<char>>, middle: Seq<char>)
    ensures
        forall|i: int|
            0 <= i < envs.len() ==> default_map(envs, middle).contains_key(
                merge_source_name(#[trigger] envs[i], middle),
            ) && default_map(envs, middle)[merge_source_name(envs[i], middle)] == envs[i],
        forall|k: Seq<char>|
            #[trigger] default_map(envs, middle).contains_key(k) ==> exists|i: int|
                0 <= i < envs.len() && merge_source_name(#[trigger] envs[i], middle) == k,
    decreases envs.len(),
{
    if envs.len() > 0 {
        let init = envs.drop_last();
        law_default_map_targets(init, middle);
        let last = envs.last();
        assert forall|i: int| 0 <= i < envs.len() implies default_map(envs, middle).contains_key(
            merge_source_name(#[trigger] envs[i], middle),
        ) && default_map(envs, middle)[merge_source_name(envs[i], middle)] == envs[i] by {
            if i < envs.len() - 1 {
                assert(init[i] == envs[i]);
                if merge_source_name(envs[i], middle) == merge_source_name(last, middle) {
                    lemma_merge_source_name_injective(envs[i], last, middle);
                }
            }
        }
        assert forall|k: Seq<char>| #[trigger] default_map(envs, middle).contains_key(k) implies exists|i: int|
            0 <= i < envs.len() && merge_source_name(#[trigger] envs[i], middle) == k by {
            if k == merge_source_name(last, middle) {
                assert(envs[envs.len() - 1] == last);
            } else {
                assert(default_map(envs, middle) == default_map(init, middle).insert(
                    merge_source_name(last, middle),
                    last,
                ));
                assert(default_map(init, middle).contains_key(k));
                let i = choose|i: int|
                    0 <= i < init.len() && merge_source_name(#[trigger] init[i], middle) == k;
                assert(init[i] == envs[i]);
            }
        }
    }
}

/// Unless the merge-branch middle part is the `PROJECT_NAME` placeholder, the
/// default branch map opens merge requests from exactly the merge branches
/// that syncing pushes, each back into its own environment branch.
pub proof fn law_sync_branches_feed_default_map(
    envs: Seq<Seq<char>>,
    middle: Seq<char>,
    project_name: Seq<char>,
)
    requires
        middle != "PROJECT_NAME"@,
    ensures
        forall|i: int|
            0 <= i < envs.len() ==> default_map(envs, middle).contains_key(
                merge_branch_name(middle, #[trigger] envs[i], project_name),
            ) && default_map(envs, middle)[merge_branch_name(middle, envs[i], project_name)]
                == envs[i],
{
    law_default_map_targets(envs, middle);
    assert forall|i: int| 0 <= i < envs.len() implies default_map(envs, middle).contains_key(
        merge_branch_name(middle, #[trigger] envs[i], project_name),
    ) && default_map(envs, middle)[merge_branch_name(middle, envs[i], project_name)] == envs[i] by {
        assert(merge_branch_name(middle, envs[i], project_name) == merge_source_name(envs[i], middle));
    }
}

/// Swapping two environment branches twice restores the order: moving a
/// branch up and then down again changes nothing.
pub proof fn law_swap_twice_restores(s: Seq<String>, a: int, b: int)
    requires
        0 <= a < s.len(),
        0 <= b < s.len(),
    ensures
        ({
            let once = s.update(a, s[b]).update(b, s[a]);
            once.update(a, once[b]).update(b, once[a]) == s
        }),
{
    let once = s.update(a, s[b]).update(b, s[a]);
    assert(once.update(a, once[b]).update(b, once[a]) =~= s);
}

/// Deleting an environment branch together with the sources that the branch
/// map sends to it (as listed by `sources_targeting`) leaves no entry that
/// targets it.
pub proof fn law_delete_with_linked_sources(
    map: Map<Seq<char>, Seq<char>>,
    linked: Seq<Seq<char>>,
    env: Seq<char>,
)
    requires
        forall|k: Seq<char>|
            #[trigger] map.contains_key(k) && map[k] == env ==> exists|i: int|
                0 <= i < linked.len() && #[trigger] linked[i] == k,
    ensures
        forall|k: Seq<char>|
            #[trigger] map.remove_keys(linked.to_set()).contains_key(k) ==> map[k] != env,
{
    assert forall|k: Seq<char>| #[trigger] map.remove_keys(linked.to_set()).contains_key(k) implies map[k]
        != env by {
        if map[k] == env {
            let i = choose|i: int| 0 <= i < linked.len() && #[trigger] linked[i] == k;
            assert(linked.to_set().contains(linked[i]));
        }
    }
}

/// The branch map after filling an empty one with the defaults.
pub open spec fn ensured_map(
    map: Map<Seq<char>, Seq<char>>,
    envs: Seq<Seq<char>>,
    middle: Seq<char>,
) -> Map<Seq<char>, Seq<char>> {
    if map == Map::<Seq<char>, Seq<char>>::empty() {
        default_map(envs, middle)
    } else {
        map
    }
}

/// Filling the branch map a second time changes nothing.
pub proof fn law_ensure_branch_map_idempotent(
    map: Map<Seq<char>, Seq<char>>,
    envs: Seq<Seq<char>>,
    middle: Seq<char>,
)
    ensures
        ensured_map(ensured_map(map, envs, middle), envs, middle) == ensured_map(map, envs, middle),
{
}

impl Config {
    /// The branch map that sends each environment branch's merge branch
    /// (`{env}_{middle}_meger`) to the environment branch.
    pub fn generate_default_branch_map(env_branches: &[String], merge_branch_middle: &str) -> (m:
        BranchMap)
        ensures
            m@ == default_map(views(env_branches@), merge_branch_middle@),
    {
        let mut m = BranchMap::new();
        let mut i: usize = 0;
        while i < env_branches.len()
            invariant
                i <= env_branches@.len(),
                m@ == default_map(views(env_branches@.subrange(0, i as int)), merge_branch_middle@),
            decreases env_branches@.len() - i,
        {
            let env = &env_branches[i];
            let mut src = owned(env.as_str());
            src.append("_");
            src.append(merge_branch_middle);
            src.append("_meger");
            m.insert(src, env.clone());
            proof {
                let pre = views(env_branches@.subrange(0, i as int));
                let post = views(env_branches@.subrange(0, i + 1));
                assert(post.drop_last() =~= pre);
                assert(post.last() == env_branches@[i as int]@);
            }
            i = i + 1;
        }
        assert(env_branches@.subrange(0, env_branches@.len() as int) =~= env_branches@);
        m
    }

    /// Fills an empty branch map with the default one.
    pub fn ensure_branch_map(&mut self)
        ensures
            final(self).gitlab == old(self).gitlab,
            final(self).project == old(self).project,
            old(self).branch_map@ == Map::<Seq<char>, Seq<char>>::empty() ==> final(self).branch_map@
                == default_map(
                views(old(self).project.env_branches@),
                old(self).project.merge_branch_middle@,
            ),
            old(self).branch_map@ != Map::<Seq<char>, Seq<char>>::empty() ==> final(self).branch_map@
                == old(self).branch_map@,
    {
        if self.branch_map.is_empty() {
            self.branch_map = Self::generate_default_branch_map(
                self.project.env_branches.as_slice(),
                self.project.merge_branch_middle.as_str(),
            );
        }
    }

    /// Refuses a configuration with an empty host, token, root list or
    /// merge-branch middle part, naming each of them.
    pub fn validate(&self) -> (r: Result<(), ConfigError>)
        ensures
            missing_fields(
                self.gitlab.host@,
                self.gitlab.token@,
                views(self.project.root_dirs@),
                self.project.merge_branch_middle@,
            ).len() == 0 ==> r is Ok,
            match r {
                Ok(()) => missing_fields(
                    self.gitlab.host@,
                    self.gitlab.token@,
                    views(self.project.root_dirs@),
                    self.project.merge_branch_middle@,
                ).len() == 0,
                Err(ConfigError::MissingFields(names)) => views(names@) == missing_fields(
                    self.gitlab.host@,
                    self.gitlab.token@,
                    views(self.project.root_dirs@),
                    self.project.merge_branch_middle@,
                ) && names@.len() > 0,
            },
    {
        let mut missing: Vec<String> = Vec::new();
        push_name_if_empty(&mut missing, self.gitlab.host.as_str(), "gitlab.host");
        push_name_if_empty(&mut missing, self.gitlab.token.as_str(), "gitlab.token");
        if self.project.root_dirs.len() == 0 || has_empty_root(&self.project.root_dirs) {
            missing.push(owned("project.root_dirs"));
        }
        push_name_if_empty(
            &mut missing,
            self.project.merge_branch_middle.as_str(),
            "project.merge_branch_middle",
        );
        assert(views(missing@) =~= missing_fields(
            self.gitlab.host@,
            self.gitlab.token@,
            views(self.project.root_dirs@),
            self.project.merge_branch_middle@,
        ));
        if missing.len() > 0 {
            Err(ConfigError::MissingFields(missing))
        } else {
            Ok(())
        }
    }

    /// The merge branch of `env_branch` in project `project_name`:
    /// `{env}_{middle}_meger`, where the middle is the project's name when the
    /// configured middle is `PROJECT_NAME`.
    pub fn get_merge_branch_name(&self, env_branch: &str, project_name: &str) -> (r: String)
        ensures
            r@ == merge_branch_name(self.project.merge_branch_middle@, env_branch@, project_name@),
    {
        let mut r = owned(env_branch);
        r.append("_");
        if str_eq(self.project.merge_branch_middle.as_str(), "PROJECT_NAME") {
            r.append(project_name);
        } else {
            r.append(self.project.merge_branch_middle.as_str());
        }
        r.append("_meger");
        r
    }

    /// The configuration file's path under the home directory, when known.
    pub fn default_global_config_path(home: Option<&str>) -> (r: String)
        ensures
            r@ == config_path(
                match home {
                    Some(h) => Some(h@),
                    None => None,
                },
            ),
    {
        let base = match home {
            Some(h) => owned(h),
            None => owned("."),
        };
        join_path(join_path(join_path(base, ".config"), "gmux"), "gmux.toml")
    }

    /// The configuration file to load: the path at which it is looked for,
    /// when a file stands there.
    pub fn find_config_file(home: Option<&str>, is_file: bool) -> (r: Option<String>)
        ensures
            is_file ==> (r matches Some(p) && p@ == config_path(
                match home {
                    Some(h) => Some(h@),
                    None => None,
                },
            )),
            !is_file ==> r is None,
    {
        if is_file {
            Some(Self::default_global_config_path(home))
        } else {
            None
        }
    }

    /// The value typed at a prompt: trimmed, refused when blank.
    pub fn accept_answer(line: &str) -> (r: Option<String>)
        ensures
            match r {
                Some(v) => answer(line@) == Some(v@),
                None => answer(line@) is None,
            },
    {
        let t = trim_str(line);
        if is_empty_str(t.as_str()) {
            None
        } else {
            Some(t)
        }
    }

    /// The environment branches typed at the prompt: the defaults for a blank
    /// line, else the whitespace-separated names.
    pub fn parse_env_branches(line: &str) -> (r: Vec<String>)
        ensures
            views(r@) == env_branch_answer(line@),
    {
        let t = trim_str(line);
        if is_empty_str(t.as_str()) {
            default_env_branches()
        } else {
            let r = split_words(t.as_str());
            assert(views(r@) =~= r@.map_values(|w: String| w@));
            r
        }
    }

    /// Sets the GitLab host.
    pub fn set_gitlab_host(&mut self, host: String)
        ensures
            *final(self) == (Config { gitlab: GitLabConfig { host, ..old(self).gitlab }, ..*old(self) }),
    {
        self.gitlab.host = host;
    }

    /// Sets the GitLab token.
    pub fn set_gitlab_token(&mut self, token: String)
        ensures
            *final(self) == (Config { gitlab: GitLabConfig { token, ..old(self).gitlab }, ..*old(self) }),
    {
        self.gitlab.token = token;
    }

    /// Sets the middle part of merge branch names.
    pub fn set_merge_branch_middle(&mut self, middle: String)
        ensures
            *final(self) == (Config {
                project: ProjectConfig { merge_branch_middle: middle, ..old(self).project },
                ..*old(self)
            }),
    {
        self.project.merge_branch_middle = middle;
    }

    /// Appends an environment branch.
    pub fn add_env_branch(&mut self, branch: String)
        ensures
            final(self).project.env_branches@ == old(self).project.env_branches@.push(branch),
            final(self).gitlab == old(self).gitlab,
            final(self).branch_map == old(self).branch_map,
            final(self).project.root_dirs == old(self).project.root_dirs,
            final(self).project.merge_branch_middle == old(self).project.merge_branch_middle,
    {
        self.project.env_branches.push(branch);
    }

    /// Renames the environment branch at `index`.
    pub fn rename_env_branch(&mut self, index: usize, branch: String)
        requires
            index < old(self).project.env_branches@.len(),
        ensures
            final(self).project.env_branches@ == old(self).project.env_branches@.update(
                index as int,
                branch,
            ),
            final(self).gitlab == old(self).gitlab,
            final(self).branch_map == old(self).branch_map,
            final(self).project.root_dirs == old(self).project.root_dirs,
            final(self).project.merge_branch_middle == old(self).project.merge_branch_middle,
    {
        self.project.env_branches.set(index, branch);
    }

    /// Swaps the environment branches at `a` and `b`.
    pub fn swap_env_branches(&mut self, a: usize, b: usize)
        requires
            a < old(self).project.env_branches@.len(),
            b < old(self).project.env_branches@.len(),
        ensures
            final(self).project.env_branches@ == old(self).project.env_branches@.update(
                a as int,
                old(self).project.env_branches@[b as int],
            ).update(b as int, old(self).project.env_branches@[a as int]),
            final(self).gitlab == old(self).gitlab,
            final(self).branch_map == old(self).branch_map,
            final(self).project.root_dirs == old(self).project.root_dirs,
            final(self).project.merge_branch_middle == old(self).project.merge_branch_middle,
    {
        let x = self.project.env_branches[a].clone();
        let y = self.project.env_branches[b].clone();
        self.project.env_branches.set(a, y);
        self.project.env_branches.set(b, x);
    }

    /// Removes the environment branch at `index`, and the branch map entries
    /// of the sources in `linked_sources`.
    pub fn delete_env_branch(&mut self, index: usize, linked_sources: &Vec<String>)
        requires
            index < old(self).project.env_branches@.len(),
        ensures
            final(self).project.env_branches@ == old(self).project.env_branches@.remove(index as int),
            final(self).branch_map@ == old(self).branch_map@.remove_keys(
                linked_sources@.map_values(|s: String| s@).to_set(),
            ),
            final(self).gitlab == old(self).gitlab,
            final(self).project.root_dirs == old(self).project.root_dirs,
            final(self).project.merge_branch_middle == old(self).project.merge_branch_middle,
    {
        self.project.env_branches.remove(index);
        let ghost start = self.branch_map@;
        let ghost project = self.project;
        let ghost gitlab = self.gitlab;
        let mut i: usize = 0;
        while i < linked_sources.len()
            invariant
                i <= linked_sources@.len(),
                self.project == project,
                self.gitlab == gitlab,
                self.branch_map@ == start.remove_keys(
                    linked_sources@.subrange(0, i as int).map_values(|s: String| s@).to_set(),
                ),
            decreases linked_sources@.len() - i,
        {
            self.branch_map.remove(linked_sources[i].as_str());
            proof {
                let before = linked_sources@.subrange(0, i as int).map_values(|s: String| s@);
                let after = linked_sources@.subrange(0, i + 1).map_values(|s: String| s@);
                assert(after =~= before.push(linked_sources@[i as int]@));
                before.lemma_push_to_set_commute(linked_sources@[i as int]@);
                assert(after.to_set() =~= before.to_set().insert(linked_sources@[i as int]@));
                assert(start.remove_keys(after.to_set()) =~= start.remove_keys(
                    before.to_set(),
                ).remove(linked_sources@[i as int]@));
            }
            i = i + 1;
        }
        assert(linked_sources@.subrange(0, linked_sources@.len() as int) =~= linked_sources@);
    }

    /// Saves a branch map entry from `source` to `target`, dropping the entry
    /// of `original_source` (the entry being edited) first.
    pub fn save_branch_mapping(&mut self, original_source: Option<&str>, source: String, target: String)
        ensures
            final(self).branch_map@ == match original_source {
                Some(o) => old(self).branch_map@.remove(o@),
                None => old(self).branch_map@,
            }.insert(source@, target@),
            final(self).gitlab == old(self).gitlab,
            final(self).project == old(self).project,
    {
        if let Some(original) = original_source {
            self.branch_map.remove(original);
        }
        self.branch_map.insert(source, target);
    }

    /// Puts `root` at `index`, or adds it when `index` is none, then drops
    /// repeated roots.
    pub fn save_project_root(&mut self, index: Option<usize>, root: String)
        requires
            match index {
                Some(i) => i < old(self).project.root_dirs@.len(),
                None => true,
            },
        ensures
            roots_changed(*old(self), *final(self), saved_roots(old(self).project.root_dirs@, index, root)),
    {
        match index {
            Some(i) => self.project.root_dirs.set(i, root),
            None => self.project.root_dirs.push(root),
        }
        dedupe_root_dirs(&mut self.project.root_dirs);
    }

    /// Removes the root at `index`.
    pub fn delete_project_root(&mut self, index: usize)
        requires
            index < old(self).project.root_dirs@.len(),
        ensures
            roots_changed(*old(self), *final(self), views(old(self).project.root_dirs@.remove(index as int))),
    {
        self.project.root_dirs.remove(index);
    }

    /// Removes the branch map entry of `source`.
    pub fn delete_branch_mapping(&mut self, source: &str)
        ensures
            final(self).branch_map@ == old(self).branch_map@.remove(source@),
            final(self).gitlab == old(self).gitlab,
            final(self).project == old(self).project,
    {
        self.branch_map.remove(source);
    }

    /// Replaces the branch map with the default one.
    pub fn regenerate_branch_map(&mut self)
        ensures
            final(self).branch_map@ == default_map(
                views(old(self).project.env_branches@),
                old(self).project.merge_branch_middle@,
            ),
            final(self).gitlab == old(self).gitlab,
            final(self).project == old(self).project,
    {
        self.branch_map = Self::generate_default_branch_map(
            self.project.env_branches.as_slice(),
            self.project.merge_branch_middle.as_str(),
        );
    }

    /// The configuration that the setup wizard's answers describe, with the
    /// default branch map.
    pub fn from_answers(
        host: String,
        token: String,
        root_dir: String,
        merge_branch_middle: String,
        env_branches: Vec<String>,
    ) -> (c: Config)
        ensures
            c.gitlab.host == host,
            c.gitlab.token == token,
            views(c.project.root_dirs@) == seq![root_dir@],
            c.project.merge_branch_middle == merge_branch_middle,
            c.project.env_branches == env_branches,
            c.branch_map@ == default_map(views(env_branches@), merge_branch_middle@),
    {
        let branch_map = Self::generate_default_branch_map(
            env_branches.as_slice(),
            merge_branch_middle.as_str(),
        );
        Config {
            gitlab: GitLabConfig { host, token },
            project: ProjectConfig { root_dirs: vec![root_dir], merge_branch_middle, env_branches },
            branch_map,
        }
    }
}


/// The roots without repeats, each where it first occurs.
pub open spec fn first_occurrences(s: Seq<Seq<char>>) -> Seq<Seq<char>>
    decreases s.len(),
{
    if s.len() == 0 {
        s
    } else {
        let p = first_occurrences(s.drop_last());
        if p.contains(s.last()) {
            p
        } else {
            p.push(s.last())
        }
    }
}

/// Usable roots: at least one, none twice.
pub open spec fn roots_wf(roots: Seq<Seq<char>>) -> bool {
    roots.len() > 0 && roots.no_duplicates()
}

/// Dropping repeats keeps every root, holds none twice, keeps a non-empty
/// list non-empty and leaves a list without repeats as it is.
pub proof fn law_dedupe_roots(s: Seq<Seq<char>>)
    ensures
        first_occurrences(s).no_duplicates(),
        forall|x: Seq<char>| #[trigger] first_occurrences(s).contains(x) <==> s.contains(x),
        s.len() > 0 ==> first_occurrences(s).len() > 0,
        s.no_duplicates() ==> first_occurrences(s) == s,
    decreases s.len(),
{
    if s.len() > 0 {
        let t = s.drop_last();
        law_dedupe_roots(t);
        assert forall|x: Seq<char>| s.contains(x) <==> (t.contains(x) || x == s.last()) by {
            if s.contains(x) {
                let i = choose|i: int| 0 <= i < s.len() && s[i] == x;
                if i < s.len() - 1 {
                    assert(t[i] == x);
                }
            }
            if t.contains(x) {
                let i = choose|i: int| 0 <= i < t.len() && t[i] == x;
                assert(s[i] == x);
            }
            if x == s.last() {
                assert(s[s.len() - 1] == x);
            }
        }
        if s.no_duplicates() {
            assert(t.no_duplicates()) by {
                assert forall|i: int, j: int| 0 <= i < t.len() && 0 <= j < t.len() && i != j implies t[i] != t[j] by {
                    assert(t[i] == s[i] && t[j] == s[j]);
                }
            }
            assert(!t.contains(s.last())) by {
                if t.contains(s.last()) {
                    let i = choose|i: int| 0 <= i < t.len() && t[i] == s.last();
                    assert(s[i] == s[s.len() - 1]);
                }
            }
            assert(s =~= t.push(s.last()));
        }
        let p = first_occurrences(t);
        if !p.contains(s.last()) {
            let q = p.push(s.last());
            assert forall|x: Seq<char>| q.contains(x) <==> (p.contains(x) || x == s.last()) by {
                if q.contains(x) {
                    let i = choose|i: int| 0 <= i < q.len() && q[i] == x;
                    if i < p.len() {
                        assert(p[i] == x);
                    }
                }
                if p.contains(x) {
                    let i = choose|i: int| 0 <= i < p.len() && p[i] == x;
                    assert(q[i] == x);
                }
                if x == s.last() {
                    assert(q[q.len() - 1] == x);
                }
            }
            assert forall|i: int, j: int| 0 <= i < q.len() && 0 <= j < q.len() && i != j implies q[i] != q[j] by {
                if i < p.len() && j < p.len() {
                    assert(q[i] == p[i] && q[j] == p[j]);
                } else if i < p.len() {
                    assert(q[i] == p[i]);
                    assert(p.contains(p[i]));
                } else if j < p.len() {
                    assert(q[j] == p[j]);
                    assert(p.contains(p[j]));
                }
            }
        }
    }
}

/// Whether one of the roots is empty.
fn has_empty_root(roots: &Vec<String>) -> (r: bool)
    ensures
        r == exists|i: int| 0 <= i < views(roots@).len() && #[trigger] views(roots@)[i].len() == 0,
{
    let mut i: usize = 0;
    while i < roots.len()
        invariant
            i <= roots@.len(),
            forall|k: int| 0 <= k < i ==> roots@[k]@.len() != 0,
        decreases roots@.len() - i,
    {
        if is_empty_str(roots[i].as_str()) {
            assert(views(roots@)[i as int].len() == 0);
            return true;
        }
        i = i + 1;
    }
    assert forall|k: int| 0 <= k < views(roots@).len() implies views(roots@)[k].len() != 0 by {
        assert(views(roots@)[k] == roots@[k]@);
    }
    false
}

/// Whether `root` is one of the roots in `v`.
fn contains_root(v: &Vec<String>, root: &str) -> (r: bool)
    ensures
        r == views(v@).contains(root@),
{
    let mut i: usize = 0;
    while i < v.len()
        invariant
            i <= v@.len(),
            forall|k: int| 0 <= k < i ==> v@[k]@ != root@,
        decreases v@.len() - i,
    {
        if str_eq(v[i].as_str(), root) {
            assert(views(v@)[i as int] == root@);
            return true;
        }
        i = i + 1;
    }
    assert forall|k: int| 0 <= k < views(v@).len() implies views(v@)[k] != root@ by {
        assert(views(v@)[k] == v@[k]@);
    }
    false
}

/// Drops repeated roots, keeping each where it first occurs.
pub fn dedupe_root_dirs(roots: &mut Vec<String>)
    ensures
        views(final(roots)@) == first_occurrences(views(old(roots)@)),
{
    let mut kept: Vec<String> = Vec::new();
    let mut i: usize = 0;
    while i < roots.len()
        invariant
            i <= roots@.len(),
            roots@ == old(roots)@,
            views(kept@) == first_occurrences(views(roots@.subrange(0, i as int))),
        decreases roots@.len() - i,
    {
        let ghost before = views(roots@.subrange(0, i as int));
        let ghost after = views(roots@.subrange(0, i + 1));
        assert(after.drop_last() =~= before);
        assert(after.last() == roots@[i as int]@);
        if !contains_root(&kept, roots[i].as_str()) {
            kept.push(roots[i].clone());
            assert(views(kept@) =~= first_occurrences(before).push(roots@[i as int]@));
        }
        i = i + 1;
    }
    assert(roots@.subrange(0, roots@.len() as int) =~= roots@);
    *roots = kept;
}

/// A change that fits keeps at least one environment branch and a usable
/// root list (at least one root, none twice), as long as a deletion leaves
/// another branch or root, which the settings pages see to.
pub proof fn law_change_keeps_envs_and_roots(o: Config, change: ConfigChange, f: Config)
    requires
        change_fits(o, change),
        change_applied(o, f, change),
        o.project.env_branches@.len() > 0,
        roots_wf(views(o.project.root_dirs@)),
        change is DeleteEnvBranch ==> o.project.env_branches@.len() > 1,
        change is DeleteRoot ==> o.project.root_dirs@.len() > 1,
    ensures
        f.project.env_branches@.len() > 0,
        roots_wf(views(f.project.root_dirs@)),
{
    let roots = o.project.root_dirs@;
    match change {
        ConfigChange::SaveRoot(index, root) => {
            let s = views(
                match index {
                    Some(i) => roots.update(i as int, root),
                    None => roots.push(root),
                },
            );
            law_dedupe_roots(s);
        },
        ConfigChange::DeleteRoot(i) => {
            let v = views(roots);
            let w = views(roots.remove(i as int));
            assert(w =~= v.remove(i as int));
            assert forall|a: int, b: int| 0 <= a < w.len() && 0 <= b < w.len() && a != b implies w[a] != w[b] by {
                let a2 = if a < i { a } else { a + 1 };
                let b2 = if b < i { b } else { b + 1 };
                assert(w[a] == v[a2]);
                assert(w[b] == v[b2]);
            }
        },
        _ => {},
    }
}

/// A change to the configuration made from the settings pages.
pub enum ConfigChange {
    SetHost(String),
    SetToken(String),
    SetMiddle(String),
    AddEnvBranch(String),
    RenameEnvBranch(usize, String),
    SwapEnvBranches(usize, usize),
    /// Remove the environment branch at this index and the branch map entries
    /// of these sources.
    DeleteEnvBranch(usize, Vec<String>),
    /// Save an entry from a source to a target, replacing the entry of the
    /// original source, if any.
    SaveMapping(Option<String>, String, String),
    DeleteMapping(String),
    RegenerateMap,
    /// Put a root at this index, or add it when there is none, then drop
    /// repeated roots.
    SaveRoot(Option<usize>, String),
    DeleteRoot(usize),
}

/// The indices a change names are those of environment branches or roots.
pub open spec fn change_fits(c: Config, change: ConfigChange) -> bool {
    let n = c.project.env_branches@.len();
    let k = c.project.root_dirs@.len();
    match change {
        ConfigChange::RenameEnvBranch(i, _) => i < n,
        ConfigChange::SwapEnvBranches(a, b) => a < n && b < n,
        ConfigChange::DeleteEnvBranch(i, _) => i < n,
        ConfigChange::SaveRoot(Some(i), _) => i < k,
        ConfigChange::DeleteRoot(i) => i < k,
        _ => true,
    }
}

/// Only the roots changed, to `roots`.
pub open spec fn roots_changed(o: Config, f: Config, roots: Seq<Seq<char>>) -> bool {
    &&& views(f.project.root_dirs@) == roots
    &&& f.gitlab == o.gitlab
    &&& f.branch_map@ == o.branch_map@
    &&& f.project.env_branches == o.project.env_branches
    &&& f.project.merge_branch_middle == o.project.merge_branch_middle
}

/// The roots after saving `root` at `index`, or adding it.
pub open spec fn saved_roots(roots: Seq<String>, index: Option<usize>, root: String) -> Seq<Seq<char>> {
    first_occurrences(
        views(
            match index {
                Some(i) => roots.update(i as int, root),
                None => roots.push(root),
            },
        ),
    )
}

/// Only the environment branches changed, to `envs`.
pub open spec fn envs_changed(o: Config, f: Config, envs: Seq<String>) -> bool {
    &&& f.project.env_branches@ == envs
    &&& f.gitlab == o.gitlab
    &&& f.branch_map@ == o.branch_map@
    &&& f.project.root_dirs == o.project.root_dirs
    &&& f.project.merge_branch_middle == o.project.merge_branch_middle
}

/// Only the branch map changed, to `map`.
pub open spec fn map_changed(o: Config, f: Config, map: Map<Seq<char>, Seq<char>>) -> bool {
    f.branch_map@ == map && f.gitlab == o.gitlab && f.project == o.project
}

/// The configuration `f` is `o` with the change made.
pub open spec fn change_applied(o: Config, f: Config, change: ConfigChange) -> bool {
    match change {
        ConfigChange::SetHost(h) => f.gitlab == (GitLabConfig { host: h, ..o.gitlab })
            && f.project == o.project && f.branch_map@ == o.branch_map@,
        ConfigChange::SetToken(t) => f.gitlab == (GitLabConfig { token: t, ..o.gitlab })
            && f.project == o.project && f.branch_map@ == o.branch_map@,
        ConfigChange::SetMiddle(m) => f.project == (ProjectConfig {
            merge_branch_middle: m,
            ..o.project
        }) && f.gitlab == o.gitlab && f.branch_map@ == o.branch_map@,
        ConfigChange::AddEnvBranch(b) => envs_changed(o, f, o.project.env_branches@.push(b)),
        ConfigChange::RenameEnvBranch(i, b) => envs_changed(
            o,
            f,
            o.project.env_branches@.update(i as int, b),
        ),
        ConfigChange::SwapEnvBranches(a, b) => envs_changed(
            o,
            f,
            o.project.env_branches@.update(a as int, o.project.env_branches@[b as int]).update(
                b as int,
                o.project.env_branches@[a as int],
            ),
        ),
        ConfigChange::DeleteEnvBranch(i, linked) => f.project.env_branches@
            == o.project.env_branches@.remove(i as int) && f.branch_map@ == o.branch_map@.remove_keys(
            views(linked@).to_set(),
        ) && f.gitlab == o.gitlab && f.project.root_dirs == o.project.root_dirs
            && f.project.merge_branch_middle == o.project.merge_branch_middle,
        ConfigChange::SaveMapping(original, source, target) => map_changed(
            o,
            f,
            match original {
                Some(x) => o.branch_map@.remove(x@),
                None => o.branch_map@,
            }.insert(source@, target@),
        ),
        ConfigChange::DeleteMapping(source) => map_changed(o, f, o.branch_map@.remove(source@)),
        ConfigChange::RegenerateMap => map_changed(
            o,
            f,
            default_map(views(o.project.env_branches@), o.project.merge_branch_middle@),
        ),
        ConfigChange::SaveRoot(index, root) => roots_changed(
            o,
            f,
            saved_roots(o.project.root_dirs@, index, root),
        ),
        ConfigChange::DeleteRoot(i) => roots_changed(o, f, views(o.project.root_dirs@.remove(i as int))),
    }
}

impl ConfigChange {
    /// Whether the change names only existing environment branches and roots.
    pub fn fits(&self, config: &Config) -> (r: bool)
        ensures
            r == change_fits(*config, *self),
    {
        let n = config.project.env_branches.len();
        let k = config.project.root_dirs.len();
        match self {
            ConfigChange::RenameEnvBranch(i, _) => *i < n,
            ConfigChange::SwapEnvBranches(a, b) => *a < n && *b < n,
            ConfigChange::DeleteEnvBranch(i, _) => *i < n,
            ConfigChange::SaveRoot(Some(i), _) => *i < k,
            ConfigChange::DeleteRoot(i) => *i < k,
            _ => true,
        }
    }

    /// Whether the change is to the GitLab connection settings.
    pub fn reconnects(&self) -> (r: bool)
        ensures
            r == (*self is SetHost || *self is SetToken),
    {
        match self {
            ConfigChange::SetHost(_) | ConfigChange::SetToken(_) => true,
            _ => false,
        }
    }
}

impl Config {
    /// Makes a change to this copy of the configuration and checks the
    /// result as [`Config::validate`] does, so that only a valid copy is
    /// written.
    pub fn stage_change(&mut self, change: ConfigChange) -> (r: Result<(), ConfigError>)
        requires
            change_fits(*old(self), change),
        ensures
            change_applied(*old(self), *final(self), change),
            match r {
                Ok(()) => missing_fields(
                    final(self).gitlab.host@,
                    final(self).gitlab.token@,
                    views(final(self).project.root_dirs@),
                    final(self).project.merge_branch_middle@,
                ).len() == 0,
                Err(ConfigError::MissingFields(names)) => views(names@) == missing_fields(
                    final(self).gitlab.host@,
                    final(self).gitlab.token@,
                    views(final(self).project.root_dirs@),
                    final(self).project.merge_branch_middle@,
                ) && names@.len() > 0,
            },
    {
        self.apply_change(change);
        self.validate()
    }

    /// Takes the changed copy when it was written, and keeps the
    /// configuration as it was otherwise.
    pub fn commit(&mut self, candidate: Config, written: bool)
        ensures
            written ==> *final(self) == candidate,
            !written ==> *final(self) == *old(self),
    {
        if written {
            *self = candidate;
        }
    }

    /// Makes a change.
    pub fn apply_change(&mut self, change: ConfigChange)
        requires
            change_fits(*old(self), change),
        ensures
            change_applied(*old(self), *final(self), change),
    {
        match change {
            ConfigChange::SetHost(h) => self.set_gitlab_host(h),
            ConfigChange::SetToken(t) => self.set_gitlab_token(t),
            ConfigChange::SetMiddle(m) => self.set_merge_branch_middle(m),
            ConfigChange::AddEnvBranch(b) => self.add_env_branch(b),
            ConfigChange::RenameEnvBranch(i, b) => self.rename_env_branch(i, b),
            ConfigChange::SwapEnvBranches(a, b) => self.swap_env_branches(a, b),
            ConfigChange::DeleteEnvBranch(i, linked) => {
                self.delete_env_branch(i, &linked);
                assert(linked@.map_values(|s: String| s@) =~= views(linked@));
            },
            ConfigChange::SaveMapping(original, source, target) => {
                match original {
                    Some(o) => self.save_branch_mapping(Some(o.as_str()), source, target),
                    None => self.save_branch_mapping(None, source, target),
                }
            },
            ConfigChange::DeleteMapping(source) => self.delete_branch_mapping(source.as_str()),
            ConfigChange::RegenerateMap => self.regenerate_branch_map(),
            ConfigChange::SaveRoot(index, root) => self.save_project_root(index, root),
            ConfigChange::DeleteRoot(i) => self.delete_project_root(i),
        }
    }
}

} // verus!
