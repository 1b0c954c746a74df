//! The order of strings (`Ord` for `String`: code point by code point, a
//! proper prefix first) and a stable insertion sort over any strict weak order.

use vstd::prelude::*;
use crate::text::chars_of;

verus! {

/// `a` sorts strictly before `b`.
pub open spec fn seq_lt(a: Seq<char>, b: Seq<char>) -> bool
    decreases a.len(),
{
    if a.len() == 0 {
        b.len() > 0
    } else if b.len() == 0 {
        false
    } else if a[0] != b[0] {
        a[0] < b[0]
    } else {
        seq_lt(a.drop_first(), b.drop_first())
    }
}

/// No string sorts before itself, and of two different strings one sorts first.
pub proof fn lemma_seq_lt_total(a: Seq<char>, b: Seq<char>)
    ensures
        !seq_lt(a, a),
        a != b ==> (seq_lt(a, b) || seq_lt(b, a)),
        seq_lt(a, b) ==> !seq_lt(b, a),
    decreases a.len(),
{
    if a.len() > 0 && b.len() > 0 {
        lemma_seq_lt_total(a.drop_first(), b.drop_first());
        lemma_seq_lt_total(a.drop_first(), a.drop_first());
        if a[0] == b[0] && a != b {
            assert(a.drop_first() != b.drop_first()) by {
                if a.drop_first() == b.drop_first() {
                    assert(a =~= seq![a[0]] + a.drop_first());
                    assert(b =~= seq![b[0]] + b.drop_first());
                }
            }
        }
    } else if a.len() > 0 {
        lemma_seq_lt_total(a.drop_first(), a.drop_first());
    } else if b.len() == 0 {
        assert(a =~= b);
    }
}

/// Sorting before is transitive.
pub proof fn lemma_seq_lt_transitive(a: Seq<char>, b: Seq<char>, c: Seq<char>)
    requires
        seq_lt(a, b),
        seq_lt(b, c),
    ensures
        seq_lt(a, c),
    decreases a.len(),
{
    if a.len() > 0 && b.len() > 0 && c.len() > 0 {
        if a[0] == b[0] && b[0] == c[0] {
            lemma_seq_lt_transitive(a.drop_first(), b.drop_first(), c.drop_first());
        }
    }
}

/// Strings in strictly increasing order.
pub open spec fn strictly_sorted(s: Seq<Seq<char>>) -> bool {
    forall|i: int, j: int| 0 <= i < j < s.len() ==> seq_lt(#[trigger] s[i], #[trigger] s[j])
}

/// Two strictly increasing lists of the same strings are the same list.
pub proof fn lemma_strictly_sorted_unique(s: Seq<Seq<char>>, t: Seq<Seq<char>>)
    requires
        strictly_sorted(s),
        strictly_sorted(t),
        forall|x: Seq<char>| s.contains(x) <==> t.contains(x),
    ensures
        s == t,
    decreases s.len(),
{
    if s.len() == 0 {
        if t.len() > 0 {
            assert(t.contains(t[0]));
        }
        assert(s =~= t);
    } else {
        assert(s.contains(s[0]));
        assert(t.len() > 0);
        let a = s[0];
        let b = t[0];
        assert(t.contains(b));
        let j = choose|j: int| 0 <= j < t.len() && t[j] == a;
        let i = choose|i: int| 0 <= i < s.len() && s[i] == b;
        lemma_seq_lt_total(a, b);
        if a != b {
            assert(j > 0 && i > 0);
            assert(seq_lt(t[0], t[j]));
            assert(seq_lt(s[0], s[i]));
        }
        let s2 = s.drop_first();
        let t2 = t.drop_first();
        assert forall|x: Seq<char>| s2.contains(x) <==> t2.contains(x) by {
            if s2.contains(x) {
                let k = choose|k: int| 0 <= k < s2.len() && s2[k] == x;
                assert(s[k + 1] == x);
                assert(seq_lt(s[0], s[k + 1]));
                lemma_seq_lt_total(a, x);
                assert(s.contains(x));
                let m = choose|m: int| 0 <= m < t.len() && t[m] == x;
                assert(m != 0);
                assert(t2[m - 1] == x);
            }
            if t2.contains(x) {
                let k = choose|k: int| 0 <= k < t2.len() && t2[k] == x;
                assert(t[k + 1] == x);
                assert(seq_lt(t[0], t[k + 1]));
                lemma_seq_lt_total(b, x);
                assert(t.contains(x));
                let m = choose|m: int| 0 <= m < s.len() && s[m] == x;
                assert(m != 0);
                assert(s2[m - 1] == x);
            }
        }
        assert(strictly_sorted(s2)) by {
            assert forall|p: int, q: int| 0 <= p < q < s2.len() implies seq_lt(
                #[trigger] s2[p],
                #[trigger] s2[q],
            ) by {
                assert(s2[p] == s[p + 1] && s2[q] == s[q + 1]);
            }
        }
        assert(strictly_sorted(t2)) by {
            assert forall|p: int, q: int| 0 <= p < q < t2.len() implies seq_lt(
                #[trigger] t2[p],
                #[trigger] t2[q],
            ) by {
                assert(t2[p] == t[p + 1] && t2[q] == t[q + 1]);
            }
        }
        lemma_strictly_sorted_unique(s2, t2);
        assert(s =~= seq![a] + s2);
        assert(t =~= seq![b] + t2);
    }
}

/// Strings compare as `String`'s `<` does.
pub fn str_lt(a: &str, b: &str) -> (r: bool)
    ensures
        r == seq_lt(a@, b@),
{
    let x = chars_of(a);
    let y = chars_of(b);
    let mut i: usize = 0;
    assert(a@.skip(0) =~= a@ && b@.skip(0) =~= b@);
    while i < x.len() && i < y.len() && x[i] == y[i]
        invariant
            x@ == a@,
            y@ == b@,
            i <= x.len(),
            i <= y.len(),
            seq_lt(a@, b@) == seq_lt(a@.skip(i as int), b@.skip(i as int)),
        decreases x.len() - i,
    {
        let ghost sa = a@.skip(i as int);
        let ghost sb = b@.skip(i as int);
        assert(sa.drop_first() =~= a@.skip(i + 1));
        assert(sb.drop_first() =~= b@.skip(i + 1));
        i = i + 1;
    }
    let ghost sa = a@.skip(i as int);
    let ghost sb = b@.skip(i as int);
    if i == x.len() {
        i < y.len()
    } else if i == y.len() {
        false
    } else {
        assert(sa[0] == x@[i as int] && sb[0] == y@[i as int]);
        x[i] < y[i]
    }
}

/// Two ordered keys: by the first component, then by the second.
pub open spec fn pair_lt(a: (Seq<char>, Seq<char>), b: (Seq<char>, Seq<char>)) -> bool {
    seq_lt(a.0, b.0) || (a.0 == b.0 && seq_lt(a.1, b.1))
}

/// Strict weak order laws that a sort needs of `lt`.
pub open spec fn strict_weak_order<T>(lt: spec_fn(T, T) -> bool) -> bool {
    &&& forall|a: T, b: T| #[trigger] lt(a, b) ==> !lt(b, a)
    &&& forall|a: T, b: T, c: T| #[trigger] lt(a, b) && #[trigger] lt(b, c) ==> lt(a, c)
    &&& forall|a: T, b: T, c: T| !#[trigger] lt(a, b) && !#[trigger] lt(b, c) ==> !lt(a, c)
}

/// No element sorts strictly before an element that comes earlier.
pub open spec fn sorted_by<T>(s: Seq<T>, lt: spec_fn(T, T) -> bool) -> bool {
    forall|i: int, j: int| 0 <= i < j < s.len() ==> !lt(#[trigger] s[j], #[trigger] s[i])
}

/// The order of strings by their characters satisfies the strict weak order laws.
pub proof fn lemma_string_order()
    ensures
        strict_weak_order(|a: Seq<char>, b: Seq<char>| seq_lt(a, b)),
{
    let lt = |a: Seq<char>, b: Seq<char>| seq_lt(a, b);
    assert forall|a: Seq<char>, b: Seq<char>| #[trigger] lt(a, b) implies !lt(b, a) by {
        lemma_seq_lt_total(a, b);
    }
    assert forall|a: Seq<char>, b: Seq<char>, c: Seq<char>|
        #[trigger] lt(a, b) && #[trigger] lt(b, c) implies lt(a, c) by {
        lemma_seq_lt_transitive(a, b, c);
    }
    assert forall|a: Seq<char>, b: Seq<char>, c: Seq<char>|
        !#[trigger] lt(a, b) && !#[trigger] lt(b, c) implies !lt(a, c) by {
        lemma_seq_lt_total(a, b);
        lemma_seq_lt_total(b, c);
        lemma_seq_lt_total(a, c);
        if seq_lt(a, c) {
            if a != b && b != c {
                lemma_seq_lt_transitive(c, b, a);
            }
        }
    }
}

/// The order of string pairs satisfies the strict weak order laws.
pub proof fn lemma_pair_order()
    ensures
        strict_weak_order(
            |a: (Seq<char>, Seq<char>), b: (Seq<char>, Seq<char>)| pair_lt(a, b),
        ),
{
    let lt = |a: (Seq<char>, Seq<char>), b: (Seq<char>, Seq<char>)| pair_lt(a, b);
    assert forall|a: (Seq<char>, Seq<char>), b: (Seq<char>, Seq<char>)|
        #[trigger] lt(a, b) implies !lt(b, a) by {
        lemma_seq_lt_total(a.0, b.0);
        lemma_seq_lt_total(a.1, b.1);
    }
    assert forall|a: (Seq<char>, Seq<char>), b: (Seq<char>, Seq<char>), c: (
        Seq<char>,
        Seq<char>,
    )| #[trigger] lt(a, b) && #[trigger] lt(b, c) implies lt(a, c) by {
        if seq_lt(a.0, b.0) && seq_lt(b.0, c.0) {
            lemma_seq_lt_transitive(a.0, b.0, c.0);
        }
        if a.0 == b.0 && b.0 == c.0 {
            lemma_seq_lt_transitive(a.1, b.1, c.1);
        }
    }
    assert forall|a: (Seq<char>, Seq<char>), b: (Seq<char>, Seq<char>), c: (
        Seq<char>,
        Seq<char>,
    )| !#[trigger] lt(a, b) && !#[trigger] lt(b, c) implies !lt(a, c) by {
        lemma_seq_lt_total(a.0, b.0);
        lemma_seq_lt_total(b.0, c.0);
        lemma_seq_lt_total(a.0, c.0);
        lemma_seq_lt_total(a.1, b.1);
        lemma_seq_lt_total(b.1, c.1);
        lemma_seq_lt_total(a.1, c.1);
        if seq_lt(a.0, c.0) {
            if a.0 != b.0 && b.0 != c.0 {
                lemma_seq_lt_transitive(c.0, b.0, a.0);
            }
        }
        if a.0 == c.0 && seq_lt(a.1, c.1) {
            if a.0 == b.0 {
                if a.1 != b.1 && b.1 != c.1 {
                    lemma_seq_lt_transitive(c.1, b.1, a.1);
                }
            } else {
                lemma_seq_lt_transitive(a.0, b.0, a.0);
            }
        }
    }
}

/// Two string pairs ordered by their characters, first components first.
pub open spec fn string_pair_lt(a: (String, String), b: (String, String)) -> bool {
    pair_lt((a.0@, a.1@), (b.0@, b.1@))
}

/// The order of string pairs satisfies the strict weak order laws.
pub proof fn lemma_string_pair_order()
    ensures
        strict_weak_order(|a: (String, String), b: (String, String)| string_pair_lt(a, b)),
{
    lemma_pair_order();
    let vlt = |a: (Seq<char>, Seq<char>), b: (Seq<char>, Seq<char>)| pair_lt(a, b);
    let lt = |a: (String, String), b: (String, String)| string_pair_lt(a, b);
    assert forall|a: (String, String), b: (String, String)| #[trigger] lt(a, b) implies !lt(
        b,
        a,
    ) by {
        assert(vlt((a.0@, a.1@), (b.0@, b.1@)));
    }
    assert forall|a: (String, String), b: (String, String), c: (String, String)|
        #[trigger] lt(a, b) && #[trigger] lt(b, c) implies lt(a, c) by {
        assert(vlt((a.0@, a.1@), (b.0@, b.1@)) && vlt((b.0@, b.1@), (c.0@, c.1@)));
    }
    assert forall|a: (String, String), b: (String, String), c: (String, String)|
        !#[trigger] lt(a, b) && !#[trigger] lt(b, c) implies !lt(a, c) by {
        assert(!vlt((a.0@, a.1@), (b.0@, b.1@)) && !vlt((b.0@, b.1@), (c.0@, c.1@)));
    }
}

/// Strings compared by their characters, as a total function on `String`.
pub open spec fn string_lt(a: String, b: String) -> bool {
    seq_lt(a@, b@)
}

/// The order of strings satisfies the strict weak order laws.
pub proof fn lemma_string_lt_order()
    ensures
        strict_weak_order(|a: String, b: String| string_lt(a, b)),
{
    lemma_string_order();
    let vlt = |a: Seq<char>, b: Seq<char>| seq_lt(a, b);
    let lt = |a: String, b: String| string_lt(a, b);
    assert forall|a: String, b: String| #[trigger] lt(a, b) implies !lt(b, a) by {
        assert(vlt(a@, b@));
    }
    assert forall|a: String, b: String, c: String|
        #[trigger] lt(a, b) && #[trigger] lt(b, c) implies lt(a, c) by {
        assert(vlt(a@, b@) && vlt(b@, c@));
    }
    assert forall|a: String, b: String, c: String|
        !#[trigger] lt(a, b) && !#[trigger] lt(b, c) implies !lt(a, c) by {
        assert(!vlt(a@, b@) && !vlt(b@, c@));
    }
}

/// Stable insertion sort of `v` by the order that `lt` computes and `spec_lt`
/// states: the result holds the same elements, none of them after one that it
/// sorts before.
pub fn sort_by_lt<T, F: Fn(&T, &T) -> bool>(v: Vec<T>, lt: &F, Ghost(spec_lt): Ghost<
    spec_fn(T, T) -> bool,
>) -> (r: Vec<T>)
    requires
        strict_weak_order(spec_lt),
        forall|a: &T, b: &T| #[trigger] lt.requires((a, b)),
        forall|a: &T, b: &T, x: bool| #[trigger] lt.ensures((a, b), x) ==> x == spec_lt(*a, *b),
    ensures
        sorted_by(r@, spec_lt),
        r@.to_multiset() == v@.to_multiset(),
{
    broadcast use vstd::seq_lib::group_to_multiset_ensures;

    let ghost orig = v@;
    let mut rest = v;
    let mut r: Vec<T> = Vec::new();
    while rest.len() > 0
        invariant
            strict_weak_order(spec_lt),
            forall|a: &T, b: &T| #[trigger] lt.requires((a, b)),
            forall|a: &T, b: &T, x: bool| #[trigger] lt.ensures((a, b), x) ==> x == spec_lt(
                *a,
                *b,
            ),
            sorted_by(r@, spec_lt),
            r@.to_multiset().add(rest@.to_multiset()) == orig.to_multiset(),
        decreases rest.len(),
    {
        let ghost before = rest@;
        let x = rest.pop().unwrap();
        assert(before =~= rest@.push(x));
        let mut j: usize = 0;
        while j < r.len() && lt(&r[j], &x)
            invariant
                forall|a: &T, b: &T| #[trigger] lt.requires((a, b)),
                forall|a: &T, b: &T, y: bool| #[trigger] lt.ensures((a, b), y) ==> y == spec_lt(
                    *a,
                    *b,
                ),
                j <= r.len(),
                forall|k: int| 0 <= k < j ==> spec_lt(#[trigger] r@[k], x),
            decreases r.len() - j,
        {
            j = j + 1;
        }
        let ghost old_r = r@;
        r.insert(j, x);
        proof {
            assert(r@ == old_r.insert(j as int, x));
            assert(r@.remove(j as int) =~= old_r);
            assert(r@[j as int] == x);
            assert(r@.to_multiset() =~= old_r.to_multiset().insert(x)) by {
                r@.to_multiset_ensures();
                assert(r@.remove(j as int).to_multiset() =~= r@.to_multiset().remove(x));
                assert(r@.contains(x));
            }
            assert forall|a: int, b: int| 0 <= a < b < r@.len() implies !spec_lt(
                #[trigger] r@[b],
                #[trigger] r@[a],
            ) by {
                if b < j {
                    assert(r@[a] == old_r[a] && r@[b] == old_r[b]);
                } else if b == j {
                    assert(r@[a] == old_r[a]);
                    assert(spec_lt(old_r[a], x));
                } else if a > j {
                    assert(r@[a] == old_r[a - 1] && r@[b] == old_r[b - 1]);
                } else if a == j {
                    assert(r@[b] == old_r[b - 1]);
                    assert(!spec_lt(old_r[j as int], x));
                    assert(!spec_lt(old_r[b - 1], old_r[j as int]) || b - 1 == j);
                } else {
                    assert(r@[a] == old_r[a] && r@[b] == old_r[b - 1]);
                }
            }
            rest@.to_multiset_ensures();
            assert(rest@.push(x).to_multiset() =~= rest@.to_multiset().insert(x));
            assert(r@.to_multiset().add(rest@.to_multiset()) =~= old_r.to_multiset().add(
                before.to_multiset(),
            ));
        }
    }
    proof {
        assert(rest@.to_multiset() =~= vstd::multiset::Multiset::empty());
        assert(r@.to_multiset().add(rest@.to_multiset()) =~= r@.to_multiset());
    }
    r
}

} // verus!
