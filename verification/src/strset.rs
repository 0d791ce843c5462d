//! Ordered sets of strings, kept as strictly increasing vectors.
//!
//! Strings are ordered as `String`'s `Ord` orders them: lexicographically
//! by bytes of their UTF-8 encoding, which is the lexicographic order of
//! their characters' code points. A vector that is strictly increasing in
//! that order is what iterating a `BTreeSet<String>` yields, and what
//! `sort` followed by `dedup` leaves.

use crate::text::chars_of;
use vstd::prelude::*;

verus! {

/// `a` and `b` agree on their first `k` characters and `a` is smaller at
/// position `k` (or ends there while `b` goes on).
pub open spec fn lt_at(a: Seq<char>, b: Seq<char>, k: int) -> bool {
    &&& 0 <= k <= a.len()
    &&& k <= b.len()
    &&& a.subrange(0, k) == b.subrange(0, k)
    &&& ((k == a.len() && k < b.len()) || (k < a.len() && k < b.len() && a[k] < b[k]))
}

/// Lexicographic order on character sequences (code point order).
pub open spec fn str_lt(a: Seq<char>, b: Seq<char>) -> bool {
    exists|k: int| lt_at(a, b, k)
}

/// The character sequences of a vector of strings.
pub open spec fn views(v: Seq<String>) -> Seq<Seq<char>> {
    v.map_values(|s: String| s@)
}

/// Every element is smaller than every later element.
pub open spec fn strictly_sorted(s: Seq<Seq<char>>) -> bool {
    forall|i: int, j: int| 0 <= i < j < s.len() ==> str_lt(#[trigger] s[i], #[trigger] s[j])
}

/// `s` is the increasing enumeration of the set of elements of `t`.
pub open spec fn is_sorted_set_of(s: Seq<Seq<char>>, t: Seq<Seq<char>>) -> bool {
    strictly_sorted(s) && s.to_set() == t.to_set()
}

proof fn lemma_lt_at_unique(a: Seq<char>, b: Seq<char>, k: int, m: int)
    requires
        lt_at(a, b, k),
        0 <= m <= a.len(),
        m <= b.len(),
        a.subrange(0, m) == b.subrange(0, m),
    ensures
        m <= k,
{
    if m > k {
        assert(0 <= k);
        assert(k < a.len());
        assert(a.subrange(0, m)[k] == a[k]);
        assert(b.subrange(0, m)[k] == b[k]);
        assert(a[k] == b[k]);
        assert(k < a.len());
        assert(!(a[k] < b[k]));
    }
}

/// The order is irreflexive.
pub proof fn lemma_lt_irreflexive(a: Seq<char>)
    ensures
        !str_lt(a, a),
{
}

/// The order is asymmetric.
pub proof fn lemma_lt_asymmetric(a: Seq<char>, b: Seq<char>)
    requires
        str_lt(a, b),
    ensures
        !str_lt(b, a),
{
    let k = choose|k: int| lt_at(a, b, k);
    if str_lt(b, a) {
        let m = choose|m: int| lt_at(b, a, m);
        lemma_lt_at_unique(a, b, k, m);
        lemma_lt_at_unique(b, a, m, k);
    }
}

/// The order is transitive.
pub proof fn lemma_lt_transitive(a: Seq<char>, b: Seq<char>, c: Seq<char>)
    requires
        str_lt(a, b),
        str_lt(b, c),
    ensures
        str_lt(a, c),
{
    let k = choose|k: int| lt_at(a, b, k);
    let m = choose|m: int| lt_at(b, c, m);
    let p = if k < m { k } else { m };
    assert(a.subrange(0, p) =~= b.subrange(0, k).subrange(0, p));
    assert(c.subrange(0, p) =~= b.subrange(0, m).subrange(0, p));
    assert(a.subrange(0, p) == b.subrange(0, p)) by {
        assert(a.subrange(0, p) =~= a.subrange(0, k).subrange(0, p));
        assert(b.subrange(0, p) =~= b.subrange(0, k).subrange(0, p));
    }
    assert(b.subrange(0, p) == c.subrange(0, p)) by {
        assert(b.subrange(0, p) =~= b.subrange(0, m).subrange(0, p));
        assert(c.subrange(0, p) =~= c.subrange(0, m).subrange(0, p));
    }
    if k < m {
        assert(b[k] == c[k]) by {
            assert(b.subrange(0, m)[k] == c.subrange(0, m)[k]);
        }
    } else if m < k {
        assert(a[m] == b[m]) by {
            assert(a.subrange(0, k)[m] == b.subrange(0, k)[m]);
        }
    }
    assert(lt_at(a, c, p));
}

proof fn lemma_lt_at_cons(a: Seq<char>, b: Seq<char>, k: int)
    requires
        a.len() > 0,
        b.len() > 0,
        a[0] == b[0],
        lt_at(a.drop_first(), b.drop_first(), k),
    ensures
        lt_at(a, b, k + 1),
{
    let a1 = a.drop_first();
    let b1 = b.drop_first();
    assert(a.subrange(0, k + 1) =~= seq![a[0]] + a1.subrange(0, k));
    assert(b.subrange(0, k + 1) =~= seq![b[0]] + b1.subrange(0, k));
}

proof fn lemma_lt_first(a: Seq<char>, b: Seq<char>)
    requires
        a.len() > 0,
        b.len() > 0,
        a[0] != b[0],
    ensures
        str_lt(a, b) || str_lt(b, a),
{
    assert(a.subrange(0, 0) =~= b.subrange(0, 0));
    if a[0] < b[0] {
        assert((0int < a.len() && 0int < b.len() && a[0int] < b[0int]));
        assert(lt_at(a, b, 0));
    } else {
        assert(b[0] < a[0]);
        assert((0int < a.len() && 0int < b.len() && b[0int] < a[0int]));
        assert(lt_at(b, a, 0));
    }
}

/// Any two sequences are equal or ordered one way or the other.
pub proof fn lemma_lt_total(a: Seq<char>, b: Seq<char>)
    ensures
        a == b || str_lt(a, b) || str_lt(b, a),
    decreases a.len(),
{
    if a.len() == 0 && b.len() == 0 {
        assert(a =~= b);
    } else if a.len() == 0 {
        assert(a.subrange(0, 0) =~= b.subrange(0, 0));
        assert(lt_at(a, b, 0));
    } else if b.len() == 0 {
        assert(a.subrange(0, 0) =~= b.subrange(0, 0));
        assert(lt_at(b, a, 0));
    } else if a[0] != b[0] {
        lemma_lt_first(a, b);
    } else {
        lemma_lt_total(a.drop_first(), b.drop_first());
        if a.drop_first() == b.drop_first() {
            assert(a =~= seq![a[0]] + a.drop_first());
            assert(b =~= seq![b[0]] + b.drop_first());
        } else if str_lt(a.drop_first(), b.drop_first()) {
            let k = choose|k: int| lt_at(a.drop_first(), b.drop_first(), k);
            lemma_lt_at_cons(a, b, k);
        } else {
            let k = choose|k: int| lt_at(b.drop_first(), a.drop_first(), k);
            lemma_lt_at_cons(b, a, k);
        }
    }
}

/// Compares two character slices: negative, zero or positive as `a` is
/// smaller than, equal to or greater than `b`.
pub fn compare_chars(a: &[char], b: &[char]) -> (r: i8)
    ensures
        (r < 0) == str_lt(a@, b@),
        (r == 0) == (a@ == b@),
        (r > 0) == str_lt(b@, a@),
{
    let n = if a.len() < b.len() { a.len() } else { b.len() };
    let mut k: usize = 0;
    while k < n
        invariant
            k <= n,
            n <= a@.len(),
            n <= b@.len(),
            n == a@.len() || n == b@.len(),
            a@.subrange(0, k as int) == b@.subrange(0, k as int),
        decreases n - k,
    {
        if a[k] != b[k] {
            if a[k] < b[k] {
                assert(a@[k as int] < b@[k as int]);
                assert((k as int) < a@.len() && (k as int) < b@.len());
                assert(lt_at(a@, b@, k as int));
                proof { lemma_lt_asymmetric(a@, b@); }
                assert(a@[k as int] != b@[k as int]);
                return -1;
            } else {
                assert(b@[k as int] < a@[k as int]);
                assert((k as int) < a@.len() && (k as int) < b@.len());
                assert(lt_at(b@, a@, k as int));
                proof { lemma_lt_asymmetric(b@, a@); }
                assert(a@[k as int] != b@[k as int]);
                return 1;
            }
        }
        assert(a@.subrange(0, k + 1) =~= a@.subrange(0, k as int).push(a@[k as int]));
        assert(b@.subrange(0, k + 1) =~= b@.subrange(0, k as int).push(b@[k as int]));
        k = k + 1;
    }
    if a.len() < b.len() {
        assert(lt_at(a@, b@, k as int));
        proof { lemma_lt_asymmetric(a@, b@); }
        -1
    } else if b.len() < a.len() {
        assert(lt_at(b@, a@, k as int));
        proof { lemma_lt_asymmetric(b@, a@); }
        1
    } else {
        assert(a@ =~= a@.subrange(0, k as int));
        assert(b@ =~= b@.subrange(0, k as int));
        proof { lemma_lt_irreflexive(a@); }
        0
    }
}

/// Compares two strings in `String`'s order.
pub fn compare_strings(a: &String, b: &String) -> (r: i8)
    ensures
        (r < 0) == str_lt(a@, b@),
        (r == 0) == (a@ == b@),
        (r > 0) == str_lt(b@, a@),
{
    let ac = chars_of(a.as_str());
    let bc = chars_of(b.as_str());
    compare_chars(&ac, &bc)
}

/// Whether two strings have the same characters.
pub fn strings_equal(a: &String, b: &String) -> (r: bool)
    ensures
        r == (a@ == b@),
{
    compare_strings(a, b) == 0
}

/// Viewing a vector after a push is viewing it before, then pushing the view.
pub proof fn lemma_views_push(v: Seq<String>, x: String)
    ensures
        views(v.push(x)) == views(v).push(x@),
{
    assert(views(v.push(x)) =~= views(v).push(x@));
}

/// Inserts `x` into the strictly increasing vector `v`, unless an equal
/// string is already there.
pub fn insert_sorted(v: &mut Vec<String>, x: String)
    requires
        strictly_sorted(views(old(v)@)),
    ensures
        strictly_sorted(views(final(v)@)),
        views(final(v)@).to_set() == views(old(v)@).to_set().insert(x@),
{
    let ghost old_views = views(v@);
    let mut p: usize = 0;
    while p < v.len()
        invariant
            p <= v@.len(),
            v@ == old(v)@,
            old_views == views(v@),
            strictly_sorted(old_views),
            forall|i: int| 0 <= i < p ==> str_lt(#[trigger] old_views[i], x@),
        ensures
            p <= v@.len(),
            v@ == old(v)@,
            forall|i: int| 0 <= i < p ==> str_lt(#[trigger] old_views[i], x@),
            p < v@.len() ==> str_lt(x@, old_views[p as int]),
        decreases v.len() - p,
    {
        let c = compare_strings(&v[p], &x);
        if c == 0 {
            assert(old_views[p as int] == x@);
            assert(old_views.to_set().insert(x@) =~= old_views.to_set());
            return;
        }
        if c > 0 {
            break;
        }
        p = p + 1;
    }
    // Every element before p is below x; every element from p on is above it.
    proof {
        assert forall|i: int| p <= i < old_views.len() implies str_lt(x@, #[trigger] old_views[i]) by {
            assert(str_lt(x@, old_views[p as int]));
            if i > p {
                assert(str_lt(old_views[p as int], old_views[i]));
                lemma_lt_transitive(x@, old_views[p as int], old_views[i]);
            }
        }
    }
    let ghost xv = x@;
    v.insert(p, x);
    proof {
        let nv = views(v@);
        assert(nv =~= old_views.insert(p as int, xv));
        assert forall|i: int, j: int| 0 <= i < j < nv.len() implies str_lt(#[trigger] nv[i], #[trigger] nv[j]) by {
            if j < p {
            } else if j == p {
                assert(nv[i] == old_views[i]);
            } else if i < p {
                assert(nv[j] == old_views[j - 1]);
                if i < p {
                    assert(str_lt(old_views[i], xv));
                    lemma_lt_transitive(old_views[i], xv, old_views[j - 1]);
                }
            } else if i == p {
                assert(nv[j] == old_views[j - 1]);
            } else {
                assert(nv[i] == old_views[i - 1]);
                assert(nv[j] == old_views[j - 1]);
            }
        }
        assert(nv.to_set() =~= old_views.to_set().insert(xv)) by {
            assert forall|s: Seq<char>| nv.to_set().contains(s) implies old_views.to_set().insert(xv).contains(s) by {
                let i = choose|i: int| 0 <= i < nv.len() && nv[i] == s;
                if i < p {
                    assert(old_views[i] == s);
                } else if i > p {
                    assert(old_views[i - 1] == s);
                }
            }
            assert forall|s: Seq<char>| old_views.to_set().insert(xv).contains(s) implies nv.to_set().contains(s) by {
                if s == xv {
                    assert(nv[p as int] == s);
                } else {
                    let i = choose|i: int| 0 <= i < old_views.len() && old_views[i] == s;
                    if i < p {
                        assert(nv[i] == s);
                    } else {
                        assert(nv[i + 1] == s);
                    }
                }
            }
        }
    }
}

/// Returns the strings of `items` in increasing order without repetitions
/// (what `sort` followed by `dedup` leaves, or what a `BTreeSet` yields).
pub fn sorted_set(items: &Vec<String>) -> (r: Vec<String>)
    ensures
        is_sorted_set_of(views(r@), views(items@)),
{
    let mut out: Vec<String> = Vec::new();
    let mut i: usize = 0;
    assert(views(out@).to_set() =~= views(items@.take(0)).to_set());
    while i < items.len()
        invariant
            i <= items@.len(),
            strictly_sorted(views(out@)),
            views(out@).to_set() == views(items@.take(i as int)).to_set(),
        decreases items.len() - i,
    {
        let x = items[i].clone();
        insert_sorted(&mut out, x);
        proof {
            assert(items@.take(i + 1) == items@.take(i as int).push(items@[i as int]));
            lemma_views_push(items@.take(i as int), items@[i as int]);
            views(items@.take(i as int)).lemma_push_to_set_commute(items@[i as int]@);
        }
        i = i + 1;
    }
    assert(items@.take(items.len() as int) == items@);
    out
}


/// A finite set of strings has exactly one increasing enumeration: two
/// strictly sorted sequences with the same elements are equal.
pub proof fn lemma_sorted_set_unique(a: Seq<Seq<char>>, b: Seq<Seq<char>>)
    requires
        strictly_sorted(a),
        strictly_sorted(b),
        a.to_set() == b.to_set(),
    ensures
        a == b,
    decreases a.len(),
{
    if a.len() == 0 {
        if b.len() > 0 {
            assert(b.to_set().contains(b[0]));
            assert(!a.to_set().contains(b[0]));
        }
        assert(a =~= b);
    } else if b.len() == 0 {
        assert(a.to_set().contains(a[0]));
        assert(!b.to_set().contains(a[0]));
    } else {
        assert(a.to_set().contains(a[0]));
        assert(b.to_set().contains(b[0]));
        let j = choose|j: int| 0 <= j < b.len() && b[j] == a[0];
        let i = choose|i: int| 0 <= i < a.len() && a[i] == b[0];
        if a[0] != b[0] {
            assert(j > 0 && i > 0);
            assert(str_lt(b[0], b[j]));
            assert(str_lt(a[0], a[i]));
            lemma_lt_asymmetric(a[0], b[0]);
        }
        let ta = a.drop_first();
        let tb = b.drop_first();
        assert(strictly_sorted(ta)) by {
            assert forall|x: int, y: int| 0 <= x < y < ta.len() implies str_lt(
                #[trigger] ta[x],
                #[trigger] ta[y],
            ) by {
                assert(ta[x] == a[x + 1] && ta[y] == a[y + 1]);
            }
        }
        assert(strictly_sorted(tb)) by {
            assert forall|x: int, y: int| 0 <= x < y < tb.len() implies str_lt(
                #[trigger] tb[x],
                #[trigger] tb[y],
            ) by {
                assert(tb[x] == b[x + 1] && tb[y] == b[y + 1]);
            }
        }
        assert(ta.to_set() =~= a.to_set().remove(a[0])) by {
            assert forall|x: Seq<char>| ta.to_set().contains(x) implies x != a[0] by {
                let k = choose|k: int| 0 <= k < ta.len() && ta[k] == x;
                assert(a[k + 1] == x);
                assert(str_lt(a[0], a[k + 1]));
                lemma_lt_irreflexive(a[0]);
            }
            assert forall|x: Seq<char>| a.to_set().contains(x) && x != a[0] implies ta.to_set().contains(x) by {
                let k = choose|k: int| 0 <= k < a.len() && a[k] == x;
                assert(k > 0);
                assert(ta[k - 1] == x);
            }
        }
        assert(tb.to_set() =~= b.to_set().remove(b[0])) by {
            assert forall|x: Seq<char>| tb.to_set().contains(x) implies x != b[0] by {
                let k = choose|k: int| 0 <= k < tb.len() && tb[k] == x;
                assert(b[k + 1] == x);
                assert(str_lt(b[0], b[k + 1]));
                lemma_lt_irreflexive(b[0]);
            }
            assert forall|x: Seq<char>| b.to_set().contains(x) && x != b[0] implies tb.to_set().contains(x) by {
                let k = choose|k: int| 0 <= k < b.len() && b[k] == x;
                assert(k > 0);
                assert(tb[k - 1] == x);
            }
        }
        lemma_sorted_set_unique(ta, tb);
        assert(a =~= seq![a[0]] + ta);
        assert(b =~= seq![b[0]] + tb);
    }
}


/// The increasing enumeration of a finite set of strings.
pub open spec fn sorted_enumeration(t: Set<Seq<char>>) -> Seq<Seq<char>> {
    choose|s: Seq<Seq<char>>| strictly_sorted(s) && s.to_set() == t
}

/// A strictly sorted sequence is the increasing enumeration of its set.
pub proof fn lemma_is_sorted_enumeration(s: Seq<Seq<char>>)
    requires
        strictly_sorted(s),
    ensures
        sorted_enumeration(s.to_set()) == s,
{
    let t = sorted_enumeration(s.to_set());
    lemma_sorted_set_unique(t, s);
}

} // verus!
