//! The order of strings by character codes, as sorted maps keyed by account
//! names list them, and sorting by it.
use vstd::prelude::*;
use vstd::string::StrSliceExecFns;
use crate::collections::key_views;

verus! {

/// `a` comes before `b`: at the first position where they differ `a` has
/// the smaller character, or `a` is a proper prefix of `b`.
pub open spec fn str_lt(a: Seq<char>, b: Seq<char>) -> bool
    decreases a.len(),
{
    if a.len() == 0 {
        b.len() > 0
    } else if b.len() == 0 {
        false
    } else if a[0] != b[0] {
        (a[0] as int) < (b[0] as int)
    } else {
        str_lt(a.drop_first(), b.drop_first())
    }
}

/// Every element comes before every later one.
pub open spec fn sorted_strs(s: Seq<Seq<char>>) -> bool {
    forall|i: int, j: int| 0 <= i < j < s.len() ==> str_lt(#[trigger] s[i], #[trigger] s[j])
}

pub proof fn lemma_str_lt_irreflexive(a: Seq<char>)
    ensures
        !str_lt(a, a),
    decreases a.len(),
{
    if a.len() > 0 {
        lemma_str_lt_irreflexive(a.drop_first());
    }
}

pub proof fn lemma_str_lt_transitive(a: Seq<char>, b: Seq<char>, c: Seq<char>)
    requires
        str_lt(a, b),
        str_lt(b, c),
    ensures
        str_lt(a, c),
    decreases a.len(),
{
    if a.len() > 0 && b.len() > 0 && c.len() > 0 {
        if a[0] == b[0] && b[0] == c[0] {
            lemma_str_lt_transitive(a.drop_first(), b.drop_first(), c.drop_first());
        }
    }
}

pub proof fn lemma_str_lt_total(a: Seq<char>, b: Seq<char>)
    requires
        a != b,
    ensures
        str_lt(a, b) || str_lt(b, a),
    decreases a.len(),
{
    if a.len() > 0 && b.len() > 0 && a[0] == b[0] {
        if a.drop_first() == b.drop_first() {
            assert(a =~= seq![a[0]] + a.drop_first());
            assert(b =~= seq![b[0]] + b.drop_first());
        }
        lemma_str_lt_total(a.drop_first(), b.drop_first());
    } else if a.len() == 0 && b.len() == 0 {
        assert(a =~= b);
    } else if a.len() > 0 && b.len() > 0 {
        assert((a[0] as int) != (b[0] as int));
    }
}

pub proof fn lemma_str_lt_asymmetric(a: Seq<char>, b: Seq<char>)
    requires
        str_lt(a, b),
    ensures
        !str_lt(b, a),
{
    if str_lt(b, a) {
        lemma_str_lt_transitive(a, b, a);
        lemma_str_lt_irreflexive(a);
    }
}

/// Whether `a` comes before `b`.
pub fn string_lt(a: &String, b: &String) -> (r: bool)
    ensures
        r == str_lt(a@, b@),
{
    let sa = a.as_str();
    let sb = b.as_str();
    let la = sa.unicode_len();
    let lb = sb.unicode_len();
    let mut i: usize = 0;
    assert(a@.skip(0) =~= a@);
    assert(b@.skip(0) =~= b@);
    while i < la && i < lb
        invariant
            i <= la == a@.len(),
            lb == b@.len(),
            i <= lb,
            sa@ == a@,
            sb@ == b@,
            str_lt(a@, b@) == str_lt(a@.skip(i as int), b@.skip(i as int)),
        decreases la - i,
    {
        let ca = sa.get_char(i);
        let cb = sb.get_char(i);
        assert(a@.skip(i as int)[0] == ca);
        assert(b@.skip(i as int)[0] == cb);
        if ca != cb {
            return (ca as u32) < (cb as u32);
        }
        assert(a@.skip(i as int).drop_first() =~= a@.skip(i + 1));
        assert(b@.skip(i as int).drop_first() =~= b@.skip(i + 1));
        i = i + 1;
    }
    i < lb
}

/// The strings of `v`, which has no duplicates, in ascending order.
pub fn sort_strings(v: Vec<String>) -> (r: Vec<String>)
    requires
        key_views(v@).no_duplicates(),
    ensures
        sorted_strs(key_views(r@)),
        key_views(r@).to_set() == key_views(v@).to_set(),
        key_views(r@).len() == key_views(v@).len(),
{
    let ghost vs = key_views(v@);
    let mut r: Vec<String> = Vec::new();
    let mut k: usize = 0;
    while k < v.len()
        invariant
            k <= v@.len(),
            vs == key_views(v@),
            vs.no_duplicates(),
            sorted_strs(key_views(r@)),
            key_views(r@).to_set() == vs.subrange(0, k as int).to_set(),
            key_views(r@).len() == k,
        decreases v@.len() - k,
    {
        let x = v[k].clone();
        let ghost xv = x@;
        let ghost rs = key_views(r@);
        assert(vs[k as int] == xv);
        assert(!rs.contains(xv)) by {
            if rs.contains(xv) {
                let j = choose|j: int| 0 <= j < rs.len() && rs[j] == xv;
                assert(rs.to_set().contains(xv));
                assert(vs.subrange(0, k as int).to_set().contains(xv));
                let m = choose|m: int| 0 <= m < k && vs.subrange(0, k as int)[m] == xv;
                assert(vs[m] == vs[k as int]);
            }
        }
        let mut j: usize = 0;
        while j < r.len() && string_lt(&r[j], &x)
            invariant
                j <= r@.len(),
                rs == key_views(r@),
                xv == x@,
                forall|i: int| 0 <= i < j ==> str_lt(#[trigger] rs[i], xv),
            decreases r@.len() - j,
        {
            assert(rs[j as int] == r@[j as int]@);
            j = j + 1;
        }
        proof {
            if j < r@.len() {
                assert(rs[j as int] == r@[j as int]@);
                assert(!str_lt(rs[j as int], xv));
                assert(rs[j as int] != xv);
                lemma_str_lt_total(rs[j as int], xv);
            }
        }
        r.insert(j, x);
        proof {
            let ns = key_views(r@);
            assert(ns =~= rs.insert(j as int, xv));
            assert forall|a: int, b: int| 0 <= a < b < ns.len() implies str_lt(
                #[trigger] ns[a],
                #[trigger] ns[b],
            ) by {
                if a < j && b < j {
                } else if a < j && b == j {
                } else if a < j && b > j {
                    assert(ns[b] == rs[b - 1]);
                    assert(str_lt(rs[a], rs[b - 1]));
                } else if a == j {
                    assert(ns[b] == rs[b - 1]);
                    if b - 1 > j {
                        assert(str_lt(rs[j as int], rs[b - 1]));
                        lemma_str_lt_transitive(xv, rs[j as int], rs[b - 1]);
                    }
                } else {
                    assert(ns[a] == rs[a - 1]);
                    assert(ns[b] == rs[b - 1]);
                }
            }
            assert(vs.subrange(0, k + 1) =~= vs.subrange(0, k as int).push(xv));
            vs.subrange(0, k as int).lemma_push_to_set_commute(xv);
            assert forall|y: Seq<char>| ns.to_set().contains(y) <==> rs.to_set().insert(xv).contains(y) by {
                if ns.contains(y) {
                    let m = choose|m: int| 0 <= m < ns.len() && ns[m] == y;
                    if m < j {
                        assert(rs[m] == y);
                    } else if m > j {
                        assert(rs[m - 1] == y);
                    }
                }
                if rs.contains(y) {
                    let m = choose|m: int| 0 <= m < rs.len() && rs[m] == y;
                    if m < j {
                        assert(ns[m] == y);
                    } else {
                        assert(ns[m + 1] == y);
                    }
                }
                if y == xv {
                    assert(ns[j as int] == y);
                }
            }
            assert(ns.to_set() =~= rs.to_set().insert(xv));
        }
        k = k + 1;
    }
    assert(vs.subrange(0, v@.len() as int) =~= vs);
    r
}

} // verus!
