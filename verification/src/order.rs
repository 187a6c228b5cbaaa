//! Code-point order on strings, and sorted listings without repetitions.
//!
//! Comparing strings character by character by code point gives the same
//! order as comparing their UTF-8 bytes, which is how `String`s sort.
use vstd::prelude::*;
use vstd::string::*;

use crate::text::chars_of;

verus! {

/// `a` comes strictly before `b`: at the first position where they differ
/// `a` has the smaller code point, or `a` is a proper prefix of `b`.
pub open spec fn lex_lt(a: Seq<char>, b: Seq<char>) -> bool
    decreases a.len(),
{
    if a.len() == 0 {
        b.len() > 0
    } else if b.len() == 0 {
        false
    } else if a[0] != b[0] {
        (a[0] as int) < (b[0] as int)
    } else {
        lex_lt(a.drop_first(), b.drop_first())
    }
}

/// Strings in strictly increasing order: sorted, and no string twice.
pub open spec fn strictly_sorted(s: Seq<String>) -> bool {
    forall|i: int, j: int| 0 <= i < j < s.len() ==> lex_lt(#[trigger] s[i]@, #[trigger] s[j]@)
}

/// Some element of `s` reads `t`.
pub open spec fn has_view(s: Seq<String>, t: Seq<char>) -> bool {
    exists|i: int| 0 <= i < s.len() && (#[trigger] s[i])@ == t
}

pub proof fn lemma_lex_irreflexive(a: Seq<char>)
    ensures
        !lex_lt(a, a),
    decreases a.len(),
{
    if a.len() > 0 {
        lemma_lex_irreflexive(a.drop_first());
    }
}

pub proof fn lemma_lex_transitive(a: Seq<char>, b: Seq<char>, c: Seq<char>)
    requires
        lex_lt(a, b),
        lex_lt(b, c),
    ensures
        lex_lt(a, c),
    decreases a.len(),
{
    if a.len() > 0 && b.len() > 0 && c.len() > 0 {
        if a[0] == b[0] && b[0] == c[0] {
            lemma_lex_transitive(a.drop_first(), b.drop_first(), c.drop_first());
        }
    }
}

/// Two different strings are ordered one way or the other.
pub proof fn lemma_lex_total(a: Seq<char>, b: Seq<char>)
    requires
        a != b,
    ensures
        lex_lt(a, b) || lex_lt(b, a),
    decreases a.len(),
{
    if a.len() > 0 && b.len() > 0 && a[0] == b[0] {
        if a.drop_first() == b.drop_first() {
            assert(a =~= seq![a[0]] + a.drop_first());
            assert(b =~= seq![b[0]] + b.drop_first());
        }
        lemma_lex_total(a.drop_first(), b.drop_first());
    } else if a.len() == 0 && b.len() == 0 {
        assert(a =~= b);
    } else if a.len() > 0 && b.len() > 0 {
        assert(a[0] != b[0]);
        assert((a[0] as int) != (b[0] as int));
    }
}

proof fn lemma_lex_step(a: Seq<char>, b: Seq<char>, i: int)
    requires
        0 <= i < a.len(),
        i < b.len(),
        a[i] == b[i],
    ensures
        lex_lt(a.skip(i), b.skip(i)) == lex_lt(a.skip(i + 1), b.skip(i + 1)),
{
    assert(a.skip(i).drop_first() =~= a.skip(i + 1));
    assert(b.skip(i).drop_first() =~= b.skip(i + 1));
}

/// Whether `a` comes strictly before `b` in code-point order.
pub fn str_lt(a: &str, b: &str) -> (r: bool)
    ensures
        r == lex_lt(a@, b@),
{
    let x = chars_of(a);
    let y = chars_of(b);
    let mut i: usize = 0;
    assert(a@.skip(0) =~= a@);
    assert(b@.skip(0) =~= b@);
    loop
        invariant
            x@ == a@,
            y@ == b@,
            i <= x@.len(),
            i <= y@.len(),
            lex_lt(a@, b@) == lex_lt(a@.skip(i as int), b@.skip(i as int)),
        decreases x@.len() - i,
    {
        if i == x.len() {
            return i < y.len();
        }
        if i == y.len() {
            return false;
        }
        if x[i] != y[i] {
            return x[i] < y[i];
        }
        proof {
            lemma_lex_step(a@, b@, i as int);
        }
        i = i + 1;
    }
}

/// Insert `x` into a strictly sorted vector, unless an equal string is
/// already there.
fn insert_unique(out: &mut Vec<String>, x: String)
    requires
        strictly_sorted(old(out)@),
    ensures
        strictly_sorted(final(out)@),
        forall|t: Seq<char>| has_view(final(out)@, t) <==> (has_view(old(out)@, t) || t == x@),
{
    let n: usize = out.len();
    let mut i: usize = 0;
    while i < n && str_lt(out[i].as_str(), x.as_str())
        invariant
            n == out@.len(),
            i <= n,
            forall|j: int| 0 <= j < i ==> lex_lt((#[trigger] out@[j])@, x@),
        decreases n - i,
    {
        i = i + 1;
    }
    if i < n && out[i] == x {
        return;
    }
    let ghost before = out@;
    proof {
        if i < n {
            lemma_lex_total(before[i as int]@, x@);
            assert forall|j: int| i <= j < n implies lex_lt(x@, (#[trigger] before[j])@) by {
                if j > i {
                    lemma_lex_transitive(x@, before[i as int]@, before[j]@);
                }
            }
        }
    }
    out.insert(i, x);
    proof {
        let after = out@;
        assert(after =~= before.insert(i as int, x));
        assert forall|p: int, q: int| 0 <= p < q < after.len() implies lex_lt(
            #[trigger] after[p]@,
            #[trigger] after[q]@,
        ) by {
            if q < i {
                assert(after[p] == before[p] && after[q] == before[q]);
            } else if q == i {
                assert(after[p] == before[p]);
            } else if p < i {
                assert(after[p] == before[p] && after[q] == before[q - 1]);
                lemma_lex_transitive(before[p]@, x@, before[q - 1]@);
            } else if p == i {
                assert(after[q] == before[q - 1]);
            } else {
                assert(after[p] == before[p - 1] && after[q] == before[q - 1]);
            }
        }
        assert forall|t: Seq<char>| has_view(after, t) <==> (has_view(before, t) || t == x@) by {
            if has_view(after, t) {
                let k = choose|k: int| 0 <= k < after.len() && (#[trigger] after[k])@ == t;
                if k < i {
                    assert(after[k] == before[k]);
                } else if k > i {
                    assert(after[k] == before[k - 1]);
                }
            }
            if has_view(before, t) {
                let k = choose|k: int| 0 <= k < before.len() && (#[trigger] before[k])@ == t;
                if k < i {
                    assert(after[k] == before[k]);
                } else {
                    assert(after[k + 1] == before[k]);
                }
            }
            if t == x@ {
                assert(after[i as int] == x);
            }
        }
    }
}

/// The strings of `v`, sorted in code-point order, each once: what
/// `sort()` followed by `dedup()` leaves.
pub fn sort_dedup(v: Vec<String>) -> (r: Vec<String>)
    ensures
        strictly_sorted(r@),
        forall|t: Seq<char>| has_view(r@, t) <==> has_view(v@, t),
{
    let mut out: Vec<String> = Vec::new();
    let mut i: usize = 0;
    while i < v.len()
        invariant
            i <= v@.len(),
            strictly_sorted(out@),
            forall|t: Seq<char>|
                has_view(out@, t) <==> has_view(v@.subrange(0, i as int), t),
        decreases v@.len() - i,
    {
        let ghost prev = out@;
        insert_unique(&mut out, v[i].clone());
        proof {
            assert forall|t: Seq<char>|
                has_view(out@, t) <==> has_view(v@.subrange(0, i + 1), t) by {
                let s0 = v@.subrange(0, i as int);
                let s1 = v@.subrange(0, i + 1);
                if has_view(s0, t) {
                    let k = choose|k: int| 0 <= k < s0.len() && (#[trigger] s0[k])@ == t;
                    assert(s1[k] == s0[k]);
                }
                if has_view(s1, t) {
                    let k = choose|k: int| 0 <= k < s1.len() && (#[trigger] s1[k])@ == t;
                    if k < i {
                        assert(s0[k] == s1[k]);
                    }
                }
                if t == v@[i as int]@ {
                    assert(s1[i as int] == v@[i as int]);
                }
            }
        }
        i = i + 1;
    }
    assert(v@.subrange(0, v@.len() as int) =~= v@);
    out
}

} // verus!
