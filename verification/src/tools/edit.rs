//! Literal find-and-replace over text, as `str::matches`, `str::replace` and
//! `str::replacen` do it: matches are found left to right and do not overlap.

use vstd::prelude::*;
use crate::text::{chars_occur_at, occurs_at, string_of};

verus! {

/// The number of non-overlapping occurrences of `p` in `s` from position `i`.
pub open spec fn count_from(s: Seq<char>, p: Seq<char>, i: int) -> nat
    recommends
        p.len() > 0,
    decreases s.len() - i,
{
    if i < 0 || i >= s.len() || p.len() == 0 {
        0
    } else if occurs_at(s, p, i) {
        1 + count_from(s, p, i + p.len())
    } else {
        count_from(s, p, i + 1)
    }
}

/// `s[i..]` with every non-overlapping occurrence of `p` (left to right)
/// replaced by `q`.
pub open spec fn replace_from(s: Seq<char>, p: Seq<char>, q: Seq<char>, i: int) -> Seq<char>
    recommends
        p.len() > 0,
    decreases s.len() - i,
{
    if i < 0 || i >= s.len() || p.len() == 0 {
        Seq::empty()
    } else if occurs_at(s, p, i) {
        q + replace_from(s, p, q, i + p.len())
    } else {
        seq![s[i]] + replace_from(s, p, q, i + 1)
    }
}

/// `s[i..]` with the first occurrence of `p` replaced by `q`.
pub open spec fn replace_first_from(s: Seq<char>, p: Seq<char>, q: Seq<char>, i: int) -> Seq<char>
    recommends
        p.len() > 0,
    decreases s.len() - i,
{
    if i < 0 || i >= s.len() || p.len() == 0 {
        Seq::empty()
    } else if occurs_at(s, p, i) {
        q + s.skip(i + p.len())
    } else {
        seq![s[i]] + replace_first_from(s, p, q, i + 1)
    }
}

/// `s.matches(p).count()`.
pub open spec fn count_matches(s: Seq<char>, p: Seq<char>) -> nat {
    count_from(s, p, 0)
}

/// `s.replace(p, q)`.
pub open spec fn replace_all(s: Seq<char>, p: Seq<char>, q: Seq<char>) -> Seq<char> {
    replace_from(s, p, q, 0)
}

/// `s.replacen(p, q, 1)`.
pub open spec fn replace_first(s: Seq<char>, p: Seq<char>, q: Seq<char>) -> Seq<char> {
    replace_first_from(s, p, q, 0)
}

/// The number of non-overlapping occurrences of the non-empty `p` in `s`.
pub fn count_occurrences(s: &Vec<char>, p: &Vec<char>) -> (r: usize)
    requires
        p@.len() > 0,
    ensures
        r as nat == count_matches(s@, p@),
{
    let mut i: usize = 0;
    let mut n: usize = 0;
    while i < s.len()
        invariant
            p@.len() > 0,
            i <= s@.len(),
            n <= i,
            n + count_from(s@, p@, i as int) == count_matches(s@, p@),
        decreases s@.len() - i,
    {
        if chars_occur_at(s, p, i) {
            n = n + 1;
            i = i + p.len();
        } else {
            i = i + 1;
        }
    }
    n
}

/// `s` with every non-overlapping occurrence of the non-empty `p` replaced by `q`.
pub fn replace_all_chars(s: &Vec<char>, p: &Vec<char>, q: &Vec<char>) -> (r: Vec<char>)
    requires
        p@.len() > 0,
    ensures
        r@ == replace_all(s@, p@, q@),
{
    let mut out: Vec<char> = Vec::new();
    let mut i: usize = 0;
    while i < s.len()
        invariant
            p@.len() > 0,
            i <= s@.len(),
            out@ + replace_from(s@, p@, q@, i as int) == replace_all(s@, p@, q@),
        decreases s@.len() - i,
    {
        let ghost before = out@;
        if chars_occur_at(s, p, i) {
            let mut j: usize = 0;
            while j < q.len()
                invariant
                    j <= q@.len(),
                    out@ == before + q@.take(j as int),
                decreases q@.len() - j,
            {
                out.push(q[j]);
                proof {
                    assert(q@.take(j + 1) =~= q@.take(j as int).push(q@[j as int]));
                }
                j += 1;
            }
            proof {
                assert(q@.take(q@.len() as int) =~= q@);
                assert(before + (q@ + replace_from(s@, p@, q@, i + p@.len())) =~= out@
                    + replace_from(s@, p@, q@, i + p@.len()));
            }
            i = i + p.len();
        } else {
            out.push(s[i]);
            proof {
                assert(before + (seq![s@[i as int]] + replace_from(s@, p@, q@, i + 1)) =~= out@
                    + replace_from(s@, p@, q@, i + 1));
            }
            i = i + 1;
        }
    }
    proof {
        assert(out@ + Seq::<char>::empty() =~= out@);
    }
    out
}

/// `s` with the first occurrence of the non-empty `p` replaced by `q`.
pub fn replace_first_chars(s: &Vec<char>, p: &Vec<char>, q: &Vec<char>) -> (r: Vec<char>)
    requires
        p@.len() > 0,
    ensures
        r@ == replace_first(s@, p@, q@),
{
    let mut out: Vec<char> = Vec::new();
    let mut i: usize = 0;
    while i < s.len()
        invariant
            p@.len() > 0,
            i <= s@.len(),
            out@ + replace_first_from(s@, p@, q@, i as int) == replace_first(s@, p@, q@),
        decreases s@.len() - i,
    {
        let ghost before = out@;
        if chars_occur_at(s, p, i) {
            let mut j: usize = 0;
            while j < q.len()
                invariant
                    j <= q@.len(),
                    out@ == before + q@.take(j as int),
                decreases q@.len() - j,
            {
                out.push(q[j]);
                proof {
                    assert(q@.take(j + 1) =~= q@.take(j as int).push(q@[j as int]));
                }
                j += 1;
            }
            let mut k: usize = i + p.len();
            while k < s.len()
                invariant
                    i + p@.len() <= k <= s@.len(),
                    out@ == before + q@ + s@.subrange(i + p@.len(), k as int),
                decreases s@.len() - k,
            {
                out.push(s[k]);
                proof {
                    assert(s@.subrange(i + p@.len(), k + 1) =~= s@.subrange(
                        i + p@.len(),
                        k as int,
                    ).push(s@[k as int]));
                }
                k += 1;
            }
            proof {
                assert(q@.take(q@.len() as int) =~= q@);
                assert(s@.subrange(i + p@.len(), s@.len() as int) =~= s@.skip(i + p@.len()));
                assert(before + (q@ + s@.skip(i + p@.len())) =~= out@);
            }
            return out;
        } else {
            out.push(s[i]);
            proof {
                assert(before + (seq![s@[i as int]] + replace_first_from(s@, p@, q@, i + 1))
                    =~= out@ + replace_first_from(s@, p@, q@, i + 1));
            }
            i = i + 1;
        }
    }
    proof {
        assert(out@ + Seq::<char>::empty() =~= out@);
    }
    out
}

/// Replacing a text by itself changes nothing.
pub proof fn lemma_replace_with_itself(s: Seq<char>, p: Seq<char>, i: int)
    requires
        p.len() > 0,
        0 <= i <= s.len(),
    ensures
        replace_from(s, p, p, i) == s.skip(i),
    decreases s.len() - i,
{
    if i >= s.len() {
        assert(s.skip(i) =~= Seq::<char>::empty());
    } else if occurs_at(s, p, i) {
        lemma_replace_with_itself(s, p, i + p.len());
        assert(s.skip(i) =~= s.subrange(i, i + p.len()) + s.skip(i + p.len()));
    } else {
        lemma_replace_with_itself(s, p, i + 1);
        assert(s.skip(i) =~= seq![s[i]] + s.skip(i + 1));
    }
}

/// Without an occurrence, replacing changes nothing.
pub proof fn lemma_no_match_no_change(s: Seq<char>, p: Seq<char>, q: Seq<char>, i: int)
    requires
        p.len() > 0,
        0 <= i <= s.len(),
        count_from(s, p, i) == 0,
    ensures
        replace_from(s, p, q, i) == s.skip(i),
        replace_first_from(s, p, q, i) == s.skip(i),
    decreases s.len() - i,
{
    if i >= s.len() {
        assert(s.skip(i) =~= Seq::<char>::empty());
    } else {
        lemma_no_match_no_change(s, p, q, i + 1);
        assert(s.skip(i) =~= seq![s[i]] + s.skip(i + 1));
    }
}

/// With exactly one occurrence, replacing all and replacing the first agree.
pub proof fn lemma_single_match_replacements_agree(s: Seq<char>, p: Seq<char>, q: Seq<char>, i: int)
    requires
        p.len() > 0,
        0 <= i <= s.len(),
        count_from(s, p, i) == 1,
    ensures
        replace_from(s, p, q, i) == replace_first_from(s, p, q, i),
    decreases s.len() - i,
{
    if i < s.len() {
        if occurs_at(s, p, i) {
            let j = i + p.len();
            if j <= s.len() {
                lemma_no_match_no_change(s, p, q, j);
            } else {
                assert(false);
            }
        } else {
            lemma_single_match_replacements_agree(s, p, q, i + 1);
        }
    }
}

} // verus!
