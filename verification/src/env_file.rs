//! The `.env` file: `KEY=value` lines that set environment variables.

use vstd::prelude::*;
use crate::text::{chars_of, lines, lines_of, string_of, trim, trim_chars, views};

verus! {

/// The position of the first `c` in `s`, if any.
pub open spec fn first_position(s: Seq<char>, c: char) -> Option<nat>
    decreases s.len(),
{
    if s.len() == 0 {
        None
    } else if s[0] == c {
        Some(0)
    } else {
        match first_position(s.drop_first(), c) {
            Some(i) => Some(i + 1),
            None => None,
        }
    }
}

/// `v` without one pair of matching double or single quotes around it.
pub open spec fn unquote(v: Seq<char>) -> Seq<char> {
    if v.len() >= 2 && ((v[0] == '"' && v.last() == '"') || (v[0] == '\'' && v.last() == '\'')) {
        v.subrange(1, v.len() - 1)
    } else {
        v
    }
}

/// The assignment a line makes: blank lines, comments (`#`), lines without
/// `=` and lines with an empty name make none; otherwise the name is the
/// trimmed text before the first `=` and the value the trimmed text after
/// it, without surrounding quotes.
pub open spec fn env_line(line: Seq<char>) -> Option<(Seq<char>, Seq<char>)> {
    let t = trim(line);
    if t.len() == 0 || t[0] == '#' {
        None
    } else {
        match first_position(t, '=') {
            Some(i) => {
                let key = trim(t.take(i as int));
                if key.len() == 0 {
                    None
                } else {
                    Some((key, unquote(trim(t.skip(i as int + 1)))))
                }
            },
            None => None,
        }
    }
}

/// The assignments of the lines, in order.
pub open spec fn env_assignments(ls: Seq<Seq<char>>) -> Seq<(Seq<char>, Seq<char>)>
    decreases ls.len(),
{
    if ls.len() == 0 {
        Seq::empty()
    } else {
        let rest = env_assignments(ls.drop_last());
        match env_line(ls.last()) {
            Some(a) => rest.push(a),
            None => rest,
        }
    }
}

/// The views of name and value pairs.
pub open spec fn pair_views(v: Seq<(String, String)>) -> Seq<(Seq<char>, Seq<char>)> {
    v.map_values(|p: (String, String)| (p.0@, p.1@))
}

fn position_of(s: &Vec<char>, c: char) -> (r: Option<usize>)
    ensures
        match r {
            Some(i) => first_position(s@, c) == Some(i as nat) && i < s@.len(),
            None => first_position(s@, c) is None,
        },
{
    let mut i: usize = 0;
    proof {
        assert(s@.skip(0) =~= s@);
    }
    while i < s.len()
        invariant
            i <= s@.len(),
            match first_position(s@.skip(i as int), c) {
                Some(k) => first_position(s@, c) == Some((k + i) as nat),
                None => first_position(s@, c) is None,
            },
        decreases s@.len() - i,
    {
        proof {
            assert(s@.skip(i as int)[0] == s@[i as int]);
            assert(s@.skip(i as int).drop_first() =~= s@.skip(i + 1));
        }
        if s[i] == c {
            return Some(i);
        }
        i += 1;
    }
    None
}

fn unquote_chars(v: Vec<char>) -> (r: Vec<char>)
    ensures
        r@ == unquote(v@),
{
    let n = v.len();
    if n >= 2 && ((v[0] == '"' && v[n - 1] == '"') || (v[0] == '\'' && v[n - 1] == '\'')) {
        let mut r: Vec<char> = Vec::new();
        let mut k: usize = 1;
        while k < n - 1
            invariant
                n == v@.len(),
                n >= 2,
                1 <= k <= n - 1,
                r@ == v@.subrange(1, k as int),
            decreases n - 1 - k,
        {
            r.push(v[k]);
            proof {
                assert(v@.subrange(1, k + 1) =~= v@.subrange(1, k as int).push(v@[k as int]));
            }
            k += 1;
        }
        r
    } else {
        v
    }
}

fn slice_chars(v: &Vec<char>, from: usize, to: usize) -> (r: Vec<char>)
    requires
        from <= to <= v@.len(),
    ensures
        r@ == v@.subrange(from as int, to as int),
{
    let mut r: Vec<char> = Vec::new();
    let mut k: usize = from;
    while k < to
        invariant
            from <= k <= to <= v@.len(),
            r@ == v@.subrange(from as int, k as int),
        decreases to - k,
    {
        r.push(v[k]);
        proof {
            assert(v@.subrange(from as int, k + 1) =~= v@.subrange(from as int, k as int).push(v@[k as int]));
        }
        k += 1;
    }
    r
}

/// The assignment of one line (see [`env_line`]).
pub fn parse_env_line(line: &str) -> (r: Option<(String, String)>)
    ensures
        match env_line(line@) {
            Some((k, v)) => r matches Some(p) && p.0@ == k && p.1@ == v,
            None => r is None,
        },
{
    let t = trim_chars(&chars_of(line));
    if t.len() == 0 || t[0] == '#' {
        return None;
    }
    match position_of(&t, '=') {
        Some(i) => {
            let key = trim_chars(&slice_chars(&t, 0, i));
            proof {
                assert(t@.subrange(0, i as int) =~= t@.take(i as int));
            }
            if key.len() == 0 {
                return None;
            }
            let value = unquote_chars(trim_chars(&slice_chars(&t, i + 1, t.len())));
            proof {
                assert(t@.subrange(i + 1, t@.len() as int) =~= t@.skip(i + 1));
            }
            Some((string_of(&key), string_of(&value)))
        },
        None => None,
    }
}

/// The assignments of a `.env` file, in order.
pub fn parse_env_file(text: &str) -> (r: Vec<(String, String)>)
    ensures
        pair_views(r@) == env_assignments(lines(text@)),
{
    let ls = lines_of(text);
    let mut r: Vec<(String, String)> = Vec::new();
    let mut i: usize = 0;
    while i < ls.len()
        invariant
            i <= ls@.len(),
            views(ls@) == lines(text@),
            pair_views(r@) == env_assignments(views(ls@).take(i as int)),
        decreases ls@.len() - i,
    {
        proof {
            assert(views(ls@).take(i + 1).drop_last() =~= views(ls@).take(i as int));
            assert(views(ls@).take(i + 1).last() == ls@[i as int]@);
        }
        let ghost before = r@;
        match parse_env_line(ls[i].as_str()) {
            Some(p) => {
                let ghost pv = (p.0@, p.1@);
                r.push(p);
                proof {
                    assert(pair_views(r@) =~= pair_views(before).push(pv));
                }
            },
            None => {},
        }
        i += 1;
    }
    proof {
        assert(views(ls@).take(ls@.len() as int) =~= views(ls@));
    }
    r
}

} // verus!
