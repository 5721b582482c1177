//! Filesystem permission rules: which tool operations may touch which paths.

use vstd::prelude::*;
use crate::config::FilesystemPermission;
use crate::text::{
    chars_eq, chars_ends_with, chars_of, chars_starts_with, seq_ends_with, seq_starts_with,
};

verus! {

/// Whether a path pattern covers a path. A pattern ending in `/*` covers the
/// directory before it and everything below it; any other pattern covers
/// exactly itself.
pub open spec fn pattern_covers(pattern: Seq<char>, path: Seq<char>) -> bool {
    if seq_ends_with(pattern, seq!['/', '*']) {
        let prefix = pattern.take(pattern.len() - 2);
        path == prefix || seq_starts_with(path, prefix.push('/'))
    } else {
        path == pattern
    }
}

/// Whether a rule speaks of the operation and covers the path.
pub open spec fn rule_applies(rule: FilesystemPermission, op: Seq<char>, path: Seq<char>) -> bool {
    &&& exists|i: int| 0 <= i < rule.operations@.len() && (#[trigger] rule.operations@[i])@ == op
    &&& exists|j: int| 0 <= j < rule.paths@.len() && pattern_covers((#[trigger] rule.paths@[j])@, path)
}

/// Whether a rule's mode grants access.
pub open spec fn rule_allows(rule: FilesystemPermission) -> bool {
    rule.mode@ == "allow"@
}

/// The verdict of a rule list: the first rule that applies decides, by its
/// mode; when none applies, access is denied.
pub open spec fn verdict(rules: Seq<FilesystemPermission>, op: Seq<char>, path: Seq<char>) -> bool
    decreases rules.len(),
{
    if rules.len() == 0 {
        false
    } else if rule_applies(rules[0], op, path) {
        rule_allows(rules[0])
    } else {
        verdict(rules.drop_first(), op, path)
    }
}

/// Evaluates permission rules in order.
pub struct PermissionEvaluator {
    rules: Vec<FilesystemPermission>,
}

impl PermissionEvaluator {
    /// The rules, in the order they are consulted.
    pub closed spec fn rules(&self) -> Seq<FilesystemPermission> {
        self.rules@
    }

    /// An evaluator over `rules`, consulted in the given order.
    pub fn new(rules: Vec<FilesystemPermission>) -> (r: Self)
        ensures
            r.rules() == rules@,
    {
        PermissionEvaluator { rules }
    }

    /// Whether `operation` on `path` is allowed.
    pub fn check(&self, operation: &str, path: &str) -> (r: bool)
        ensures
            r == verdict(self.rules(), operation@, path@),
    {
        let op = chars_of(operation);
        let p = chars_of(path);
        let mut i: usize = 0;
        proof {
            assert(self.rules@.skip(0) =~= self.rules@);
        }
        while i < self.rules.len()
            invariant
                i <= self.rules@.len(),
                op@ == operation@,
                p@ == path@,
                verdict(self.rules@, op@, p@) == verdict(self.rules@.skip(i as int), op@, p@),
            decreases self.rules@.len() - i,
        {
            let rule = &self.rules[i];
            proof {
                assert(self.rules@.skip(i as int)[0] == *rule);
                assert(self.rules@.skip(i as int).drop_first() =~= self.rules@.skip(i + 1));
            }
            if rule_has_operation(rule, &op) && rule_covers_path(rule, &p) {
                return mode_is_allow(rule);
            }
            i += 1;
        }
        false
    }
}

fn rule_has_operation(rule: &FilesystemPermission, op: &Vec<char>) -> (r: bool)
    ensures
        r == exists|i: int|
            0 <= i < rule.operations@.len() && (#[trigger] rule.operations@[i])@ == op@,
{
    let mut i: usize = 0;
    while i < rule.operations.len()
        invariant
            i <= rule.operations@.len(),
            forall|k: int| 0 <= k < i ==> (#[trigger] rule.operations@[k])@ != op@,
        decreases rule.operations@.len() - i,
    {
        let name = chars_of(rule.operations[i].as_str());
        if chars_eq(&name, op) {
            return true;
        }
        i += 1;
    }
    false
}

fn rule_covers_path(rule: &FilesystemPermission, path: &Vec<char>) -> (r: bool)
    ensures
        r == exists|j: int|
            0 <= j < rule.paths@.len() && pattern_covers((#[trigger] rule.paths@[j])@, path@),
{
    let mut j: usize = 0;
    while j < rule.paths.len()
        invariant
            j <= rule.paths@.len(),
            forall|k: int| 0 <= k < j ==> !pattern_covers((#[trigger] rule.paths@[k])@, path@),
        decreases rule.paths@.len() - j,
    {
        let pat = chars_of(rule.paths[j].as_str());
        if covers(&pat, path) {
            return true;
        }
        j += 1;
    }
    false
}

/// Whether `pattern` covers `path` (see [`pattern_covers`]).
pub fn covers(pattern: &Vec<char>, path: &Vec<char>) -> (r: bool)
    ensures
        r == pattern_covers(pattern@, path@),
{
    let star = vec!['/', '*'];
    proof {
        assert(star@ =~= seq!['/', '*']);
    }
    if chars_ends_with(pattern, &star) {
        let mut prefix: Vec<char> = Vec::new();
        let mut k: usize = 0;
        while k < pattern.len() - 2
            invariant
                pattern@.len() >= 2,
                k <= pattern@.len() - 2,
                prefix@ == pattern@.take(k as int),
            decreases pattern@.len() - 2 - k,
        {
            prefix.push(pattern[k]);
            proof {
                assert(pattern@.take(k + 1) =~= pattern@.take(k as int).push(pattern@[k as int]));
            }
            k += 1;
        }
        if chars_eq(path, &prefix) {
            return true;
        }
        prefix.push('/');
        chars_starts_with(path, &prefix)
    } else {
        chars_eq(path, pattern)
    }
}

fn mode_is_allow(rule: &FilesystemPermission) -> (r: bool)
    ensures
        r == rule_allows(*rule),
{
    let mode = chars_of(rule.mode.as_str());
    let allow = chars_of("allow");
    chars_eq(&mode, &allow)
}

/// With no rules, every access is denied.
pub proof fn lemma_no_rules_denies(op: Seq<char>, path: Seq<char>)
    ensures
        !verdict(Seq::empty(), op, path),
{
}

/// The first applicable rule decides: rules placed after it never change the
/// verdict, whatever they say.
pub proof fn lemma_first_applicable_rule_decides(
    rules: Seq<FilesystemPermission>,
    later: Seq<FilesystemPermission>,
    op: Seq<char>,
    path: Seq<char>,
)
    requires
        exists|i: int| 0 <= i < rules.len() && rule_applies(#[trigger] rules[i], op, path),
    ensures
        verdict(rules + later, op, path) == verdict(rules, op, path),
    decreases rules.len(),
{
    if rule_applies(rules[0], op, path) {
        assert((rules + later)[0] == rules[0]);
    } else {
        let i = choose|i: int| 0 <= i < rules.len() && rule_applies(#[trigger] rules[i], op, path);
        assert(rules.drop_first()[i - 1] == rules[i]);
        lemma_first_applicable_rule_decides(rules.drop_first(), later, op, path);
        assert((rules + later).drop_first() =~= rules.drop_first() + later);
    }
}

/// Rules that do not apply to an access are transparent: appending rules
/// after them is the same as consulting the appended rules alone.
pub proof fn lemma_inapplicable_rules_are_transparent(
    rules: Seq<FilesystemPermission>,
    later: Seq<FilesystemPermission>,
    op: Seq<char>,
    path: Seq<char>,
)
    requires
        forall|i: int| 0 <= i < rules.len() ==> !rule_applies(#[trigger] rules[i], op, path),
    ensures
        verdict(rules + later, op, path) == verdict(later, op, path),
    decreases rules.len(),
{
    if rules.len() == 0 {
        assert(rules + later =~= later);
    } else {
        assert(rules.drop_first().len() < rules.len());
        assert forall|i: int| 0 <= i < rules.drop_first().len() implies !rule_applies(
            #[trigger] rules.drop_first()[i],
            op,
            path,
        ) by {
            assert(rules.drop_first()[i] == rules[i + 1]);
        }
        lemma_inapplicable_rules_are_transparent(rules.drop_first(), later, op, path);
        assert((rules + later).drop_first() =~= rules.drop_first() + later);
        assert((rules + later)[0] == rules[0]);
    }
}

/// Access is granted only when some rule that applies to it allows it.
pub proof fn lemma_granted_only_by_an_allow_rule(
    rules: Seq<FilesystemPermission>,
    op: Seq<char>,
    path: Seq<char>,
)
    requires
        verdict(rules, op, path),
    ensures
        exists|i: int|
            0 <= i < rules.len() && rule_applies(#[trigger] rules[i], op, path) && rule_allows(
                rules[i],
            ),
    decreases rules.len(),
{
    if rule_applies(rules[0], op, path) {
        assert(rule_applies(rules[0], op, path) && rule_allows(rules[0]));
    } else {
        lemma_granted_only_by_an_allow_rule(rules.drop_first(), op, path);
        let i = choose|i: int|
            0 <= i < rules.drop_first().len() && rule_applies(
                #[trigger] rules.drop_first()[i],
                op,
                path,
            ) && rule_allows(rules.drop_first()[i]);
        assert(rules[i + 1] == rules.drop_first()[i]);
    }
}

/// A pattern `dir/*` covers `dir` itself and every path below `dir/`.
pub proof fn lemma_prefix_pattern_covers_subtree(dir: Seq<char>, rest: Seq<char>)
    ensures
        pattern_covers(dir + seq!['/', '*'], dir),
        pattern_covers(dir + seq!['/', '*'], dir + seq!['/'] + rest),
{
    let pat = dir + seq!['/', '*'];
    assert(pat.skip(pat.len() - 2) =~= seq!['/', '*']);
    assert(pat.take(pat.len() - 2) =~= dir);
    let p = dir + seq!['/'] + rest;
    assert(p.take(dir.len() + 1int) =~= dir.push('/'));
}

} // verus!
