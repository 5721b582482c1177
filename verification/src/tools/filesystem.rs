//! The file-system tools: `ls`, `read_file`, `write_file`, `edit_file`, `glob`
//! and `grep`. Each decides its arguments, the path it touches and its answer;
//! the caller performs the reads, writes and directory walks.

use vstd::prelude::*;
use crate::json::{field_bool, field_str, field_u64, get_bool, get_str, get_u64, Json, JsonView};
use crate::text::{
    cat, cat3, chars_of, dec, fmt_u64, join, join_strings, lines, lines_of, owned, push_char,
    seq_le, sort_strings, sorted, views,
};
use crate::tools::edit::{
    count_matches, count_occurrences, replace_all, replace_all_chars, replace_first,
    replace_first_chars,
};
use crate::tools::ToolOutput;
use crate::text::string_of;

verus! {

/// The path that `input` names relative to `working_dir`, as
/// `working_dir.join(input)` forms it on Unix: an absolute `input` stands for
/// itself; otherwise it is appended, after a `/` unless `working_dir` is empty
/// or already ends with one.
pub open spec fn resolved(working_dir: Seq<char>, input: Seq<char>) -> Seq<char> {
    if input.len() > 0 && input[0] == '/' {
        input
    } else if working_dir.len() == 0 || working_dir.last() == '/' {
        working_dir + input
    } else {
        working_dir + seq!['/'] + input
    }
}

/// `input` resolved against `working_dir` (see [`resolved`]).
pub fn resolve_path(working_dir: &str, input: &str) -> (r: String)
    ensures
        r@ == resolved(working_dir@, input@),
{
    let i = chars_of(input);
    if i.len() > 0 && i[0] == '/' {
        return owned(input);
    }
    let w = chars_of(working_dir);
    if w.len() == 0 || w[w.len() - 1] == '/' {
        cat(working_dir, input)
    } else {
        proof {
            reveal_strlit("/");
        }
        cat3(working_dir, "/", input)
    }
}

/// The string argument `key`, or `default` when it is missing or not a string.
pub open spec fn str_arg(args: JsonView, key: Seq<char>, default: Seq<char>) -> Seq<char> {
    match field_str(args, key) {
        Some(s) => s,
        None => default,
    }
}

fn str_arg_or(args: &Json, key: &str, default: &str) -> (r: String)
    ensures
        r@ == str_arg(args@, key@, default@),
{
    match get_str(args, key) {
        Some(s) => owned(s),
        None => owned(default),
    }
}

fn error_output(prefix: &str, error: &str) -> (r: ToolOutput)
    ensures
        r.content@ == prefix@ + error@,
        r.is_error,
{
    ToolOutput { content: cat(prefix, error), is_error: true }
}

/// Lists a directory.
pub struct LsTool {
    pub working_dir: String,
}

impl LsTool {
    /// The directory to list: the `path` argument (default `.`), resolved.
    pub fn target(&self, args: &Json) -> (r: String)
        ensures
            r@ == resolved(self.working_dir@, str_arg(args@, "path"@, "."@)),
    {
        let p = str_arg_or(args, "path", ".");
        resolve_path(self.working_dir.as_str(), p.as_str())
    }

    /// The answer for the entry names of the directory: sorted, one per line.
    pub fn listing(names: Vec<String>) -> (r: ToolOutput)
        ensures
            !r.is_error,
            exists|order: Seq<Seq<char>>|
                sorted(order) && order.to_multiset() == views(names@).to_multiset() && r.content@
                    == join(order, "\n"@),
    {
        let ghost all = views(names@);
        let ordered = sort_strings(names);
        let content = join_strings(&ordered, "\n");
        proof {
            assert(sorted(views(ordered@)) && views(ordered@).to_multiset() == all.to_multiset()
                && content@ == join(views(ordered@), "\n"@));
        }
        ToolOutput { content, is_error: false }
    }

    /// The answer when the directory cannot be read.
    pub fn failure(error: &str) -> (r: ToolOutput)
        ensures
            r.content@ == "Error listing directory: "@ + error@,
            r.is_error,
    {
        error_output("Error listing directory: ", error)
    }
}

/// What `read_file` is asked to read.
pub struct ReadRequest {
    pub path: String,
    pub offset: u64,
    pub limit: u64,
}

/// The page of `lines` from `offset`, at most `limit` lines.
pub open spec fn page(all: Seq<Seq<char>>, offset: nat, limit: nat) -> Seq<Seq<char>> {
    let rest = if offset < all.len() { all.skip(offset as int) } else { Seq::empty() };
    if limit < rest.len() { rest.take(limit as int) } else { rest }
}

/// The answer for a page of a file: a header `Lines a-b of n`, then the lines.
pub open spec fn page_text(content: Seq<char>, offset: nat, limit: nat) -> Seq<char> {
    let all = lines(content);
    let sel = page(all, offset, limit);
    let end = offset + sel.len();
    let last = if end >= 1 { (end - 1) as nat } else { 0 };
    "Lines "@ + dec(offset) + "-"@ + dec(last) + " of "@ + dec(all.len()) + "\n"@ + join(sel, "\n"@)
}

/// Reads a file by pages of lines.
pub struct ReadFileTool {
    pub working_dir: String,
}

impl ReadFileTool {
    /// The file and page asked for: `file_path` (default empty) resolved,
    /// `offset` (default 0) and `limit` (default 100).
    pub fn request(&self, args: &Json) -> (r: ReadRequest)
        ensures
            r.path@ == resolved(self.working_dir@, str_arg(args@, "file_path"@, ""@)),
            r.offset as nat == match field_u64(args@, "offset"@) {
                Some(n) => n,
                None => 0,
            },
            r.limit as nat == match field_u64(args@, "limit"@) {
                Some(n) => n,
                None => 100,
            },
    {
        let p = str_arg_or(args, "file_path", "");
        let offset = match get_u64(args, "offset") {
            Some(n) => n,
            None => 0,
        };
        let limit = match get_u64(args, "limit") {
            Some(n) => n,
            None => 100,
        };
        ReadRequest { path: resolve_path(self.working_dir.as_str(), p.as_str()), offset, limit }
    }

    /// The answer for the file's content.
    pub fn page(content: &str, offset: u64, limit: u64) -> (r: ToolOutput)
        ensures
            r.content@ == page_text(content@, offset as nat, limit as nat),
            !r.is_error,
    {
        let all = lines_of(content);
        let total = all.len();
        let mut selected: Vec<String> = Vec::new();
        let ghost sel = page(views(all@), offset as nat, limit as nat);
        if (offset as u128) < (total as u128) {
            let start = offset as usize;
            let mut i: usize = start;
            while i < total && ((i - start) as u64) < limit
                invariant
                    start <= i <= total,
                    total == all@.len(),
                    start == offset,
                    i - start <= limit,
                    views(selected@) == views(all@).subrange(start as int, i as int),
                decreases total - i,
            {
                let ghost before = selected@;
                selected.push(owned(all[i].as_str()));
                proof {
                    assert(views(selected@) =~= views(before).push(all@[i as int]@));
                    assert(views(selected@) =~= views(all@).subrange(start as int, i + 1));
                }
                i += 1;
            }
            proof {
                let rest = views(all@).skip(offset as int);
                if (limit as nat) < rest.len() {
                    assert(views(selected@) =~= rest.take(limit as int));
                } else {
                    assert(views(selected@) =~= rest);
                }
            }
        } else {
            proof {
                assert(views(selected@) =~= sel);
            }
        }
        let end: u64 = offset + selected.len() as u64;
        let last: u64 = if end >= 1 { end - 1 } else { 0 };
        let mut text = owned("Lines ");
        text.append(fmt_u64(offset).as_str());
        text.append("-");
        text.append(fmt_u64(last).as_str());
        text.append(" of ");
        text.append(fmt_u64(total as u64).as_str());
        text.append("\n");
        text.append(join_strings(&selected, "\n").as_str());
        ToolOutput { content: text, is_error: false }
    }

    /// The answer when the file cannot be read.
    pub fn failure(error: &str) -> (r: ToolOutput)
        ensures
            r.content@ == "Error reading file: "@ + error@,
            r.is_error,
    {
        error_output("Error reading file: ", error)
    }
}

/// What `write_file` is asked to write.
pub struct WriteRequest {
    pub path: String,
    pub file_path: String,
    pub content: String,
}

/// Writes a file, creating its parent directories.
pub struct WriteFileTool {
    pub working_dir: String,
}

impl WriteFileTool {
    /// The target and content: `file_path` and `content` (both default empty).
    pub fn request(&self, args: &Json) -> (r: WriteRequest)
        ensures
            r.file_path@ == str_arg(args@, "file_path"@, ""@),
            r.path@ == resolved(self.working_dir@, r.file_path@),
            r.content@ == str_arg(args@, "content"@, ""@),
    {
        let file_path = str_arg_or(args, "file_path", "");
        let content = str_arg_or(args, "content", "");
        let path = resolve_path(self.working_dir.as_str(), file_path.as_str());
        WriteRequest { path, file_path, content }
    }

    /// The answer once the file is written.
    pub fn written(file_path: &str) -> (r: ToolOutput)
        ensures
            r.content@ == "Successfully wrote to "@ + file_path@,
            !r.is_error,
    {
        ToolOutput { content: cat("Successfully wrote to ", file_path), is_error: false }
    }

    /// The answer when the parent directories cannot be created.
    pub fn directory_failure(error: &str) -> (r: ToolOutput)
        ensures
            r.content@ == "Error creating directories: "@ + error@,
            r.is_error,
    {
        error_output("Error creating directories: ", error)
    }

    /// The answer when the file cannot be written.
    pub fn write_failure(error: &str) -> (r: ToolOutput)
        ensures
            r.content@ == "Error writing file: "@ + error@,
            r.is_error,
    {
        error_output("Error writing file: ", error)
    }
}

/// What `edit_file` is asked to replace.
pub struct EditRequest {
    pub path: String,
    pub file_path: String,
    pub old_string: String,
    pub new_string: String,
    pub replace_all: bool,
}

/// The outcome of an edit on a file's content: the new content and the
/// number of occurrences, or the answer that refuses the edit.
pub open spec fn edit_result(content: Seq<char>, old: Seq<char>, new: Seq<char>, all: bool) -> Result<
    (Seq<char>, nat),
    Seq<char>,
> {
    let count = count_matches(content, old);
    if count == 0 {
        Err("No occurrences found"@)
    } else if !all && count > 1 {
        Err("Found "@ + dec(count) + " occurrences. Use replace_all=true to replace all."@)
    } else if all {
        Ok((replace_all(content, old, new), count))
    } else {
        Ok((replace_first(content, old, new), count))
    }
}

/// Replaces text in a file.
pub struct EditFileTool {
    pub working_dir: String,
}

impl EditFileTool {
    /// The edit asked for: `file_path`, `old_string`, `new_string` (default
    /// empty) and `replace_all` (default no). An empty `old_string` is refused.
    pub fn request(&self, args: &Json) -> (r: Result<EditRequest, ToolOutput>)
        ensures
            str_arg(args@, "old_string"@, ""@).len() == 0 <==> r is Err,
            r matches Err(o) ==> o.content@ == "old_string must not be empty"@ && o.is_error,
            r matches Ok(q) ==> {
                &&& q.file_path@ == str_arg(args@, "file_path"@, ""@)
                &&& q.path@ == resolved(self.working_dir@, q.file_path@)
                &&& q.old_string@ == str_arg(args@, "old_string"@, ""@)
                &&& q.new_string@ == str_arg(args@, "new_string"@, ""@)
                &&& q.replace_all == match field_bool(args@, "replace_all"@) {
                    Some(b) => b,
                    None => false,
                }
            },
    {
        let file_path = str_arg_or(args, "file_path", "");
        let old_string = str_arg_or(args, "old_string", "");
        let new_string = str_arg_or(args, "new_string", "");
        let replace_all = match get_bool(args, "replace_all") {
            Some(b) => b,
            None => false,
        };
        if old_string.as_str().is_empty() {
            return Err(
                ToolOutput { content: owned("old_string must not be empty"), is_error: true },
            );
        }
        let path = resolve_path(self.working_dir.as_str(), file_path.as_str());
        Ok(EditRequest { path, file_path, old_string, new_string, replace_all })
    }

    /// Applies the edit to the file's content (see [`edit_result`]).
    pub fn apply(request: &EditRequest, content: &str) -> (r: Result<(String, usize), ToolOutput>)
        requires
            request.old_string@.len() > 0,
        ensures
            match edit_result(
                content@,
                request.old_string@,
                request.new_string@,
                request.replace_all,
            ) {
                Ok((text, n)) => r matches Ok((t, k)) && t@ == text && k as nat == n,
                Err(m) => r matches Err(o) && o.content@ == m && o.is_error,
            },
    {
        let s = chars_of(content);
        let p = chars_of(request.old_string.as_str());
        let q = chars_of(request.new_string.as_str());
        let count = count_occurrences(&s, &p);
        if count == 0 {
            return Err(ToolOutput { content: owned("No occurrences found"), is_error: true });
        }
        if !request.replace_all && count > 1 {
            let m = cat3(
                "Found ",
                fmt_u64(count as u64).as_str(),
                " occurrences. Use replace_all=true to replace all.",
            );
            return Err(ToolOutput { content: m, is_error: true });
        }
        let out = if request.replace_all {
            replace_all_chars(&s, &p, &q)
        } else {
            replace_first_chars(&s, &p, &q)
        };
        Ok((string_of(&out), count))
    }

    /// The answer once the edited content is written.
    pub fn edited(request: &EditRequest, count: usize) -> (r: ToolOutput)
        ensures
            r.content@ == "Replaced "@ + dec(count as nat) + " occurrence(s) in "@
                + request.file_path@,
            !r.is_error,
    {
        let mut m = cat3("Replaced ", fmt_u64(count as u64).as_str(), " occurrence(s) in ");
        m.append(request.file_path.as_str());
        ToolOutput { content: m, is_error: false }
    }

    /// The answer when the file cannot be read.
    pub fn read_failure(error: &str) -> (r: ToolOutput)
        ensures
            r.content@ == "Error reading file: "@ + error@,
            r.is_error,
    {
        error_output("Error reading file: ", error)
    }

    /// The answer when the file cannot be written.
    pub fn write_failure(error: &str) -> (r: ToolOutput)
        ensures
            r.content@ == "Error writing file: "@ + error@,
            r.is_error,
    {
        error_output("Error writing file: ", error)
    }
}

/// The answer listing search results, one per line, or `No matches found`.
pub open spec fn results_text(results: Seq<Seq<char>>) -> Seq<char> {
    if results.len() == 0 {
        "No matches found"@
    } else {
        join(results, "\n"@)
    }
}

fn results_output(results: &Vec<String>) -> (r: ToolOutput)
    ensures
        r.content@ == results_text(views(results@)),
        !r.is_error,
{
    if results.len() == 0 {
        ToolOutput { content: owned("No matches found"), is_error: false }
    } else {
        ToolOutput { content: join_strings(results, "\n"), is_error: false }
    }
}

/// Finds files by glob pattern.
pub struct GlobTool {
    pub working_dir: String,
}

impl GlobTool {
    /// The pattern to expand: the `pattern` argument (default empty) when it is
    /// absolute, else joined to the `path` argument (default `/`), resolved.
    pub fn full_pattern(&self, args: &Json) -> (r: String)
        ensures
            ({
                let pattern = str_arg(args@, "pattern"@, ""@);
                let base = resolved(self.working_dir@, str_arg(args@, "path"@, "/"@));
                r@ == if pattern.len() > 0 && pattern[0] == '/' {
                    pattern
                } else {
                    resolved(base, pattern)
                }
            }),
    {
        let pattern = str_arg_or(args, "pattern", "");
        let base_path = str_arg_or(args, "path", "/");
        let base = resolve_path(self.working_dir.as_str(), base_path.as_str());
        let pc = chars_of(pattern.as_str());
        if pc.len() > 0 && pc[0] == '/' {
            pattern
        } else {
            resolve_path(base.as_str(), pattern.as_str())
        }
    }

    /// The answer for the matching paths.
    pub fn matches(results: &Vec<String>) -> (r: ToolOutput)
        ensures
            r.content@ == results_text(views(results@)),
            !r.is_error,
    {
        results_output(results)
    }

    /// The answer for a pattern that does not parse.
    pub fn invalid_pattern(error: &str) -> (r: ToolOutput)
        ensures
            r.content@ == "Invalid glob pattern: "@ + error@,
            r.is_error,
    {
        error_output("Invalid glob pattern: ", error)
    }
}

/// The outside type `regex::Regex`.
#[verifier::external_type_specification]
#[verifier::external_body]
pub struct ExRegex(regex::Regex);

/// The outside type `glob::Pattern`.
#[verifier::external_type_specification]
#[verifier::external_body]
pub struct ExGlobPattern(glob::Pattern);

/// What `regex::Regex::new` yields for a pattern: `None` when it compiles,
/// else the text of its error.
pub uninterp spec fn regex_new_error(pattern: Seq<char>) -> Option<Seq<char>>;

/// What `regex::Regex::is_match` answers for a pattern and a haystack.
pub uninterp spec fn regex_is_match(pattern: Seq<char>, haystack: Seq<char>) -> bool;

/// Whether `glob::Pattern::new` accepts a pattern.
pub uninterp spec fn glob_pattern_valid(pattern: Seq<char>) -> bool;

/// What `glob::Pattern::matches` answers for a pattern and a text.
pub uninterp spec fn glob_pattern_matches(pattern: Seq<char>, text: Seq<char>) -> bool;

/// A compiled regular expression with the pattern it was compiled from.
pub struct RegexMatcher {
    pattern: String,
    re: regex::Regex,
}

impl RegexMatcher {
    /// The pattern the expression was compiled from.
    pub closed spec fn pattern(&self) -> Seq<char> {
        self.pattern@
    }
}

/// Compiles `pattern` with `regex::Regex::new`; the error is its display text.
/// Success, and the error text, are named by [`regex_new_error`] of the
/// pattern.
#[verifier::external_body]
fn compile_regex(pattern: &str) -> (r: Result<RegexMatcher, String>)
    ensures
        match r {
            Ok(m) => regex_new_error(pattern@) is None && m.pattern() == pattern@,
            Err(e) => regex_new_error(pattern@) == Some(e@),
        },
{
    match regex::Regex::new(pattern) {
        Ok(re) => Ok(RegexMatcher { pattern: pattern.to_string(), re }),
        Err(e) => Err(e.to_string()),
    }
}

/// `regex::Regex::is_match` on the compiled expression; its answer is named by
/// [`regex_is_match`] of the pattern and the haystack.
#[verifier::external_body]
fn matcher_is_match(m: &RegexMatcher, haystack: &str) -> (r: bool)
    ensures
        r == regex_is_match(m.pattern(), haystack@),
{
    m.re.is_match(haystack)
}

/// A compiled glob pattern with the text it was compiled from.
pub struct GlobMatcher {
    pattern: String,
    inner: glob::Pattern,
}

impl GlobMatcher {
    /// The pattern text.
    pub closed spec fn pattern(&self) -> Seq<char> {
        self.pattern@
    }
}

/// Compiles `pattern` with `glob::Pattern::new`; whether it succeeds is named
/// by [`glob_pattern_valid`] of the pattern.
#[verifier::external_body]
fn compile_glob(pattern: &str) -> (r: Option<GlobMatcher>)
    ensures
        r is Some <==> glob_pattern_valid(pattern@),
        r matches Some(g) ==> g.pattern() == pattern@,
{
    match glob::Pattern::new(pattern) {
        Ok(inner) => Some(GlobMatcher { pattern: pattern.to_string(), inner }),
        Err(_) => None,
    }
}

/// `glob::Pattern::matches`; its answer is named by [`glob_pattern_matches`].
#[verifier::external_body]
fn glob_matcher_matches(g: &GlobMatcher, text: &str) -> (r: bool)
    ensures
        r == glob_pattern_matches(g.pattern(), text@),
{
    g.inner.matches(text)
}

/// What `grep` is asked to search.
pub struct GrepRequest {
    pub pattern: String,
    pub search_path: String,
    pub glob: Option<String>,
}

/// The result lines `path:n: line` of the lines of `content` that match.
pub open spec fn grep_lines(path: Seq<char>, pattern: Seq<char>, ls: Seq<Seq<char>>) -> Seq<Seq<char>>
    decreases ls.len(),
{
    if ls.len() == 0 {
        Seq::empty()
    } else {
        let rest = grep_lines(path, pattern, ls.drop_last());
        if regex_is_match(pattern, ls.last()) {
            rest.push(path + ":"@ + dec(ls.len()) + ": "@ + ls.last())
        } else {
            rest
        }
    }
}

/// Searches file contents by regular expression.
pub struct GrepTool {
    pub working_dir: String,
}

impl GrepTool {
    /// The search asked for: `pattern` (default empty), `path` (default `.`)
    /// resolved, and the optional `glob` file filter.
    pub fn request(&self, args: &Json) -> (r: GrepRequest)
        ensures
            r.pattern@ == str_arg(args@, "pattern"@, ""@),
            r.search_path@ == resolved(self.working_dir@, str_arg(args@, "path"@, "."@)),
            match field_str(args@, "glob"@) {
                Some(g) => r.glob matches Some(x) && x@ == g,
                None => r.glob is None,
            },
    {
        let pattern = str_arg_or(args, "pattern", "");
        let p = str_arg_or(args, "path", ".");
        let glob = match get_str(args, "glob") {
            Some(g) => Some(owned(g)),
            None => None,
        };
        GrepRequest { pattern, search_path: resolve_path(self.working_dir.as_str(), p.as_str()), glob }
    }

    /// The search expression compiled from `pattern`, or the answer that
    /// refuses a pattern that does not compile.
    pub fn compile(pattern: &str) -> (r: Result<RegexMatcher, ToolOutput>)
        ensures
            match r {
                Ok(m) => regex_new_error(pattern@) is None && m.pattern() == pattern@,
                Err(o) => regex_new_error(pattern@) matches Some(e) && o.content@ == "Invalid regex: "@
                    + e && o.is_error,
            },
    {
        match compile_regex(pattern) {
            Ok(m) => Ok(m),
            Err(e) => Err(Self::invalid_regex(e.as_str())),
        }
    }

    /// The answer for a pattern that does not compile.
    pub fn invalid_regex(error: &str) -> (r: ToolOutput)
        ensures
            r.content@ == "Invalid regex: "@ + error@,
            r.is_error,
    {
        error_output("Invalid regex: ", error)
    }

    /// The answer when the search path is neither a file nor a directory.
    pub fn not_found(display: &str) -> (r: ToolOutput)
        ensures
            r.content@ == "Path not found: "@ + display@,
            r.is_error,
    {
        error_output("Path not found: ", display)
    }

    /// Whether a file in a searched directory is searched: always without a
    /// filter; with one, when the filter is a valid glob pattern matching the
    /// file's name.
    pub fn file_selected(filter: &Option<String>, name: &str) -> (r: bool)
        ensures
            match filter {
                None => r,
                Some(g) => r == (glob_pattern_valid(g@) && glob_pattern_matches(g@, name@)),
            },
    {
        match filter {
            None => true,
            Some(g) => match compile_glob(g.as_str()) {
                Some(m) => glob_matcher_matches(&m, name),
                None => false,
            },
        }
    }

    /// Appends to `results` a line `display:n: line` for each line of the
    /// file's `content` (numbered from 1) that the expression matches.
    pub fn search_content(
        display: &str,
        content: &str,
        re: &RegexMatcher,
        results: &mut Vec<String>,
    )
        ensures
            views(final(results)@) == views(old(results)@) + grep_lines(
                display@,
                re.pattern(),
                lines(content@),
            ),
    {
        let ls = lines_of(content);
        let ghost start = views(results@);
        let mut i: usize = 0;
        while i < ls.len()
            invariant
                i <= ls@.len(),
                views(results@) == start + grep_lines(display@, re.pattern(), views(ls@).take(
                    i as int,
                )),
            decreases ls@.len() - i,
        {
            proof {
                assert(views(ls@).take(i + 1).drop_last() =~= views(ls@).take(i as int));
                assert(views(ls@).take(i + 1).last() == ls@[i as int]@);
            }
            let ghost before = results@;
            if matcher_is_match(re, ls[i].as_str()) {
                let mut line = cat(display, ":");
                line.append(fmt_u64(i as u64 + 1).as_str());
                line.append(": ");
                line.append(ls[i].as_str());
                results.push(line);
                proof {
                    assert(views(results@) =~= views(before).push(line@));
                }
            }
            i += 1;
        }
        proof {
            assert(views(ls@).take(ls@.len() as int) =~= views(ls@));
        }
    }

    /// The answer for the collected result lines.
    pub fn finish(results: &Vec<String>) -> (r: ToolOutput)
        ensures
            r.content@ == results_text(views(results@)),
            !r.is_error,
    {
        results_output(results)
    }
}

/// One of the file-system tools.
pub enum FilesystemTool {
    Ls(LsTool),
    ReadFile(ReadFileTool),
    WriteFile(WriteFileTool),
    EditFile(EditFileTool),
    Glob(GlobTool),
    Grep(GrepTool),
}

/// The file-system tools, all rooted at `working_dir`, in the order `ls`,
/// `read_file`, `write_file`, `edit_file`, `glob`, `grep`.
pub fn create_filesystem_tools(working_dir: &str) -> (r: Vec<FilesystemTool>)
    ensures
        r@.len() == 6,
        r@[0] matches FilesystemTool::Ls(t) && t.working_dir@ == working_dir@,
        r@[1] matches FilesystemTool::ReadFile(t) && t.working_dir@ == working_dir@,
        r@[2] matches FilesystemTool::WriteFile(t) && t.working_dir@ == working_dir@,
        r@[3] matches FilesystemTool::EditFile(t) && t.working_dir@ == working_dir@,
        r@[4] matches FilesystemTool::Glob(t) && t.working_dir@ == working_dir@,
        r@[5] matches FilesystemTool::Grep(t) && t.working_dir@ == working_dir@,
{
    let mut r: Vec<FilesystemTool> = Vec::new();
    r.push(FilesystemTool::Ls(LsTool { working_dir: owned(working_dir) }));
    r.push(FilesystemTool::ReadFile(ReadFileTool { working_dir: owned(working_dir) }));
    r.push(FilesystemTool::WriteFile(WriteFileTool { working_dir: owned(working_dir) }));
    r.push(FilesystemTool::EditFile(EditFileTool { working_dir: owned(working_dir) }));
    r.push(FilesystemTool::Glob(GlobTool { working_dir: owned(working_dir) }));
    r.push(FilesystemTool::Grep(GrepTool { working_dir: owned(working_dir) }));
    r
}

/// A page holds the lines from `offset` on, in order, as many as `limit`
/// allows and the file has: `min(limit, total - offset)` of them (none past
/// the end); a page that reaches the end of the file holds its last line.
pub proof fn lemma_page_lines(all: Seq<Seq<char>>, offset: nat, limit: nat)
    ensures
        page(all, offset, limit).len() == (if offset >= all.len() {
            0
        } else if limit < all.len() - offset {
            limit as int
        } else {
            all.len() - offset
        }),
        forall|j: int|
            0 <= j < page(all, offset, limit).len() ==> #[trigger] page(all, offset, limit)[j]
                == all[offset + j],
        offset < all.len() && offset + limit >= all.len() ==> page(all, offset, limit).len() > 0
            && page(all, offset, limit).last() == all.last(),
{
}

/// An absolute path is taken as it is; any other path is taken below the
/// working directory: the directory, one `/` between them unless the
/// directory is empty or already ends with one, then the path.
pub proof fn lemma_paths_resolve_below_working_dir(working_dir: Seq<char>, input: Seq<char>)
    ensures
        input.len() > 0 && input[0] == '/' ==> resolved(working_dir, input) == input,
        !(input.len() > 0 && input[0] == '/') ==> ({
            let r = resolved(working_dir, input);
            let sep: int = if working_dir.len() == 0 || working_dir.last() == '/' { 0 } else { 1 };
            &&& r.len() == working_dir.len() + sep + input.len()
            &&& r.take(working_dir.len() as int) == working_dir
            &&& r.skip(working_dir.len() + sep) == input
            &&& (sep == 1 ==> r[working_dir.len() as int] == '/')
        }),
{
    if !(input.len() > 0 && input[0] == '/') {
        let r = resolved(working_dir, input);
        if working_dir.len() == 0 || working_dir.last() == '/' {
            assert(r.take(working_dir.len() as int) =~= working_dir);
            assert(r.skip(working_dir.len() as int) =~= input);
        } else {
            assert(r.take(working_dir.len() as int) =~= working_dir);
            assert(r.skip(working_dir.len() as int + 1) =~= input);
        }
    }
}

} // verus!
