//! Skill scripts exposed as tools.

use vstd::prelude::*;
use crate::json::{field_str, get_str, Json};
use crate::skills::Skill;
use crate::text::{cat, cat3, owned};
use crate::tools::ToolOutput;

verus! {

/// What `Path::file_name` gives for a path, as text.
pub uninterp spec fn path_file_name(path: Seq<char>) -> Option<Seq<char>>;

/// `Path::new(path).file_name()` converted to text (`to_string_lossy`); the
/// result is named [`path_file_name`] of the path.
#[verifier::external_body]
pub(crate) fn file_name_of(path: &str) -> (r: Option<String>)
    ensures
        match r {
            Some(s) => path_file_name(path@) == Some(s@),
            None => path_file_name(path@) is None,
        },
{
    match std::path::Path::new(path).file_name() {
        Some(f) => Some(f.to_string_lossy().to_string()),
        None => None,
    }
}

/// Runs one script of a skill.
pub struct SkillScriptTool {
    pub tool_name: String,
    pub script_path: String,
    pub description: String,
}

impl SkillScriptTool {
    /// A tool named `tool_name` running the script at `script_path`.
    pub fn new(tool_name: String, script_path: String, description: String) -> (r: Self)
        ensures
            r.tool_name == tool_name,
            r.script_path == script_path,
            r.description == description,
    {
        SkillScriptTool { tool_name, script_path, description }
    }

    /// The shell command line: the script's path, then the `args` argument
    /// after a space when it is not empty.
    pub fn command(&self, args: &Json) -> (r: String)
        ensures
            ({
                let extra = match field_str(args@, "args"@) {
                    Some(s) => s,
                    None => Seq::empty(),
                };
                r@ == if extra.len() == 0 {
                    self.script_path@
                } else {
                    self.script_path@ + " "@ + extra
                }
            }),
    {
        match get_str(args, "args") {
            Some(a) => if a.is_empty() {
                owned(self.script_path.as_str())
            } else {
                cat3(self.script_path.as_str(), " ", a)
            },
            None => owned(self.script_path.as_str()),
        }
    }

    /// The answer when the script cannot be started.
    pub fn spawn_failure(error: &str) -> (r: ToolOutput)
        ensures
            r.content@ == "Failed to execute script: "@ + error@,
            r.is_error,
    {
        ToolOutput { content: cat("Failed to execute script: ", error), is_error: true }
    }

    /// The answer when the script runs longer than its sixty seconds.
    pub fn timed_out() -> (r: ToolOutput)
        ensures
            r.content@ == "Script timed out after 60 seconds"@,
            r.is_error,
    {
        ToolOutput { content: owned("Script timed out after 60 seconds"), is_error: true }
    }
}

/// The tool name and description of a script of `skill` whose file name is
/// `file_name` (`unknown` when the path has none).
pub open spec fn labels_for_file(skill: Seq<char>, file_name: Option<Seq<char>>) -> (
    Seq<char>,
    Seq<char>,
) {
    let file = match file_name {
        Some(f) => f,
        None => "unknown"@,
    };
    ("skill_"@ + skill + "_"@ + file, "Execute skill script: "@ + skill + " ("@ + file + ")"@)
}

/// The tool name and description of a skill script.
pub open spec fn script_labels(skill: Seq<char>, path: Seq<char>) -> (Seq<char>, Seq<char>) {
    labels_for_file(skill, path_file_name(path))
}

/// The tool for the script at `path` of the skill `skill`, given the
/// script's file name as the path gives it (`None` when it has none).
pub fn script_tool(skill: &str, path: &str, file_name: Option<String>) -> (r: SkillScriptTool)
    ensures
        r.tool_name@ == labels_for_file(
            skill@,
            match file_name {
                Some(f) => Some(f@),
                None => None,
            },
        ).0,
        r.description@ == labels_for_file(
            skill@,
            match file_name {
                Some(f) => Some(f@),
                None => None,
            },
        ).1,
        r.script_path@ == path@,
{
    let file = match file_name {
        Some(f) => f,
        None => owned("unknown"),
    };
    let mut name = cat3("skill_", skill, "_");
    name.append(file.as_str());
    let mut description = cat3("Execute skill script: ", skill, " (");
    description.append(file.as_str());
    description.append(")");
    SkillScriptTool::new(name, owned(path), description)
}

/// The (skill name, script path) pairs of the skills, in order.
pub open spec fn script_entries(skills: Seq<Skill>) -> Seq<(Seq<char>, Seq<char>)>
    decreases skills.len(),
{
    if skills.len() == 0 {
        Seq::empty()
    } else {
        let s = skills.last();
        script_entries(skills.drop_last()) + Seq::new(
            s.scripts@.len(),
            |j: int| (s.name@, s.scripts@[j]@),
        )
    }
}

/// The tool for one script entry.
pub open spec fn tool_for(t: SkillScriptTool, entry: (Seq<char>, Seq<char>)) -> bool {
    let labels = script_labels(entry.0, entry.1);
    &&& t.tool_name@ == labels.0
    &&& t.description@ == labels.1
    &&& t.script_path@ == entry.1
}

/// The script tools of the skills, in order: for each skill, one tool per
/// script, named `skill_<skill>_<file name>`.
pub fn from_skills(skills: &Vec<Skill>) -> (r: Vec<SkillScriptTool>)
    ensures
        r@.len() == script_entries(skills@).len(),
        forall|t: int| 0 <= t < r@.len() ==> tool_for(#[trigger] r@[t], script_entries(skills@)[t]),
{
    let mut tools: Vec<SkillScriptTool> = Vec::new();
    let mut i: usize = 0;
    while i < skills.len()
        invariant
            i <= skills@.len(),
            tools@.len() == script_entries(skills@.take(i as int)).len(),
            forall|t: int|
                0 <= t < tools@.len() ==> tool_for(
                    #[trigger] tools@[t],
                    script_entries(skills@.take(i as int))[t],
                ),
        decreases skills@.len() - i,
    {
        let skill = &skills[i];
        let ghost done = script_entries(skills@.take(i as int));
        let mut j: usize = 0;
        while j < skill.scripts.len()
            invariant
                i < skills@.len(),
                *skill == skills@[i as int],
                j <= skill.scripts@.len(),
                done == script_entries(skills@.take(i as int)),
                tools@.len() == done.len() + j,
                forall|t: int|
                    0 <= t < done.len() ==> tool_for(#[trigger] tools@[t], done[t]),
                forall|t: int|
                    done.len() <= t < tools@.len() ==> tool_for(
                        #[trigger] tools@[t],
                        (skill.name@, skill.scripts@[t - done.len()]@),
                    ),
            decreases skill.scripts@.len() - j,
        {
            let path = &skill.scripts[j];
            let file = file_name_of(path.as_str());
            tools.push(script_tool(skill.name.as_str(), path.as_str(), file));
            j += 1;
        }
        proof {
            let next = skills@.take(i + 1);
            assert(next.drop_last() =~= skills@.take(i as int));
            assert(next.last() == *skill);
            let all = script_entries(next);
            assert forall|t: int| 0 <= t < tools@.len() implies tool_for(
                #[trigger] tools@[t],
                all[t],
            ) by {
                if t >= done.len() {
                    assert(all[t] == (skill.name@, skill.scripts@[t - done.len()]@));
                } else {
                    assert(all[t] == done[t]);
                }
            }
        }
        i += 1;
    }
    proof {
        assert(skills@.take(skills@.len() as int) =~= skills@);
    }
    tools
}

} // verus!
