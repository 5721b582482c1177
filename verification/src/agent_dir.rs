//! An agent folder: its instructions, configuration and skills.

use vstd::prelude::*;
use crate::config::Config;
use crate::skills::{context_parts, Skill};
use crate::text::{cat3, join, owned, views};

verus! {

/// What an agent folder holds, once read.
pub struct AgentDir {
    pub dir: String,
    pub system_prompt: String,
    pub skills: Vec<Skill>,
    pub config: Config,
}

/// The system prompt used where the folder has no `AGENTS.md`.
pub open spec fn default_system_prompt() -> Seq<char> {
    "You are a helpful assistant."@
}

impl AgentDir {
    /// The folder from what was read of it: the text of `AGENTS.md` where it
    /// exists, the configuration and the skills that loaded.
    pub fn assemble(dir: String, agents_md: Option<String>, config: Config, skills: Vec<Skill>) -> (r: AgentDir)
        ensures
            r.dir@ == dir@,
            r.system_prompt@ == (match agents_md {
                Some(text) => text@,
                None => default_system_prompt(),
            }),
            r.config == config,
            r.skills@ == skills@,
    {
        let system_prompt = match agents_md {
            Some(text) => text,
            None => owned("You are a helpful assistant."),
        };
        AgentDir { dir, system_prompt, skills, config }
    }
}

/// The text a skill adds to the system prompt: a heading with its name, then
/// its instructions and references.
pub open spec fn skill_section(skill: Skill) -> Seq<char> {
    "\n\n## Skill: "@ + skill.name@ + "\n\n"@ + join(
        context_parts(skill.instructions@, views(skill.references@)),
        "\n\n"@,
    )
}

/// The system prompt followed by the sections of the skills, in order.
pub open spec fn prompt_with_skills(prompt: Seq<char>, skills: Seq<Skill>) -> Seq<char>
    decreases skills.len(),
{
    if skills.len() == 0 {
        prompt
    } else {
        prompt_with_skills(prompt, skills.drop_last()) + skill_section(skills.last())
    }
}

impl AgentDir {
    /// The system prompt of a run: the folder's prompt, then one section per
    /// skill with the skill's instructions and references.
    pub fn full_system_prompt(&self) -> (r: String)
        ensures
            r@ == prompt_with_skills(self.system_prompt@, self.skills@),
    {
        let mut r = owned(self.system_prompt.as_str());
        let mut i: usize = 0;
        while i < self.skills.len()
            invariant
                i <= self.skills@.len(),
                r@ == prompt_with_skills(self.system_prompt@, self.skills@.take(i as int)),
            decreases self.skills@.len() - i,
        {
            proof {
                assert(self.skills@.take(i + 1).drop_last() =~= self.skills@.take(i as int));
                assert(self.skills@.take(i + 1).last() == self.skills@[i as int]);
            }
            let skill = &self.skills[i];
            let head = cat3("\n\n## Skill: ", skill.name.as_str(), "\n\n");
            r.append(head.as_str());
            r.append(skill.full_context().as_str());
            i += 1;
        }
        proof {
            assert(self.skills@.take(self.skills@.len() as int) =~= self.skills@);
        }
        r
    }
}

} // verus!
