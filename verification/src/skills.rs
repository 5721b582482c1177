//! Skills: extra instructions, reference documents and scripts that an agent
//! folder provides under `skills/`.

use vstd::prelude::*;
use crate::text::{cat3, dec, fmt_u64, join, join_strings, owned, views};
use crate::tools::skill_tool::{file_name_of, path_file_name};

verus! {

/// A skill loaded from its directory.
pub struct Skill {
    pub name: String,
    pub dir_path: String,
    pub instructions: String,
    pub references: Vec<String>,
    pub scripts: Vec<String>,
}

/// The parts of a skill's context: its instructions when not empty, then each
/// reference under a numbered heading.
pub open spec fn context_parts(instructions: Seq<char>, references: Seq<Seq<char>>) -> Seq<Seq<char>> {
    let head = if instructions.len() > 0 { seq![instructions] } else { Seq::empty() };
    head + Seq::new(
        references.len(),
        |i: int| "--- Reference "@ + dec((i + 1) as nat) + " ---\n"@ + references[i],
    )
}

impl Skill {
    /// The skill's instructions and references, separated by blank lines.
    pub fn full_context(&self) -> (r: String)
        ensures
            r@ == join(context_parts(self.instructions@, views(self.references@)), "\n\n"@),
    {
        let mut parts: Vec<String> = Vec::new();
        if !self.instructions.as_str().is_empty() {
            parts.push(owned(self.instructions.as_str()));
        }
        let ghost head = views(parts@);
        let mut i: usize = 0;
        while i < self.references.len()
            invariant
                i <= self.references@.len(),
                head == (if self.instructions@.len() > 0 {
                    seq![self.instructions@]
                } else {
                    Seq::empty()
                }),
                views(parts@) == head + Seq::new(
                    i as nat,
                    |k: int| "--- Reference "@ + dec((k + 1) as nat) + " ---\n"@ + views(
                        self.references@,
                    )[k],
                ),
            decreases self.references@.len() - i,
        {
            let ghost before = parts@;
            let mut part = cat3(
                "--- Reference ",
                fmt_u64(i as u64 + 1).as_str(),
                " ---\n",
            );
            part.append(self.references[i].as_str());
            let ghost pv = part@;
            parts.push(part);
            proof {
                assert(pv == "--- Reference "@ + dec((i + 1) as nat) + " ---\n"@ + views(
                    self.references@,
                )[i as int]);
                assert(views(parts@) =~= views(before).push(pv));
                assert(views(parts@) =~= head + Seq::new(
                    (i + 1) as nat,
                    |k: int| "--- Reference "@ + dec((k + 1) as nat) + " ---\n"@ + views(
                        self.references@,
                    )[k],
                ));
            }
            i += 1;
        }
        proof {
            assert(views(parts@) =~= context_parts(self.instructions@, views(self.references@)));
        }
        join_strings(&parts, "\n\n")
    }
}

/// The name of a skill from its directory's file name (as the path gives
/// it), or the error for a path without one.
pub fn skill_name_from(file_name: Option<String>) -> (r: Result<String, String>)
    ensures
        match file_name {
            Some(n) => r matches Ok(x) && x@ == n@,
            None => r matches Err(e) && e@ == "Invalid skill directory path"@,
        },
{
    match file_name {
        Some(n) => Ok(n),
        None => Err(owned("Invalid skill directory path")),
    }
}

/// The name of the skill in the directory `dir`: the directory's file name.
pub fn skill_name(dir: &str) -> (r: Result<String, String>)
    ensures
        match path_file_name(dir@) {
            Some(n) => r matches Ok(x) && x@ == n,
            None => r matches Err(e) && e@ == "Invalid skill directory path"@,
        },
{
    skill_name_from(file_name_of(dir))
}

} // verus!
