//! Plan generation: the request that asks the model for a step-by-step plan,
//! and the reading of its answer.

use vstd::prelude::*;
use crate::provider::{opt_str, Message};
use crate::text::{
    cat, count_non_blank, join, join_strings, lines, lines_of, owned, str_is_blank, views,
};

verus! {

/// The request for a plan.
pub open spec fn plan_prompt(user_prompt: Seq<char>, tool_names: Seq<Seq<char>>) -> Seq<char> {
    "Given the task below, generate a step-by-step execution plan. Each step should be a concrete action. Available tools: "@
        + join(tool_names, ", "@) + "\n\nTask: "@ + user_prompt
}

/// The messages that ask for a plan: the agent's system prompt, then the request.
pub fn plan_messages(system_prompt: &str, user_prompt: &str, tool_names: &Vec<String>) -> (r: Vec<
    Message,
>)
    ensures
        r@.len() == 2,
        r@[0].role@ == "system"@,
        opt_str(r@[0].content) == Some(system_prompt@),
        r@[0].tool_calls is None && r@[0].tool_call_id is None,
        r@[1].role@ == "user"@,
        opt_str(r@[1].content) == Some(plan_prompt(user_prompt@, views(tool_names@))),
        r@[1].tool_calls is None && r@[1].tool_call_id is None,
{
    let mut prompt = owned(
        "Given the task below, generate a step-by-step execution plan. Each step should be a concrete action. Available tools: ",
    );
    prompt.append(join_strings(tool_names, ", ").as_str());
    prompt.append("\n\nTask: ");
    prompt.append(user_prompt);
    let mut r: Vec<Message> = Vec::new();
    r.push(Message::system(owned(system_prompt)));
    r.push(Message::user(prompt));
    r
}

/// The plan in the model's answer (empty when it has no text).
pub fn plan_text(content: Option<String>) -> (r: String)
    ensures
        r@ == match content {
            Some(c) => c@,
            None => Seq::<char>::empty(),
        },
{
    match content {
        Some(c) => c,
        None => String::new(),
    }
}

/// The number of steps of a plan: its lines that are not blank.
pub fn count_steps(plan: &str) -> (r: usize)
    ensures
        r as nat == count_non_blank(lines(plan@)),
{
    let ls = lines_of(plan);
    let mut n: usize = 0;
    let mut i: usize = 0;
    while i < ls.len()
        invariant
            i <= ls@.len(),
            n <= i,
            n as nat == count_non_blank(views(ls@).take(i as int)),
        decreases ls@.len() - i,
    {
        proof {
            assert(views(ls@).take(i + 1).drop_last() =~= views(ls@).take(i as int));
        }
        if !str_is_blank(ls[i].as_str()) {
            n += 1;
        }
        i += 1;
    }
    proof {
        assert(views(ls@).take(ls@.len() as int) =~= views(ls@));
    }
    n
}

/// The task as the first user message: the prompt, then the plan when there
/// is one.
pub open spec fn task_text(prompt: Seq<char>, plan: Seq<char>) -> Seq<char> {
    if plan.len() == 0 {
        prompt
    } else {
        prompt + "\n\nPlan:\n"@ + plan
    }
}

/// The conversation a run starts from: the system prompt, then the task.
pub fn task_messages(system_prompt: &str, prompt: &str, plan: &str) -> (r: Vec<Message>)
    ensures
        r@.len() == 2,
        r@[0].role@ == "system"@,
        opt_str(r@[0].content) == Some(system_prompt@),
        r@[0].tool_calls is None && r@[0].tool_call_id is None,
        r@[1].role@ == "user"@,
        opt_str(r@[1].content) == Some(task_text(prompt@, plan@)),
        r@[1].tool_calls is None && r@[1].tool_call_id is None,
{
    let mut task = owned(prompt);
    if !plan.is_empty() {
        task.append("\n\nPlan:\n");
        task.append(plan);
    }
    let mut r: Vec<Message> = Vec::new();
    r.push(Message::system(owned(system_prompt)));
    r.push(Message::user(task));
    r
}

} // verus!
