//! Compaction of a long conversation: older messages are replaced by an
//! LLM-written summary while the most recent ones are kept verbatim.
//!
//! The LLM call itself is made by the caller: [`Summarizer::plan_summary`]
//! gives the messages to send, [`Summarizer::apply_summary`] rewrites the
//! history with the reply, and [`Summarizer::record_run`] keeps the counters.

use vstd::prelude::*;
use crate::config::SummarizationConfig;
use crate::provider::{opt_str, Message};
use crate::text::{cat, cat3, dec, fmt_u64, join, join_strings, owned, str_eq, views};

verus! {

/// The number of bytes of the UTF-8 encoding of a text.
pub open spec fn byte_len(s: Seq<char>) -> nat {
    vstd::utf8::encode_utf8(s).len()
}

/// The number of content bytes of a message (none without content), as
/// `str::len` gives it.
pub open spec fn content_bytes(m: Message) -> nat {
    match m.content {
        Some(c) => (byte_len(c@) as usize) as nat,
        None => 0,
    }
}

/// The content bytes of all messages.
pub open spec fn total_bytes(ms: Seq<Message>) -> nat
    decreases ms.len(),
{
    if ms.len() == 0 {
        0
    } else {
        total_bytes(ms.drop_last()) + content_bytes(ms.last())
    }
}

/// The estimated token count of a conversation: for each message, its content
/// length in bytes cast to a `u32`, divided by four.
pub open spec fn token_estimate(ms: Seq<Message>) -> nat
    decreases ms.len(),
{
    if ms.len() == 0 {
        0
    } else {
        token_estimate(ms.drop_last()) + ((content_bytes(ms.last()) as u32) as nat) / 4
    }
}

/// How many of the most recent messages a summary keeps verbatim: a quarter of
/// `keep_tokens` per hundred (at least two), at most all of them.
pub open spec fn keep_count(keep_tokens: u32, len: nat) -> nat {
    let k = (keep_tokens as nat * 4) / 100;
    let k = if k < 2 { 2 } else { k };
    if k > len { len } else { k }
}

/// Where the verbatim tail of the conversation starts.
pub open spec fn recent_start(keep_tokens: u32, len: nat) -> nat {
    (len - keep_count(keep_tokens, len)) as nat
}

/// The conversation begins with a system message.
pub open spec fn leads_with_system(ms: Seq<Message>) -> bool {
    ms.len() > 0 && ms[0].role@ == "system"@
}

/// The range of messages that a summary replaces, if any: everything before
/// the verbatim tail, after a leading system message when there is one and
/// something follows it.
pub open spec fn older_range(keep_tokens: u32, ms: Seq<Message>) -> Option<(int, int)> {
    let rs = recent_start(keep_tokens, ms.len()) as int;
    if leads_with_system(ms) && rs > 1 {
        Some((1, rs))
    } else if rs > 0 {
        Some((0, rs))
    } else {
        None
    }
}

/// The lines `[role]: content` of the messages that have content.
pub open spec fn transcript_lines(ms: Seq<Message>) -> Seq<Seq<char>>
    decreases ms.len(),
{
    if ms.len() == 0 {
        Seq::empty()
    } else {
        let rest = transcript_lines(ms.drop_last());
        match ms.last().content {
            Some(c) => rest.push("["@ + ms.last().role@ + "]: "@ + c@),
            None => rest,
        }
    }
}

/// The request sent to the summarization model.
pub open spec fn summary_prompt(trim_tokens: u32, older: Seq<Message>) -> Seq<char> {
    "Summarize the following conversation history concisely, preserving key decisions, facts, and context needed to continue the task. Keep the summary under "@
        + dec(trim_tokens as nat) + " tokens.\n\n"@ + join(transcript_lines(older), "\n"@)
}

/// The instructions given to the summarization model.
pub open spec fn summarizer_instructions() -> Seq<char> {
    "You are a summarization assistant. Produce concise, accurate summaries."@
}

/// The text of the message that stands for the summarized history.
pub open spec fn summary_message_text(summary: Option<Seq<char>>) -> Seq<char> {
    "[Conversation summary]: "@ + match summary {
        Some(s) => s,
        None => "Previous context was summarized but produced no output."@,
    }
}

/// A system message with the given text and nothing else.
pub open spec fn is_system_text(m: Message, text: Seq<char>) -> bool {
    &&& m.role@ == "system"@
    &&& opt_str(m.content) == Some(text)
    &&& m.tool_calls is None
    &&& m.tool_call_id is None
}

/// The conversation after summarization with the model's reply `summary`.
pub open spec fn summarized(ms: Seq<Message>, rs: int, summary_msg: Message) -> Seq<Message> {
    let head = if leads_with_system(ms) { seq![ms[0]] } else { Seq::empty() };
    head + seq![summary_msg] + ms.skip(rs)
}

fn content_len(m: &Message) -> (r: usize)
    ensures
        r as nat == content_bytes(*m),
{
    match &m.content {
        Some(c) => c.as_str().len(),
        None => 0,
    }
}

/// The content bytes of all messages, when the sum fits in a `usize`.
pub fn content_bytes_total(ms: &Vec<Message>) -> (r: Option<usize>)
    ensures
        match r {
            Some(n) => n as nat == total_bytes(ms@),
            None => total_bytes(ms@) > usize::MAX,
        },
{
    let mut total: usize = 0;
    let mut i: usize = 0;
    while i < ms.len()
        invariant
            i <= ms@.len(),
            total as nat == total_bytes(ms@.take(i as int)),
        decreases ms@.len() - i,
    {
        proof {
            assert(ms@.take(i + 1).drop_last() =~= ms@.take(i as int));
            lemma_total_bytes_monotone(ms@, i + 1);
        }
        let n = content_len(&ms[i]);
        if n > usize::MAX - total {
            return None;
        }
        total = total + n;
        i += 1;
    }
    proof {
        assert(ms@.take(ms@.len() as int) =~= ms@);
    }
    Some(total)
}

proof fn lemma_total_bytes_monotone(ms: Seq<Message>, i: int)
    requires
        0 <= i <= ms.len(),
    ensures
        total_bytes(ms.take(i)) <= total_bytes(ms),
    decreases ms.len() - i,
{
    if i < ms.len() {
        assert(ms.take(i + 1).drop_last() =~= ms.take(i));
        lemma_total_bytes_monotone(ms, i + 1);
    } else {
        assert(ms.take(i) =~= ms);
    }
}

proof fn lemma_total_bytes_single(m: Message)
    ensures
        total_bytes(seq![m]) == content_bytes(m),
{
    reveal_with_fuel(total_bytes, 2);
    assert(seq![m].drop_last() =~= Seq::<Message>::empty());
    assert(seq![m].last() == m);
}

proof fn lemma_total_bytes_concat(a: Seq<Message>, b: Seq<Message>)
    ensures
        total_bytes(a + b) == total_bytes(a) + total_bytes(b),
    decreases b.len(),
{
    if b.len() == 0 {
        assert(a + b =~= a);
    } else {
        assert((a + b).drop_last() =~= a + b.drop_last());
        lemma_total_bytes_concat(a, b.drop_last());
    }
}

/// Counts summarization runs and the tokens they saved.
pub struct Summarizer {
    config: SummarizationConfig,
    runs: u32,
    tokens_saved: u32,
}

impl Summarizer {
    /// The summarization settings.
    pub closed spec fn config(&self) -> SummarizationConfig {
        self.config
    }

    /// The number of summaries made so far.
    pub closed spec fn spec_runs(&self) -> nat {
        self.runs as nat
    }

    /// The tokens saved by the summaries made so far.
    pub closed spec fn spec_tokens_saved(&self) -> nat {
        self.tokens_saved as nat
    }

    /// A summarizer with the given settings and no runs yet.
    pub fn new(config: SummarizationConfig) -> (r: Self)
        ensures
            r.config() == config,
            r.spec_runs() == 0,
            r.spec_tokens_saved() == 0,
    {
        Summarizer { config, runs: 0, tokens_saved: 0 }
    }

    /// Whether the conversation is long enough to summarize: summarization is
    /// enabled and the estimated token count exceeds the trigger.
    pub fn should_summarize(&self, messages: &Vec<Message>) -> (r: bool)
        ensures
            r == (self.config().enabled && token_estimate(messages@)
                > self.config().trigger_tokens),
    {
        if !self.config.enabled {
            return false;
        }
        let mut estimated: u64 = 0;
        let mut i: usize = 0;
        while i < messages.len()
            invariant
                i <= messages@.len(),
                estimated as nat == (if token_estimate(messages@.take(i as int)) > u64::MAX {
                    u64::MAX as nat
                } else {
                    token_estimate(messages@.take(i as int))
                }),
            decreases messages@.len() - i,
        {
            proof {
                assert(messages@.take(i + 1).drop_last() =~= messages@.take(i as int));
            }
            let n = content_len(&messages[i]);
            let add: u64 = ((#[verifier::truncate] (n as u32)) / 4) as u64;
            estimated = if estimated > u64::MAX - add {
                u64::MAX
            } else {
                estimated + add
            };
            i += 1;
        }
        proof {
            assert(messages@.take(messages@.len() as int) =~= messages@);
        }
        estimated > self.config.trigger_tokens as u64
    }

    fn recent_start(&self, len: usize) -> (r: usize)
        ensures
            r as nat == recent_start(self.config.keep_tokens, len as nat),
    {
        let k: u64 = (self.config.keep_tokens as u64 * 4) / 100;
        let k: u64 = if k < 2 { 2 } else { k };
        let keep: usize = if k > len as u64 { len } else { k as usize };
        len - keep
    }

    /// The messages to send to the summarization model, or `None` when there
    /// is nothing to summarize.
    pub fn plan_summary(&self, messages: &Vec<Message>) -> (r: Option<Vec<Message>>)
        ensures
            match older_range(self.config().keep_tokens, messages@) {
                None => r is None,
                Some((a, b)) => r matches Some(p) && p@.len() == 2 && is_system_text(
                    p@[0],
                    summarizer_instructions(),
                ) && p@[1].role@ == "user"@ && opt_str(p@[1].content) == Some(
                    summary_prompt(self.config().trim_tokens, messages@.subrange(a, b)),
                ) && p@[1].tool_calls is None && p@[1].tool_call_id is None,
            },
    {
        let len = messages.len();
        let rs = self.recent_start(len);
        let leads = len > 0 && str_eq(messages[0].role.as_str(), "system");
        let (a, b): (usize, usize) = if leads && rs > 1 {
            (1, rs)
        } else if rs > 0 {
            (0, rs)
        } else {
            return None;
        };
        let mut lines: Vec<String> = Vec::new();
        let mut i: usize = a;
        while i < b
            invariant
                a <= i <= b,
                b <= messages@.len(),
                views(lines@) == transcript_lines(messages@.subrange(a as int, i as int)),
            decreases b - i,
        {
            proof {
                assert(messages@.subrange(a as int, i + 1).drop_last() =~= messages@.subrange(
                    a as int,
                    i as int,
                ));
            }
            let m = &messages[i];
            match &m.content {
                Some(c) => {
                    let mut line = cat3("[", m.role.as_str(), "]: ");
                    line.append(c.as_str());
                    lines.push(line);
                    proof {
                        assert(views(lines@) =~= transcript_lines(
                            messages@.subrange(a as int, i as int),
                        ).push("["@ + m.role@ + "]: "@ + c@));
                    }
                },
                None => {},
            }
            i += 1;
        }
        let older_text = join_strings(&lines, "\n");
        let mut prompt = owned(
            "Summarize the following conversation history concisely, preserving key decisions, facts, and context needed to continue the task. Keep the summary under ",
        );
        let trim = fmt_u64(self.config.trim_tokens as u64);
        prompt.append(trim.as_str());
        prompt.append(" tokens.\n\n");
        prompt.append(older_text.as_str());
        let mut request: Vec<Message> = Vec::new();
        request.push(
            Message::system(
                owned("You are a summarization assistant. Produce concise, accurate summaries."),
            ),
        );
        request.push(Message::user(prompt));
        Some(request)
    }

    /// Replaces the older part of the conversation by a system message that
    /// carries the model's reply, keeping a leading system message and the
    /// verbatim tail. Returns the token estimates (bytes over four) before and
    /// after, or `None` (and changes nothing) when there is nothing to
    /// summarize.
    pub fn apply_summary(&self, messages: &mut Vec<Message>, summary: Option<String>) -> (r: Option<
        (u32, u32),
    >)
        requires
            total_bytes(old(messages)@) + match summary {
                Some(s) => byte_len(s@),
                None => 0,
            } + 400 <= usize::MAX,
        ensures
            match older_range(self.config().keep_tokens, old(messages)@) {
                None => r is None && final(messages)@ == old(messages)@,
                Some((a, b)) => {
                    let ms = old(messages)@;
                    let k = if leads_with_system(ms) { 1int } else { 0int };
                    &&& final(messages)@.len() == k + 1 + (ms.len() - b)
                    &&& is_system_text(
                        final(messages)@[k],
                        summary_message_text(opt_str(summary)),
                    )
                    &&& final(messages)@ == summarized(ms, b, final(messages)@[k])
                    &&& r == Some(
                        (
                            ((total_bytes(ms) / 4) as u32),
                            ((total_bytes(final(messages)@) / 4) as u32),
                        ),
                    )
                },
            },
    {
        let len = messages.len();
        let rs = self.recent_start(len);
        let leads = len > 0 && str_eq(messages[0].role.as_str(), "system");
        if !(leads && rs > 1) && rs == 0 {
            return None;
        }
        let before = match content_bytes_total(messages) {
            Some(n) => n,
            None => 0,
        };
        let ghost ms = messages@;
        let mut head: Vec<Message> = Vec::new();
        std::mem::swap(&mut head, messages);
        let mut recent = head.split_off(rs);
        let mut out: Vec<Message> = Vec::new();
        if leads {
            let first = head.remove(0);
            out.push(first);
        }
        let text = match summary {
            Some(s) => s,
            None => owned("Previous context was summarized but produced no output."),
        };
        let summary_msg = Message::system(cat("[Conversation summary]: ", text.as_str()));
        let ghost summary_spec = summary_msg;
        out.push(summary_msg);
        out.append(&mut recent);
        proof {
            let head_seq = if leads_with_system(ms) { seq![ms[0]] } else { Seq::<Message>::empty() };
            assert(out@ =~= head_seq + seq![summary_spec] + ms.skip(rs as int));
            assert(ms.skip(rs as int) =~= ms.subrange(rs as int, ms.len() as int));
            lemma_total_bytes_concat(head_seq + seq![summary_spec], ms.skip(rs as int));
            lemma_total_bytes_concat(head_seq, seq![summary_spec]);
            assert(ms =~= ms.take(rs as int) + ms.skip(rs as int));
            lemma_total_bytes_concat(ms.take(rs as int), ms.skip(rs as int));
            if leads_with_system(ms) {
                assert(ms.take(rs as int) =~= seq![ms[0]] + ms.take(rs as int).drop_first());
                lemma_total_bytes_concat(seq![ms[0]], ms.take(rs as int).drop_first());
                lemma_total_bytes_single(ms[0]);
            }
            lemma_total_bytes_single(summary_spec);
            assert(head_seq.len() == 0 ==> head_seq + seq![summary_spec] =~= seq![summary_spec]);
            reveal_strlit("[Conversation summary]: ");
            reveal_strlit("Previous context was summarized but produced no output.");
            lemma_encode_utf8_concat("[Conversation summary]: "@, text@);
            lemma_encode_utf8_len_bound("[Conversation summary]: "@);
            lemma_encode_utf8_len_bound("Previous context was summarized but produced no output."@);
        }
        let after = match content_bytes_total(&out) {
            Some(n) => n,
            None => 0,
        };
        *messages = out;
        Some(((#[verifier::truncate] ((before / 4) as u32)), (#[verifier::truncate] ((after / 4) as u32))))
    }

    /// Counts one summary that brought the estimate from `tokens_before` to
    /// `tokens_after`; the tokens saved grow by the difference when positive.
    pub fn record_run(&mut self, tokens_before: u32, tokens_after: u32)
        requires
            old(self).spec_runs() < u32::MAX,
            old(self).spec_tokens_saved() + (if tokens_before > tokens_after {
                tokens_before - tokens_after
            } else {
                0
            }) <= u32::MAX,
        ensures
            final(self).config() == old(self).config(),
            final(self).spec_runs() == old(self).spec_runs() + 1,
            final(self).spec_tokens_saved() == old(self).spec_tokens_saved() + (if tokens_before
                > tokens_after {
                tokens_before - tokens_after
            } else {
                0
            }),
    {
        let saved = tokens_before.saturating_sub(tokens_after);
        self.runs = self.runs + 1;
        self.tokens_saved = self.tokens_saved + saved;
    }

    /// The number of summaries made so far.
    pub fn runs(&self) -> (r: u32)
        ensures
            r as nat == self.spec_runs(),
    {
        self.runs
    }

    /// The tokens saved by the summaries made so far.
    pub fn tokens_saved(&self) -> (r: u32)
        ensures
            r as nat == self.spec_tokens_saved(),
    {
        self.tokens_saved
    }
}

/// A summary keeps a leading system message in front, puts the summary
/// message right after it, and keeps the verbatim tail in order after that.
pub proof fn lemma_summary_shape(ms: Seq<Message>, rs: int, m: Message)
    requires
        0 <= rs <= ms.len(),
    ensures
        ({
            let out = summarized(ms, rs, m);
            let k = if leads_with_system(ms) { 1int } else { 0int };
            &&& out.len() == k + 1 + ms.len() - rs
            &&& leads_with_system(ms) ==> out[0] == ms[0]
            &&& out[k] == m
            &&& out.skip(k + 1) == ms.skip(rs)
        }),
{
    let out = summarized(ms, rs, m);
    let k = if leads_with_system(ms) { 1int } else { 0int };
    assert(out.skip(k + 1) =~= ms.skip(rs));
}

/// The verbatim tail holds at least two messages (or all of them when there
/// are fewer) and never more than there are.
pub proof fn lemma_keep_count_bounds(keep_tokens: u32, len: nat)
    ensures
        keep_count(keep_tokens, len) <= len,
        len >= 2 ==> keep_count(keep_tokens, len) >= 2,
        len < 2 ==> keep_count(keep_tokens, len) == len,
        recent_start(keep_tokens, len) + keep_count(keep_tokens, len) == len,
{
}

/// Something is summarized exactly when messages precede the verbatim tail.
pub proof fn lemma_summary_needs_older_messages(keep_tokens: u32, ms: Seq<Message>)
    ensures
        older_range(keep_tokens, ms) is Some <==> recent_start(keep_tokens, ms.len()) > 0,
        older_range(keep_tokens, ms) matches Some((a, b)) ==> 0 <= a < b <= ms.len(),
{
}

proof fn lemma_encode_utf8_concat(a: Seq<char>, b: Seq<char>)
    ensures
        vstd::utf8::encode_utf8(a + b) == vstd::utf8::encode_utf8(a) + vstd::utf8::encode_utf8(b),
    decreases a.len(),
{
    if a.len() == 0 {
        assert(a + b =~= b);
        assert(vstd::utf8::encode_utf8(a) =~= Seq::<u8>::empty());
        assert(vstd::utf8::encode_utf8(a) + vstd::utf8::encode_utf8(b) =~= vstd::utf8::encode_utf8(b));
    } else {
        assert((a + b).drop_first() =~= a.drop_first() + b);
        assert((a + b)[0] == a[0]);
        lemma_encode_utf8_concat(a.drop_first(), b);
        assert(vstd::utf8::encode_utf8(a + b) =~= vstd::utf8::encode_utf8(a) + vstd::utf8::encode_utf8(b));
    }
}

proof fn lemma_encode_utf8_len_bound(s: Seq<char>)
    ensures
        byte_len(s) <= 4 * s.len(),
    decreases s.len(),
{
    if s.len() > 0 {
        lemma_encode_utf8_len_bound(s.drop_first());
    }
}

/// How much a summary keeps: with `n = keep_tokens * 4 / 100` messages asked
/// for (at least two), a conversation of at most that many messages is never
/// summarized; a longer one keeps exactly that many recent messages and
/// replaces the ones before them (after a leading system message).
pub proof fn lemma_summary_keeps_recent_tail(keep_tokens: u32, ms: Seq<Message>)
    ensures
        ({
            let asked = keep_tokens as int * 4 / 100;
            let n = if asked < 2 { 2 } else { asked };
            &&& keep_count(keep_tokens, ms.len()) == (if ms.len() <= n { ms.len() as int } else { n })
            &&& (older_range(keep_tokens, ms) is None <==> ms.len() <= n)
            &&& (older_range(keep_tokens, ms) matches Some((a, b)) ==> b == ms.len() - n && a == (
                if leads_with_system(ms) && b > 1 { 1int } else { 0int }))
        }),
{
}

} // verus!
