//! The steps of one request: inserting the input, checking the size budget and
//! recording the reply.
use vstd::prelude::*;
use vstd::string::*;

use crate::adapters::total_chars;
use crate::config::ApiConfig;
use crate::model::{
    Message, MessageModel, PLACEHOLDER_TOKEN, Prompt, lemma_constants, models, msg, opt_view,
    placeholder,
};
use crate::text::{replace_all, replace_str};

verus! {

/// Every placeholder of every message replaced by `input`.
pub open spec fn substitute_input(ms: Seq<MessageModel>, input: Seq<char>) -> Seq<MessageModel> {
    ms.map_values(|m: MessageModel| msg(m.role, replace_all(m.content, placeholder(), input)))
}

/// Replaces every placeholder of every message by `input`.
pub fn insert_input(messages: Vec<Message>, input: &str) -> (r: Vec<Message>)
    ensures
        models(r@) == substitute_input(models(messages@), input@),
{
    proof {
        lemma_constants();
    }
    let mut out: Vec<Message> = Vec::new();
    let mut i: usize = 0;
    while i < messages.len()
        invariant
            i <= messages.len(),
            placeholder().len() > 0,
            models(out@) == substitute_input(models(messages@), input@).subrange(0, i as int),
        decreases messages.len() - i,
    {
        let m = &messages[i];
        let content = replace_str(m.content.as_str(), PLACEHOLDER_TOKEN, input);
        let filled = Message { role: m.role.clone(), content };
        let ghost prev = out@;
        out.push(filled);
        assert(models(out@) =~= models(prev).push(filled@));
        assert(models(out@) =~= substitute_input(models(messages@), input@).subrange(0, i + 1));
        i += 1;
    }
    assert(substitute_input(models(messages@), input@).subrange(0, messages.len() as int)
        =~= substitute_input(models(messages@), input@));
    out
}

/// The prompt that is sent: the input in place of the placeholders, the provider's
/// default model when the prompt names none, and streaming off.
pub fn prepare_prompt(prompt: Prompt, input: &str, api_config: &ApiConfig) -> (r: Prompt)
    ensures
        r.api == prompt.api,
        opt_view(r.model) == (if prompt.model is Some {
            opt_view(prompt.model)
        } else {
            opt_view(api_config.default_model)
        }),
        models(r.messages@) == substitute_input(models(prompt.messages@), input@),
        r.temperature == prompt.temperature,
        r.char_limit == prompt.char_limit,
        r.stream == Some(false),
{
    let model = match prompt.model {
        Some(m) => Some(m),
        None => match &api_config.default_model {
            Some(d) => Some(d.clone()),
            None => None,
        },
    };
    Prompt {
        api: prompt.api,
        model,
        messages: insert_input(prompt.messages, input),
        temperature: prompt.temperature,
        char_limit: prompt.char_limit,
        // streamed replies are not supported
        stream: Some(false),
    }
}

/// The number of characters over all messages, saturated at `u64::MAX`.
pub open spec fn saturate(n: nat) -> u64 {
    if n > u64::MAX {
        u64::MAX
    } else {
        n as u64
    }
}

/// The budget is set (not zero) and the messages go beyond it.
pub open spec fn exceeds_budget(total: nat, char_limit: Option<u32>) -> bool {
    match char_limit {
        Some(l) => l > 0 && total > l,
        None => false,
    }
}

/// Counts the characters of all message contents, saturating at `u64::MAX`.
pub fn count_chars(messages: &Vec<Message>) -> (r: u64)
    ensures
        r == saturate(total_chars(models(messages@))),
{
    let ghost all = models(messages@);
    let mut sum: u64 = 0;
    let mut i: usize = 0;
    while i < messages.len()
        invariant
            i <= messages.len(),
            all == models(messages@),
            sum == saturate(total_chars(all.subrange(0, i as int))),
        decreases messages.len() - i,
    {
        let n = messages[i].content.as_str().unicode_len();
        let l = n as u64;
        assert(all.subrange(0, i + 1).drop_last() =~= all.subrange(0, i as int));
        if sum > u64::MAX - l {
            sum = u64::MAX;
        } else {
            sum = sum + l;
        }
        i += 1;
    }
    assert(all.subrange(0, messages.len() as int) =~= all);
    sum
}

/// What to do about the size of a prompt.
#[derive(Debug, Clone, Copy, PartialEq, Eq, Structural)]
pub enum SizeDecision {
    /// Within the budget, or no budget.
    Proceed,
    /// Over the budget: ask the user whether to go on.
    AskUser { chars: u64, limit: u32 },
    /// Over the budget with nobody to ask: stop with an error.
    Refuse { chars: u64, limit: u32 },
}

/// Checks the characters of all messages against the prompt's budget; a budget of
/// zero, or none, means no limit.
pub fn validate_prompt_size(prompt: &Prompt, interactive: bool) -> (r: SizeDecision)
    ensures
        !exceeds_budget(total_chars(models(prompt.messages@)), prompt.char_limit) ==> r
            == SizeDecision::Proceed,
        exceeds_budget(total_chars(models(prompt.messages@)), prompt.char_limit) ==> {
            let chars = saturate(total_chars(models(prompt.messages@)));
            let limit = prompt.char_limit->0;
            if interactive {
                r == SizeDecision::AskUser { chars, limit }
            } else {
                r == SizeDecision::Refuse { chars, limit }
            }
        },
{
    let limit: u32 = match prompt.char_limit {
        Some(l) => l,
        None => 0,
    };
    let chars = count_chars(&prompt.messages);
    if limit > 0 && chars > limit as u64 {
        if interactive {
            SizeDecision::AskUser { chars, limit }
        } else {
            SizeDecision::Refuse { chars, limit }
        }
    } else {
        SizeDecision::Proceed
    }
}

/// A total exactly at the budget passes; one character more goes beyond it.
pub proof fn lemma_budget_boundary(limit: u32)
    requires
        limit > 0,
    ensures
        !exceeds_budget(limit as nat, Some(limit)),
        exceeds_budget(limit as nat + 1, Some(limit)),
{
}

/// The text written out after a reply: the input and a newline when it is repeated,
/// then the reply.
pub open spec fn output_text(input: Seq<char>, reply: Seq<char>, repeat_input: bool) -> Seq<char> {
    if repeat_input {
        input + seq!['\n'] + reply
    } else {
        reply
    }
}

/// Appends the reply to the conversation and gives the text to write out.
pub fn record_reply(prompt: Prompt, reply: Message, input: &str, repeat_input: bool) -> (r: (
    Prompt,
    String,
))
    ensures
        models(r.0.messages@) == models(prompt.messages@).push(reply@),
        r.0.api == prompt.api,
        r.0.model == prompt.model,
        r.0.temperature == prompt.temperature,
        r.0.char_limit == prompt.char_limit,
        r.0.stream == prompt.stream,
        r.1@ == output_text(input@, reply.content@, repeat_input),
{
    let mut out = String::new();
    if repeat_input {
        out.append(input);
        crate::text::push_char(&mut out, '\n');
    }
    out.append(reply.content.as_str());
    assert(out@ =~= output_text(input@, reply.content@, repeat_input));
    let mut prompt = prompt;
    let ghost before = prompt.messages@;
    prompt.messages.push(reply);
    assert(models(prompt.messages@) =~= models(before).push(reply@));
    (prompt, out)
}

} // verus!
