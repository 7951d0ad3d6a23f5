//! Layering runtime overrides, context and a command onto a stored template.
use vstd::prelude::*;
use vstd::string::*;

use crate::model::{
    Api, Message, MessageModel, Prompt, Temperature, PLACEHOLDER_TOKEN, USER_ROLE, lemma_constants, models,
    msg, opt_view, placeholder, pow10, system_role, user_role,
};
use crate::text::{contains, occurs_at, replace_all, replace_str, str_contains};

verus! {

/// A file whose content is handed to the model as context.
#[derive(Debug, Clone, PartialEq, Eq)]
pub struct ContextFile {
    pub path: String,
    pub content: String,
}

/// Runtime overrides of a template. `context` holds the files that the context
/// patterns matched, already read, in the order in which they were matched.
#[derive(Debug, Clone, PartialEq)]
pub struct PromptParams {
    pub api: Option<Api>,
    pub model: Option<String>,
    pub temperature: Option<Temperature>,
    pub char_limit: Option<u32>,
    pub context: Vec<ContextFile>,
    pub system_message: Option<String>,
    pub after_input: Option<String>,
}

impl Default for PromptParams {
    /// No override at all.
    fn default() -> (r: PromptParams)
        ensures
            r.api is None,
            r.model is None,
            r.temperature is None,
            r.char_limit is None,
            r.context@.len() == 0,
            r.system_message is None,
            r.after_input is None,
    {
        PromptParams {
            api: None,
            model: None,
            temperature: None,
            char_limit: None,
            context: Vec::new(),
            system_message: None,
            after_input: None,
        }
    }
}

pub const CONTEXT_HEADER: &'static str = "files content for context:\n\n";

pub const FENCE_OPEN: &'static str = ":\n```\n";

pub const FENCE_CLOSE: &'static str = "\n```\n";

/// One file as it appears in the context message.
pub open spec fn context_block(f: ContextFile) -> Seq<char> {
    f.path@ + FENCE_OPEN@ + f.content@ + FENCE_CLOSE@
}

/// The blocks of all files, in order.
pub open spec fn context_blocks(files: Seq<ContextFile>) -> Seq<char>
    decreases files.len(),
{
    if files.len() == 0 {
        Seq::empty()
    } else {
        context_blocks(files.drop_last()) + context_block(files.last())
    }
}

/// The content of the context message, if there is any context.
pub open spec fn context_message(files: Seq<ContextFile>) -> Option<Seq<char>> {
    if files.len() == 0 {
        None
    } else {
        Some(CONTEXT_HEADER@ + context_blocks(files))
    }
}

/// The index of the first message with role "user", or the length when there is none.
pub open spec fn first_user_index(ms: Seq<MessageModel>) -> int
    decreases ms.len(),
{
    if ms.len() == 0 {
        0
    } else if ms[0].role == user_role() {
        0
    } else {
        1 + first_user_index(ms.drop_first())
    }
}

/// Step one of the layout: the system message and the context message, in this
/// order, just before the first user message.
pub open spec fn insert_system_messages(
    ms: Seq<MessageModel>,
    system: Option<Seq<char>>,
    context: Option<Seq<char>>,
) -> Seq<MessageModel> {
    let i = first_user_index(ms);
    let ms1 = match system {
        Some(s) => ms.insert(i, msg(system_role(), s)),
        None => ms,
    };
    let j = if system is Some {
        i + 1
    } else {
        i
    };
    match context {
        Some(c) => ms1.insert(j, msg(system_role(), c)),
        None => ms1,
    }
}

/// `t`, with the placeholder appended when it holds none.
pub open spec fn with_placeholder(t: Seq<char>) -> Seq<char> {
    if contains(t, placeholder()) {
        t
    } else {
        t + placeholder()
    }
}

/// Every message with its placeholders removed.
pub open spec fn strip_all(ms: Seq<MessageModel>) -> Seq<MessageModel> {
    ms.map_values(
        |m: MessageModel| msg(m.role, replace_all(m.content, placeholder(), Seq::empty())),
    )
}

/// Step two: a command replaces every placeholder and becomes a new user message.
pub open spec fn add_command(ms: Seq<MessageModel>, command: Option<Seq<char>>) -> Seq<
    MessageModel,
> {
    match command {
        Some(t) => strip_all(ms).push(msg(user_role(), with_placeholder(t))),
        None => ms,
    }
}

pub open spec fn ends_with_user(ms: Seq<MessageModel>) -> bool {
    ms.len() > 0 && ms.last().role == user_role()
}

/// The messages that stay before the last one: all but a final user message.
pub open spec fn earlier_messages(ms: Seq<MessageModel>) -> Seq<MessageModel> {
    if ends_with_user(ms) {
        ms.drop_last()
    } else {
        ms
    }
}

/// Step three: the list ends with a user message that holds the placeholder,
/// followed by the text to put after the input.
pub open spec fn finish_last(ms: Seq<MessageModel>, after: Option<Seq<char>>) -> Seq<
    MessageModel,
> {
    let rest = earlier_messages(ms);
    let last = if ends_with_user(ms) {
        ms.last().content
    } else {
        placeholder()
    };
    let tail = match after {
        Some(a) => a,
        None => Seq::empty(),
    };
    rest.push(msg(user_role(), with_placeholder(last) + tail))
}

/// The messages of a customized template.
pub open spec fn customized_messages(
    ms: Seq<MessageModel>,
    system: Option<Seq<char>>,
    context: Option<Seq<char>>,
    command: Option<Seq<char>>,
    after: Option<Seq<char>>,
) -> Seq<MessageModel> {
    finish_last(add_command(insert_system_messages(ms, system, context), command), after)
}

/// The temperature that an override stores: zero becomes a tiny positive value.
pub open spec fn stored_temperature(t: Temperature) -> Temperature {
    if t.is_zero() {
        Temperature::spec_epsilon()
    } else {
        t
    }
}

proof fn lemma_models_insert(v: Seq<Message>, i: int, m: Message)
    requires
        0 <= i <= v.len(),
    ensures
        models(v.insert(i, m)) == models(v).insert(i, m@),
{
    assert(models(v.insert(i, m)) =~= models(v).insert(i, m@));
}

proof fn lemma_models_push(v: Seq<Message>, m: Message)
    ensures
        models(v.push(m)) == models(v).push(m@),
{
    assert(models(v.push(m)) =~= models(v).push(m@));
}

/// Index of the first user message, or the length when there is none.
fn find_first_user(ms: &Vec<Message>) -> (r: usize)
    ensures
        r == first_user_index(models(ms@)),
        r <= ms@.len(),
{
    let ghost all = models(ms@);
    let mut i: usize = 0;
    assert(all.subrange(0, all.len() as int) =~= all);
    while i < ms.len()
        invariant
            all == models(ms@),
            i <= ms.len(),
            first_user_index(all) == i + first_user_index(all.subrange(i as int, all.len() as int)),
        decreases ms.len() - i,
    {
        let ghost t = all.subrange(i as int, all.len() as int);
        if ms[i].has_role(USER_ROLE) {
            assert(t[0] == all[i as int]);
            return i;
        }
        assert(t.drop_first() =~= all.subrange(i + 1, all.len() as int));
        i += 1;
    }
    i
}

/// The content of the context message for `files`, if there are any.
pub fn context_content(files: &Vec<ContextFile>) -> (r: Option<String>)
    ensures
        opt_view(r) == context_message(files@),
{
    if files.len() == 0 {
        return None;
    }
    let mut blocks = String::new();
    let mut i: usize = 0;
    while i < files.len()
        invariant
            i <= files.len(),
            blocks@ == context_blocks(files@.subrange(0, i as int)),
        decreases files.len() - i,
    {
        let f = &files[i];
        blocks.append(f.path.as_str());
        blocks.append(FENCE_OPEN);
        blocks.append(f.content.as_str());
        blocks.append(FENCE_CLOSE);
        assert(files@.subrange(0, i + 1).drop_last() =~= files@.subrange(0, i as int));
        i += 1;
    }
    assert(files@.subrange(0, files.len() as int) =~= files@);
    let mut content = String::from_str(CONTEXT_HEADER);
    content.append(blocks.as_str());
    Some(content)
}

/// `t`, with the placeholder appended when it holds none.
pub fn ensure_placeholder(t: String) -> (r: String)
    ensures
        r@ == with_placeholder(t@),
{
    if str_contains(t.as_str(), PLACEHOLDER_TOKEN) {
        t
    } else {
        let mut t = t;
        t.append(PLACEHOLDER_TOKEN);
        t
    }
}

/// Every message with its placeholders removed.
fn strip_placeholders(ms: Vec<Message>) -> (r: Vec<Message>)
    ensures
        models(r@) == strip_all(models(ms@)),
{
    proof {
        lemma_constants();
        reveal_strlit("");
    }
    let mut out: Vec<Message> = Vec::new();
    let mut i: usize = 0;
    while i < ms.len()
        invariant
            i <= ms.len(),
            placeholder().len() > 0,
            ""@ == Seq::<char>::empty(),
            models(out@) == strip_all(models(ms@)).subrange(0, i as int),
        decreases ms.len() - i,
    {
        let m = &ms[i];
        let content = replace_str(m.content.as_str(), PLACEHOLDER_TOKEN, "");
        let stripped = Message { role: m.role.clone(), content };
        proof {
            lemma_models_push(out@, stripped);
        }
        out.push(stripped);
        assert(models(out@) =~= strip_all(models(ms@)).subrange(0, i + 1));
        i += 1;
    }
    assert(strip_all(models(ms@)).subrange(0, ms.len() as int) =~= strip_all(models(ms@)));
    out
}

/// Step one: the system message and the context message, before the first user message.
fn insert_system_messages_in(
    ms: Vec<Message>,
    system: &Option<String>,
    context: Option<String>,
) -> (r: Vec<Message>)
    ensures
        models(r@) == insert_system_messages(models(ms@), opt_view(*system), opt_view(context)),
{
    let mut ms = ms;
    let mut i = find_first_user(&ms);
    if let Some(s) = system {
        let m = Message::system(s.as_str());
        proof {
            lemma_models_insert(ms@, i as int, m);
        }
        ms.insert(i, m);
        let n = ms.len();
        assert(i < n);
        i += 1;
    }
    if let Some(c) = context {
        let m = Message::system(c.as_str());
        proof {
            lemma_models_insert(ms@, i as int, m);
        }
        ms.insert(i, m);
    }
    ms
}

/// Step two: with a command, every placeholder goes and the command becomes the last message.
fn add_command_to(ms: Vec<Message>, command: Option<String>) -> (r: Vec<Message>)
    ensures
        models(r@) == add_command(models(ms@), opt_view(command)),
{
    match command {
        Some(t) => {
            let mut out = strip_placeholders(ms);
            let text = ensure_placeholder(t);
            let m = Message::user(text.as_str());
            proof {
                lemma_models_push(out@, m);
            }
            out.push(m);
            out
        },
        None => ms,
    }
}

/// Step three: the list ends with a user message holding the placeholder, then `after`.
fn finish_last_message(ms: Vec<Message>, after: &Option<String>) -> (r: Vec<Message>)
    ensures
        models(r@) == finish_last(models(ms@), opt_view(*after)),
{
    let ghost before = models(ms@);
    let mut ms = ms;
    let ends_user = ms.len() > 0 && ms[ms.len() - 1].has_role(USER_ROLE);
    let last = if ends_user {
        let m = ms.pop().unwrap();
        assert(models(ms@) =~= before.drop_last());
        m
    } else {
        Message::user(PLACEHOLDER_TOKEN)
    };
    let mut content = ensure_placeholder(last.content);
    if let Some(a) = after {
        content.append(a.as_str());
    } else {
        assert(content@ =~= content@ + Seq::<char>::empty());
    }
    let m = Message { role: last.role, content };
    proof {
        lemma_models_push(ms@, m);
    }
    ms.push(m);
    ms
}

/// Applies the overrides of `prompt_params` and the command `custom_prompt` to a template.
///
/// The api, model and character budget are replaced where an override is given; a
/// temperature override of zero is stored as ten to the power minus thirteen. The
/// override's system message and then the context message go just before the first
/// user message (at the end when there is none). A command removes every placeholder
/// and becomes a new user message, holding the placeholder. Finally the last message
/// is a user message that holds the placeholder (one holding only the placeholder is
/// appended when the list does not end with a user message), followed by the text to
/// put after the input.
pub fn customize_prompt(
    prompt: Prompt,
    prompt_params: &PromptParams,
    custom_prompt: Option<String>,
) -> (r: Prompt)
    ensures
        r.api == (match prompt_params.api {
            Some(a) => a,
            None => prompt.api,
        }),
        opt_view(r.model) == (if prompt_params.model is Some {
            opt_view(prompt_params.model)
        } else {
            opt_view(prompt.model)
        }),
        r.temperature == (match prompt_params.temperature {
            Some(t) => Some(stored_temperature(t)),
            None => prompt.temperature,
        }),
        r.char_limit == (if prompt_params.char_limit is Some {
            prompt_params.char_limit
        } else {
            prompt.char_limit
        }),
        r.stream == prompt.stream,
        models(r.messages@) == customized_messages(
            models(prompt.messages@),
            opt_view(prompt_params.system_message),
            context_message(prompt_params.context@),
            opt_view(custom_prompt),
            opt_view(prompt_params.after_input),
        ),
{
    let mut prompt = prompt;
    if let Some(api) = prompt_params.api {
        prompt.api = api;
    }
    if let Some(model) = &prompt_params.model {
        prompt.model = Some(model.clone());
    }
    if let Some(limit) = prompt_params.char_limit {
        prompt.char_limit = Some(limit);
    }
    if let Some(t) = prompt_params.temperature {
        if t.digits == 0 {
            // a temperature of zero does not make current providers deterministic
            prompt.temperature = Some(Temperature::epsilon());
        } else {
            prompt.temperature = Some(t);
        }
    }
    let context = context_content(&prompt_params.context);
    let messages = insert_system_messages_in(prompt.messages, &prompt_params.system_message, context);
    let messages = add_command_to(messages, custom_prompt);
    let messages = finish_last_message(messages, &prompt_params.after_input);
    Prompt { messages, ..prompt }
}

proof fn lemma_contains_prefix(a: Seq<char>, b: Seq<char>, p: Seq<char>)
    requires
        contains(a, p),
    ensures
        contains(a + b, p),
{
    let i = choose|i: int| occurs_at(a, p, i);
    assert((a + b).subrange(i, i + p.len()) =~= a.subrange(i, i + p.len()));
    assert(occurs_at(a + b, p, i));
}

proof fn lemma_with_placeholder_contains(t: Seq<char>)
    ensures
        contains(with_placeholder(t), placeholder()),
{
    if !contains(t, placeholder()) {
        let s = t + placeholder();
        assert(s.subrange(t.len() as int, (t.len() + placeholder().len()) as int) =~= placeholder());
        assert(occurs_at(s, placeholder(), t.len() as int));
    }
}

/// Where the placeholder is left before the last message, once the template is laid
/// out: with a command, in what stripping leaves of a message; without one, in a
/// message before the final user message.
pub open spec fn placeholder_left_early(
    ms: Seq<MessageModel>,
    system: Option<Seq<char>>,
    context: Option<Seq<char>>,
    command: Option<Seq<char>>,
) -> bool {
    let laid = insert_system_messages(ms, system, context);
    if command is Some {
        exists|k: int|
            0 <= k < laid.len() && contains(
                replace_all(laid[k].content, placeholder(), Seq::empty()),
                placeholder(),
            )
    } else {
        exists|k: int|
            0 <= k < earlier_messages(laid).len() && contains(
                earlier_messages(laid)[k].content,
                placeholder(),
            )
    }
}

/// After customization exactly one message holds the placeholder, and it is the last
/// message, whose role is "user". Excluded are the layouts that leave a placeholder
/// before the last message: a template or context message holding the placeholder
/// when no command is given, or one in which removing the placeholder forms it anew.
pub proof fn lemma_single_placeholder(
    ms: Seq<MessageModel>,
    system: Option<Seq<char>>,
    context: Option<Seq<char>>,
    command: Option<Seq<char>>,
    after: Option<Seq<char>>,
)
    requires
        !placeholder_left_early(ms, system, context, command),
    ensures
        ({
            let r = customized_messages(ms, system, context, command, after);
            &&& r.len() > 0
            &&& r.last().role == user_role()
            &&& contains(r.last().content, placeholder())
            &&& forall|k: int| 0 <= k < r.len() - 1 ==> !contains(r[k].content, placeholder())
        }),
{
    let laid = insert_system_messages(ms, system, context);
    let c = add_command(laid, command);
    let rest = earlier_messages(c);
    let last = if ends_with_user(c) {
        c.last().content
    } else {
        placeholder()
    };
    let tail = match after {
        Some(a) => a,
        None => Seq::empty(),
    };
    let r = customized_messages(ms, system, context, command, after);
    assert(r == rest.push(msg(user_role(), with_placeholder(last) + tail)));
    lemma_with_placeholder_contains(last);
    lemma_contains_prefix(with_placeholder(last), tail, placeholder());
    assert forall|k: int| 0 <= k < r.len() - 1 implies !contains(r[k].content, placeholder()) by {
        assert(r[k] == rest[k]);
        if command is Some {
            assert(c.last().role == user_role());
            assert(rest =~= strip_all(laid));
            if contains(rest[k].content, placeholder()) {
                assert(0 <= k < laid.len() && contains(
                    replace_all(laid[k].content, placeholder(), Seq::empty()),
                    placeholder(),
                ));
            }
        } else {
            if contains(rest[k].content, placeholder()) {
                assert(0 <= k < earlier_messages(laid).len());
            }
        }
    }
}

/// `first_user_index` is the index of the first user message, or the length when
/// there is none.
pub proof fn lemma_first_user_index(ms: Seq<MessageModel>)
    ensures
        0 <= first_user_index(ms) <= ms.len(),
        forall|i: int| 0 <= i < first_user_index(ms) ==> (#[trigger] ms[i]).role != user_role(),
        first_user_index(ms) < ms.len() ==> ms[first_user_index(ms)].role == user_role(),
    decreases ms.len(),
{
    if ms.len() > 0 && ms[0].role != user_role() {
        let t = ms.drop_first();
        lemma_first_user_index(t);
        assert forall|i: int| 0 <= i < first_user_index(ms) implies (#[trigger] ms[i]).role
            != user_role() by {
            if i > 0 {
                assert(ms[i] == t[i - 1]);
            }
        }
        if first_user_index(ms) < ms.len() {
            assert(ms[first_user_index(ms)] == t[first_user_index(t)]);
        }
    }
}

/// With a template that holds a user message, the context message goes at the index
/// `k` of the first one, and a user message comes right after it: the first user
/// message of the template, with its placeholders removed when a command is given,
/// and unchanged when no command is given and it is not the last message. The
/// messages before index `k` keep their roles. A command strips the placeholder from
/// the context message too.
pub proof fn lemma_context_at_first_user(
    ms: Seq<MessageModel>,
    context: Seq<char>,
    command: Option<Seq<char>>,
    after: Option<Seq<char>>,
)
    requires
        first_user_index(ms) < ms.len(),
    ensures
        ({
            let r = customized_messages(ms, None, Some(context), command, after);
            let k = first_user_index(ms);
            &&& r.len() >= k + 2
            &&& r[k].role == system_role()
            &&& r[k].content == (if command is Some {
                replace_all(context, placeholder(), Seq::empty())
            } else {
                context
            })
            &&& r[k + 1].role == user_role()
            &&& forall|i: int| 0 <= i < k ==> (#[trigger] r[i]).role == ms[i].role
            &&& command is Some ==> r[k + 1] == msg(
                user_role(),
                replace_all(ms[k].content, placeholder(), Seq::empty()),
            )
            &&& command is None && k + 1 < ms.len() ==> r[k + 1] == ms[k]
        }),
{
    lemma_constants();
    lemma_first_user_index(ms);
    let k = first_user_index(ms);
    let laid = insert_system_messages(ms, None, Some(context));
    assert(laid == ms.insert(k, msg(system_role(), context)));
    assert(laid.len() == ms.len() + 1);
    assert(laid[k] == msg(system_role(), context));
    assert(laid[k + 1] == ms[k]);
    assert forall|i: int| 0 <= i < k implies #[trigger] laid[i] == ms[i] by {}
    let c = add_command(laid, command);
    let rest = earlier_messages(c);
    let r = customized_messages(ms, None, Some(context), command, after);
    if command is Some {
        assert(c.last().role == user_role());
        assert(rest =~= strip_all(laid));
        assert forall|i: int| 0 <= i < k implies (#[trigger] r[i]).role == ms[i].role by {
            assert(r[i] == rest[i]);
        }
    } else {
        assert(laid.last() == ms.last());
        assert(rest.len() >= ms.len());
        assert forall|i: int| 0 <= i < k implies (#[trigger] r[i]).role == ms[i].role by {
            assert(r[i] == rest[i]);
            assert(rest[i] == laid[i]);
        }
        assert(r[k] == rest[k]);
        if k + 1 < ms.len() {
            assert(r[k + 1] == rest[k + 1]);
        }
    }
}

/// With a template whose first message is a user message, the context message comes
/// first and a user message right after it. A command strips the placeholder from the
/// context message too.
pub proof fn lemma_context_before_first_user(
    ms: Seq<MessageModel>,
    context: Seq<char>,
    command: Option<Seq<char>>,
    after: Option<Seq<char>>,
)
    requires
        ms.len() > 0,
        ms[0].role == user_role(),
    ensures
        ({
            let r = customized_messages(ms, None, Some(context), command, after);
            &&& r.len() >= 2
            &&& r[0].role == system_role()
            &&& r[0].content == (if command is Some {
                replace_all(context, placeholder(), Seq::empty())
            } else {
                context
            })
            &&& r[1].role == user_role()
        }),
{
    assert(first_user_index(ms) == 0);
    lemma_context_at_first_user(ms, context, command, after);
}

/// A temperature override of zero is stored as a value above zero and below ten to
/// the power minus ten.
pub proof fn lemma_zero_temperature(t: Temperature)
    requires
        t.is_zero(),
    ensures
        stored_temperature(t).digits > 0,
        stored_temperature(t).less_than(1, 10),
{
    reveal_with_fuel(pow10, 14);
    assert(pow10(10) == 10000000000nat);
    assert(pow10(13) == 10000000000000nat);
}

} // verus!
