//! Turning a prompt into the request body and headers that each provider expects.
use vstd::prelude::*;
use vstd::string::*;

use crate::model::{
    Api, Message, MessageModel, Prompt, Temperature, SYSTEM_ROLE, USER_ROLE, lemma_constants,
    models, msg, opt_view, system_role, user_role,
};

verus! {

/// Why a request cannot be built from the configuration at hand.
#[derive(Debug, Clone, Copy, PartialEq, Eq, Structural)]
pub enum RequestError {
    /// No model in the prompt nor as the provider's default.
    MissingModel,
    /// Anthropic needs an api version and none is configured.
    MissingVersion,
    /// The provider needs a key and none is configured.
    MissingCredential,
    /// The api is only there for tests and cannot be reached.
    UnsupportedApi,
}

/// Body of a request to an OpenAI-compatible provider.
#[derive(Debug, Clone, PartialEq)]
pub struct OpenAiPrompt {
    pub model: String,
    pub messages: Vec<Message>,
    pub temperature: Option<Temperature>,
    pub stream: Option<bool>,
}

/// Body of a request to Anthropic.
#[derive(Debug, Clone, PartialEq)]
pub struct AnthropicPrompt {
    pub model: String,
    pub messages: Vec<Message>,
    pub temperature: Option<Temperature>,
    pub max_tokens: i32,
    pub stream: Option<bool>,
}

/// A request body for either family of providers.
#[derive(Debug, Clone, PartialEq)]
pub enum WireRequest {
    OpenAi(OpenAiPrompt),
    Anthropic(AnthropicPrompt),
}

/// The answer length that Anthropic requests ask for.
pub const ANTHROPIC_MAX_TOKENS: i32 = 4096;

/// What joins two merged Anthropic messages.
pub const MERGE_SEPARATOR: &'static str = "\n\n";

/// The providers that take OpenAI-style requests.
pub open spec fn is_openai_family(api: Api) -> bool {
    match api {
        Api::Ollama | Api::Openai | Api::Mistral | Api::Groq | Api::AzureOpenai
        | Api::Cerebras => true,
        _ => false,
    }
}

/// A system message becomes a user message; others stay as they are.
pub open spec fn relabel(m: MessageModel) -> MessageModel {
    if m.role == system_role() {
        msg(user_role(), m.content)
    } else {
        m
    }
}

/// Relabels every message, then joins each run of messages with the same role
/// into one, their contents separated by a blank line.
pub open spec fn merge_turns(ms: Seq<MessageModel>) -> Seq<MessageModel>
    decreases ms.len(),
{
    if ms.len() == 0 {
        Seq::empty()
    } else {
        let acc = merge_turns(ms.drop_last());
        let m = relabel(ms.last());
        if acc.len() > 0 && acc.last().role == m.role {
            acc.update(
                acc.len() - 1,
                msg(m.role, acc.last().content + MERGE_SEPARATOR@ + m.content),
            )
        } else {
            acc.push(m)
        }
    }
}

/// No message has role "system" and no two neighbours share a role.
pub open spec fn alternating(ms: Seq<MessageModel>) -> bool {
    &&& forall|k: int| 0 <= k < ms.len() ==> ms[k].role != system_role()
    &&& forall|k: int| 0 <= k < ms.len() - 1 ==> (#[trigger] ms[k]).role != ms[k + 1].role
}

/// The number of characters over all contents.
pub open spec fn total_chars(ms: Seq<MessageModel>) -> nat
    decreases ms.len(),
{
    if ms.len() == 0 {
        0
    } else {
        total_chars(ms.drop_last()) + ms.last().content.len()
    }
}

/// The messages of an Anthropic request.
pub fn merge_messages(ms: Vec<Message>) -> (r: Vec<Message>)
    ensures
        models(r@) == merge_turns(models(ms@)),
{
    let ghost all = models(ms@);
    let mut acc: Vec<Message> = Vec::new();
    let mut i: usize = 0;
    while i < ms.len()
        invariant
            i <= ms.len(),
            all == models(ms@),
            models(acc@) == merge_turns(all.subrange(0, i as int)),
        decreases ms.len() - i,
    {
        let m = &ms[i];
        let role = if m.has_role(SYSTEM_ROLE) {
            String::from_str(USER_ROLE)
        } else {
            m.role.clone()
        };
        let ghost prefix = all.subrange(0, i + 1);
        assert(prefix.drop_last() =~= all.subrange(0, i as int));
        assert(prefix.last() == all[i as int]);
        let n = acc.len();
        if n > 0 && acc[n - 1].role == role {
            let mut last = acc.pop().unwrap();
            last.content.append(MERGE_SEPARATOR);
            last.content.append(m.content.as_str());
            let merged = Message { role, content: last.content };
            acc.push(merged);
            assert(models(acc@) =~= merge_turns(prefix));
        } else {
            let relabeled = Message { role, content: m.content.clone() };
            acc.push(relabeled);
            assert(models(acc@) =~= merge_turns(prefix));
        }
        i += 1;
    }
    assert(all.subrange(0, ms.len() as int) =~= all);
    acc
}

impl OpenAiPrompt {
    /// The request body for an OpenAI-compatible provider: the messages go as they are.
    pub fn from_prompt(prompt: Prompt) -> (r: Result<OpenAiPrompt, RequestError>)
        ensures
            prompt.model is None <==> r is Err,
            r is Err ==> r == Err::<OpenAiPrompt, RequestError>(RequestError::MissingModel),
            r matches Ok(p) ==> {
                &&& Some(p.model@) == opt_view(prompt.model)
                &&& models(p.messages@) == models(prompt.messages@)
                &&& p.temperature == prompt.temperature
                &&& p.stream == prompt.stream
            },
    {
        match prompt.model {
            Some(model) => Ok(
                OpenAiPrompt {
                    model,
                    messages: prompt.messages,
                    temperature: prompt.temperature,
                    stream: prompt.stream,
                },
            ),
            None => Err(RequestError::MissingModel),
        }
    }
}

impl AnthropicPrompt {
    /// The request body for Anthropic: system messages become user messages and
    /// neighbours with the same role are merged.
    pub fn from_prompt(prompt: Prompt) -> (r: Result<AnthropicPrompt, RequestError>)
        ensures
            prompt.model is None <==> r is Err,
            r is Err ==> r == Err::<AnthropicPrompt, RequestError>(RequestError::MissingModel),
            r matches Ok(p) ==> {
                &&& Some(p.model@) == opt_view(prompt.model)
                &&& models(p.messages@) == merge_turns(models(prompt.messages@))
                &&& p.temperature == prompt.temperature
                &&& p.max_tokens == ANTHROPIC_MAX_TOKENS
                &&& p.stream == prompt.stream
            },
    {
        match prompt.model {
            Some(model) => Ok(
                AnthropicPrompt {
                    model,
                    messages: merge_messages(prompt.messages),
                    temperature: prompt.temperature,
                    max_tokens: ANTHROPIC_MAX_TOKENS,
                    stream: prompt.stream,
                },
            ),
            None => Err(RequestError::MissingModel),
        }
    }
}

/// The request body for the provider that `prompt` names.
pub fn to_wire_request(prompt: Prompt) -> (r: Result<WireRequest, RequestError>)
    ensures
        prompt.api == Api::AnotherApiForTests ==> r == Err::<WireRequest, RequestError>(
            RequestError::UnsupportedApi,
        ),
        prompt.api != Api::AnotherApiForTests && prompt.model is None ==> r == Err::<
            WireRequest,
            RequestError,
        >(RequestError::MissingModel),
        prompt.api != Api::AnotherApiForTests && prompt.model is Some ==> r is Ok,
        r matches Ok(WireRequest::OpenAi(p)) ==> {
            &&& is_openai_family(prompt.api)
            &&& Some(p.model@) == opt_view(prompt.model)
            &&& models(p.messages@) == models(prompt.messages@)
            &&& p.temperature == prompt.temperature
            &&& p.stream == prompt.stream
        },
        r matches Ok(WireRequest::Anthropic(p)) ==> {
            &&& prompt.api == Api::Anthropic
            &&& Some(p.model@) == opt_view(prompt.model)
            &&& models(p.messages@) == merge_turns(models(prompt.messages@))
            &&& p.temperature == prompt.temperature
            &&& p.max_tokens == ANTHROPIC_MAX_TOKENS
            &&& p.stream == prompt.stream
        },
{
    match prompt.api {
        Api::AnotherApiForTests => Err(RequestError::UnsupportedApi),
        Api::Anthropic => match AnthropicPrompt::from_prompt(prompt) {
            Ok(p) => Ok(WireRequest::Anthropic(p)),
            Err(e) => Err(e),
        },
        _ => match OpenAiPrompt::from_prompt(prompt) {
            Ok(p) => Ok(WireRequest::OpenAi(p)),
            Err(e) => Err(e),
        },
    }
}

/// A header of an HTTP request: its name and its value.
pub struct Header {
    pub name: String,
    pub value: String,
}

pub open spec fn header_model(h: Header) -> (Seq<char>, Seq<char>) {
    (h.name@, h.value@)
}

/// The authentication headers that `api` expects.
pub open spec fn auth_headers(api: Api, key: Option<Seq<char>>, version: Option<Seq<char>>) -> Result<
    Seq<(Seq<char>, Seq<char>)>,
    RequestError,
> {
    match api {
        Api::AnotherApiForTests => Err(RequestError::UnsupportedApi),
        Api::Ollama => Ok(Seq::empty()),
        Api::Anthropic => match (key, version) {
            (None, _) => Err(RequestError::MissingCredential),
            (Some(_), None) => Err(RequestError::MissingVersion),
            (Some(k), Some(v)) => Ok(seq![("x-api-key"@, k), ("anthropic-version"@, v)]),
        },
        _ => match key {
            None => Err(RequestError::MissingCredential),
            Some(k) => Ok(seq![("Authorization"@, "Bearer "@ + k)]),
        },
    }
}

/// The authentication headers of a request to `api`, from its key and, for
/// Anthropic, its api version. Ollama takes none.
pub fn request_headers(api: Api, api_key: Option<String>, version: Option<String>) -> (r: Result<
    Vec<Header>,
    RequestError,
>)
    ensures
        match auth_headers(api, opt_view(api_key), opt_view(version)) {
            Ok(hs) => r matches Ok(v) && v@.map_values(|h: Header| header_model(h)) == hs,
            Err(e) => r == Err::<Vec<Header>, RequestError>(e),
        },
{
    let mut headers: Vec<Header> = Vec::new();
    match api {
        Api::AnotherApiForTests => {
            return Err(RequestError::UnsupportedApi);
        },
        Api::Ollama => {},
        Api::Anthropic => {
            let key = match api_key {
                Some(k) => k,
                None => {
                    return Err(RequestError::MissingCredential);
                },
            };
            let version = match version {
                Some(v) => v,
                None => {
                    return Err(RequestError::MissingVersion);
                },
            };
            headers.push(Header { name: String::from_str("x-api-key"), value: key });
            headers.push(Header { name: String::from_str("anthropic-version"), value: version });
        },
        _ => {
            let key = match api_key {
                Some(k) => k,
                None => {
                    return Err(RequestError::MissingCredential);
                },
            };
            let mut value = String::from_str("Bearer ");
            value.append(key.as_str());
            headers.push(Header { name: String::from_str("Authorization"), value });
        },
    }
    proof {
        let hs = headers@.map_values(|h: Header| header_model(h));
        match auth_headers(api, opt_view(api_key), opt_view(version)) {
            Ok(want) => {
                assert(hs =~= want);
            },
            Err(_) => {},
        }
    }
    Ok(headers)
}

proof fn lemma_separator_len()
    ensures
        MERGE_SEPARATOR@.len() == 2,
{
    reveal_strlit("\n\n");
}

/// Merging two neighbours with the same role after relabeling gives one message whose
/// content is both contents joined by the separator: their lengths plus two.
pub proof fn lemma_merge_pair(a: MessageModel, b: MessageModel)
    requires
        relabel(a).role == relabel(b).role,
    ensures
        merge_turns(seq![a, b]) == seq![
            msg(relabel(a).role, a.content + MERGE_SEPARATOR@ + b.content),
        ],
        (a.content + MERGE_SEPARATOR@ + b.content).len() == a.content.len() + b.content.len()
            + 2,
{
    lemma_separator_len();
    let ab = seq![a, b];
    assert(ab.drop_last() =~= seq![a]);
    assert(seq![a].drop_last() =~= Seq::<MessageModel>::empty());
    assert(merge_turns(Seq::<MessageModel>::empty()) =~= Seq::<MessageModel>::empty());
    assert(seq![a].last() == a);
    assert(merge_turns(seq![a]) =~= seq![relabel(a)]);
    assert(merge_turns(ab) =~= seq![
        msg(relabel(a).role, a.content + MERGE_SEPARATOR@ + b.content),
    ]);
}

/// Merging loses no character: each join of two messages adds the two characters of
/// the separator and nothing else.
pub proof fn lemma_merge_keeps_characters(ms: Seq<MessageModel>)
    ensures
        merge_turns(ms).len() <= ms.len(),
        total_chars(merge_turns(ms)) == total_chars(ms) + 2 * (ms.len() - merge_turns(
            ms,
        ).len()),
    decreases ms.len(),
{
    if ms.len() > 0 {
        lemma_separator_len();
        lemma_merge_keeps_characters(ms.drop_last());
        let acc = merge_turns(ms.drop_last());
        let m = relabel(ms.last());
        if acc.len() > 0 && acc.last().role == m.role {
            let joined = msg(m.role, acc.last().content + MERGE_SEPARATOR@ + m.content);
            let r = acc.update(acc.len() - 1, joined);
            assert(r.drop_last() =~= acc.drop_last());
            assert(total_chars(acc) == total_chars(acc.drop_last()) + acc.last().content.len());
        } else {
            assert(acc.push(m).drop_last() =~= acc);
        }
    }
}

/// Merging leaves no system message and no two neighbours with the same role.
pub proof fn lemma_merge_alternates(ms: Seq<MessageModel>)
    ensures
        alternating(merge_turns(ms)),
    decreases ms.len(),
{
    lemma_constants();
    if ms.len() > 0 {
        lemma_merge_alternates(ms.drop_last());
        let acc = merge_turns(ms.drop_last());
        let m = relabel(ms.last());
        let r = merge_turns(ms);
        if acc.len() > 0 && acc.last().role == m.role {
            assert forall|k: int| 0 <= k < r.len() implies r[k].role == acc[k].role by {}
            assert forall|k: int| 0 <= k < r.len() - 1 implies (#[trigger] r[k]).role != r[k
                + 1].role by {
                assert(r[k].role == acc[k].role);
                assert(r[k + 1].role == acc[k + 1].role);
            }
        } else {
            assert forall|k: int| 0 <= k < r.len() - 1 implies (#[trigger] r[k]).role != r[k
                + 1].role by {
                if k < r.len() - 2 {
                    assert(r[k] == acc[k]);
                    assert(r[k + 1] == acc[k + 1]);
                }
            }
        }
    }
}

/// A list that already alternates, with no system message, is left as it is.
pub proof fn lemma_merge_alternating_is_identity(ms: Seq<MessageModel>)
    requires
        alternating(ms),
    ensures
        merge_turns(ms) == ms,
    decreases ms.len(),
{
    if ms.len() > 0 {
        let init = ms.drop_last();
        assert forall|k: int| 0 <= k < init.len() - 1 implies (#[trigger] init[k]).role != init[k
            + 1].role by {
            assert(init[k] == ms[k]);
            assert(init[k + 1] == ms[k + 1]);
        }
        lemma_merge_alternating_is_identity(init);
        assert(ms.last().role != system_role());
        if init.len() > 0 {
            assert(init.last() == ms[ms.len() - 2]);
        }
        assert(init.push(ms.last()) =~= ms);
    }
}

/// Merging twice gives what merging once gives.
pub proof fn lemma_merge_idempotent(ms: Seq<MessageModel>)
    ensures
        merge_turns(merge_turns(ms)) == merge_turns(ms),
{
    lemma_merge_alternates(ms);
    lemma_merge_alternating_is_identity(merge_turns(ms));
}

/// No message of an Anthropic request has role "system": each one was relabeled.
pub proof fn lemma_no_system_role_for_anthropic(ms: Seq<MessageModel>)
    ensures
        forall|k: int|
            0 <= k < merge_turns(ms).len() ==> (#[trigger] merge_turns(ms)[k]).role
                != system_role(),
        forall|m: MessageModel| m.role == system_role() ==> (#[trigger] relabel(m)).role
            == user_role(),
{
    lemma_merge_alternates(ms);
}

} // verus!
