//! Reading the reply of each provider into one assistant message.
use vstd::prelude::*;
use vstd::string::*;

use crate::model::{Api, Message, assistant_role, msg};

verus! {

/// One choice of an OpenAI-style reply.
#[derive(Debug, Clone, PartialEq, Eq)]
pub struct MessageWrapper {
    pub message: Message,
}

/// The reply of an OpenAI-compatible provider.
#[derive(Debug, Clone, PartialEq, Eq)]
pub struct OpenAiResponse {
    pub choices: Vec<MessageWrapper>,
}

/// One block of an Anthropic reply.
#[derive(Debug, Clone, PartialEq, Eq)]
pub struct AnthropicMessage {
    pub text: String,
    pub _type: String,
}

/// The reply of Anthropic.
#[derive(Debug, Clone, PartialEq, Eq)]
pub struct AnthropicResponse {
    pub content: Vec<AnthropicMessage>,
}

/// The reply of Ollama.
#[derive(Debug, Clone, PartialEq, Eq)]
pub struct OllamaResponse {
    pub message: Message,
}

/// A reply of any provider.
#[derive(Debug, Clone, PartialEq, Eq)]
pub enum WireResponse {
    OpenAi(OpenAiResponse),
    Anthropic(AnthropicResponse),
    Ollama(OllamaResponse),
}

/// The shape of the reply that a provider sends.
#[derive(Debug, Clone, Copy, PartialEq, Eq, Structural)]
pub enum ResponseFormat {
    OpenAi,
    Anthropic,
    Ollama,
}

/// Why a reply could not be read.
#[derive(Debug, Clone, PartialEq, Eq)]
pub enum ResponseError {
    /// The provider answered with a status outside 200 to 299.
    Status { code: u16, body: String },
    /// An OpenAI-style reply without any choice.
    NoChoice,
    /// An Anthropic reply without any content block.
    NoContent,
}

/// The shape of reply to expect from `api`; the test-only api sends none.
pub fn response_format(api: Api) -> (r: Option<ResponseFormat>)
    ensures
        api == Api::AnotherApiForTests <==> r is None,
        api == Api::Ollama <==> r == Some(ResponseFormat::Ollama),
        api == Api::Anthropic <==> r == Some(ResponseFormat::Anthropic),
{
    match api {
        Api::AnotherApiForTests => None,
        Api::Ollama => Some(ResponseFormat::Ollama),
        Api::Anthropic => Some(ResponseFormat::Anthropic),
        _ => Some(ResponseFormat::OpenAi),
    }
}

pub open spec fn is_success(code: u16) -> bool {
    200 <= code <= 299
}

/// The body of a successful reply; any other status is an error carrying the status
/// and the body.
pub fn check_status(code: u16, body: String) -> (r: Result<String, ResponseError>)
    ensures
        is_success(code) ==> r == Ok::<String, ResponseError>(body),
        !is_success(code) ==> r == Err::<String, ResponseError>(
            ResponseError::Status { code, body },
        ),
{
    if 200 <= code && code <= 299 {
        Ok(body)
    } else {
        Err(ResponseError::Status { code, body })
    }
}

impl OpenAiResponse {
    /// The content of the first choice.
    pub fn into_text(self) -> (r: Result<String, ResponseError>)
        ensures
            self.choices@.len() == 0 ==> r == Err::<String, ResponseError>(
                ResponseError::NoChoice,
            ),
            self.choices@.len() > 0 ==> (r matches Ok(t) && t@
                == self.choices@[0].message.content@),
    {
        if self.choices.len() == 0 {
            return Err(ResponseError::NoChoice);
        }
        Ok(self.choices[0].message.content.clone())
    }
}

impl AnthropicResponse {
    /// The text of the first content block.
    pub fn into_text(self) -> (r: Result<String, ResponseError>)
        ensures
            self.content@.len() == 0 ==> r == Err::<String, ResponseError>(
                ResponseError::NoContent,
            ),
            self.content@.len() > 0 ==> (r matches Ok(t) && t@ == self.content@[0].text@),
    {
        if self.content.len() == 0 {
            return Err(ResponseError::NoContent);
        }
        Ok(self.content[0].text.clone())
    }
}

impl OllamaResponse {
    /// The content of the message.
    pub fn into_text(self) -> (r: String)
        ensures
            r@ == self.message.content@,
    {
        self.message.content
    }
}

/// The text that a reply carries, if it carries any.
pub open spec fn reply_text(resp: WireResponse) -> Option<Seq<char>> {
    match resp {
        WireResponse::OpenAi(o) => if o.choices@.len() > 0 {
            Some(o.choices@[0].message.content@)
        } else {
            None
        },
        WireResponse::Anthropic(a) => if a.content@.len() > 0 {
            Some(a.content@[0].text@)
        } else {
            None
        },
        WireResponse::Ollama(o) => Some(o.message.content@),
    }
}

/// The assistant message that a reply carries.
pub fn reply_message(resp: WireResponse) -> (r: Result<Message, ResponseError>)
    ensures
        match reply_text(resp) {
            Some(t) => r matches Ok(m) && m@ == msg(assistant_role(), t),
            None => r is Err,
        },
        (resp matches WireResponse::OpenAi(_)) && r is Err ==> r == Err::<
            Message,
            ResponseError,
        >(ResponseError::NoChoice),
        (resp matches WireResponse::Anthropic(_)) && r is Err ==> r == Err::<
            Message,
            ResponseError,
        >(ResponseError::NoContent),
{
    let text = match resp {
        WireResponse::OpenAi(o) => o.into_text(),
        WireResponse::Anthropic(a) => a.into_text(),
        WireResponse::Ollama(o) => Ok(o.into_text()),
    };
    match text {
        Ok(t) => Ok(Message::assistant(t.as_str())),
        Err(e) => Err(e),
    }
}

} // verus!
