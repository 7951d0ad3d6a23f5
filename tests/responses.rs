use smartcat::model::{Api, Message};
use smartcat::responses::{
    check_status, reply_message, response_format, AnthropicMessage, AnthropicResponse,
    MessageWrapper, OllamaResponse, OpenAiResponse, ResponseError, ResponseFormat, WireResponse,
};

#[test]
fn openai_reply_takes_first_choice() {
    let resp = OpenAiResponse {
        choices: vec![
            MessageWrapper { message: Message::assistant("first") },
            MessageWrapper { message: Message::assistant("second") },
        ],
    };
    assert_eq!(
        reply_message(WireResponse::OpenAi(resp)).unwrap(),
        Message::assistant("first")
    );
}

#[test]
fn anthropic_reply_takes_first_block() {
    let resp = AnthropicResponse {
        content: vec![AnthropicMessage {
            text: "hello".to_owned(),
            _type: "text".to_owned(),
        }],
    };
    assert_eq!(
        reply_message(WireResponse::Anthropic(resp)).unwrap(),
        Message::assistant("hello")
    );
}

#[test]
fn ollama_reply_becomes_assistant_message() {
    let resp = OllamaResponse { message: Message::user("content") };
    assert_eq!(
        reply_message(WireResponse::Ollama(resp)).unwrap(),
        Message::assistant("content")
    );
}

#[test]
fn empty_replies_are_errors() {
    assert_eq!(
        reply_message(WireResponse::OpenAi(OpenAiResponse { choices: vec![] })).unwrap_err(),
        ResponseError::NoChoice
    );
    assert_eq!(
        reply_message(WireResponse::Anthropic(AnthropicResponse { content: vec![] }))
            .unwrap_err(),
        ResponseError::NoContent
    );
}

#[test]
fn status_outside_success_carries_code_and_body() {
    assert_eq!(check_status(200, "ok".to_owned()), Ok("ok".to_owned()));
    assert_eq!(check_status(299, "ok".to_owned()), Ok("ok".to_owned()));
    assert_eq!(
        check_status(401, "bad key".to_owned()),
        Err(ResponseError::Status { code: 401, body: "bad key".to_owned() })
    );
    assert!(check_status(300, String::new()).is_err());
}

#[test]
fn reply_shape_per_api() {
    assert_eq!(response_format(Api::Ollama), Some(ResponseFormat::Ollama));
    assert_eq!(response_format(Api::Anthropic), Some(ResponseFormat::Anthropic));
    assert_eq!(response_format(Api::Groq), Some(ResponseFormat::OpenAi));
    assert_eq!(response_format(Api::AnotherApiForTests), None);
}
