use smartcat::adapters::{
    merge_messages, request_headers, to_wire_request, AnthropicPrompt, OpenAiPrompt,
    RequestError, WireRequest, ANTHROPIC_MAX_TOKENS,
};
use smartcat::model::{Api, Message, Prompt, Temperature};

fn prompt_with(api: Api, messages: Vec<Message>) -> Prompt {
    let mut prompt = Prompt::empty();
    prompt.api = api;
    prompt.model = Some("m".to_owned());
    prompt.messages = messages;
    prompt
}

#[test]
fn openai_request_keeps_messages_unchanged() {
    let messages = vec![
        Message::system("s"),
        Message::user("u"),
        Message::assistant("a"),
        Message::user("v"),
    ];
    let mut prompt = prompt_with(Api::Openai, messages.clone());
    prompt.temperature = Some(Temperature { digits: 7, scale: 1 });
    prompt.stream = Some(false);

    let body = OpenAiPrompt::from_prompt(prompt).unwrap();
    assert_eq!(body.model, "m");
    assert_eq!(body.messages, messages);
    assert_eq!(body.temperature, Some(Temperature { digits: 7, scale: 1 }));
    assert_eq!(body.stream, Some(false));
}

#[test]
fn anthropic_request_relabels_and_merges() {
    let prompt = prompt_with(
        Api::Anthropic,
        vec![
            Message::system("sys"),
            Message::user("hello"),
            Message::assistant("hi"),
            Message::user("a"),
            Message::user("b"),
        ],
    );

    let body = AnthropicPrompt::from_prompt(prompt).unwrap();
    assert_eq!(body.max_tokens, 4096);
    assert_eq!(body.max_tokens, ANTHROPIC_MAX_TOKENS);
    assert_eq!(
        body.messages,
        vec![
            Message::user("sys\n\nhello"),
            Message::assistant("hi"),
            Message::user("a\n\nb"),
        ]
    );
}

#[test]
fn merged_length_is_sum_plus_separator() {
    let a = Message::user("abc");
    let b = Message::system("de");
    let merged = merge_messages(vec![a.clone(), b.clone()]);
    assert_eq!(merged.len(), 1);
    assert_eq!(
        merged[0].content.chars().count(),
        a.content.chars().count() + b.content.chars().count() + 2
    );
}

#[test]
fn merging_alternating_messages_changes_nothing() {
    let messages = vec![
        Message::user("q1"),
        Message::assistant("r1"),
        Message::user("q2"),
    ];
    assert_eq!(merge_messages(messages.clone()), messages);
    let once = merge_messages(vec![
        Message::system("x"),
        Message::user("y"),
        Message::assistant("z"),
    ]);
    assert_eq!(merge_messages(once.clone()), once);
}

#[test]
fn anthropic_messages_have_no_system_role() {
    let merged = merge_messages(vec![
        Message::assistant("a"),
        Message::system("s"),
        Message::assistant("b"),
    ]);
    assert!(merged.iter().all(|m| m.role != "system"));
    assert_eq!(merged[1], Message::user("s"));
}

#[test]
fn missing_model_is_a_configuration_error() {
    let mut prompt = prompt_with(Api::Openai, vec![Message::user("u")]);
    prompt.model = None;
    assert_eq!(
        to_wire_request(prompt.clone()).unwrap_err(),
        RequestError::MissingModel
    );
    prompt.api = Api::Anthropic;
    assert_eq!(
        AnthropicPrompt::from_prompt(prompt).unwrap_err(),
        RequestError::MissingModel
    );
}

#[test]
fn wire_request_follows_the_api() {
    let messages = vec![Message::system("s"), Message::user("u")];
    match to_wire_request(prompt_with(Api::Ollama, messages.clone())).unwrap() {
        WireRequest::OpenAi(p) => assert_eq!(p.messages, messages),
        WireRequest::Anthropic(_) => panic!("ollama takes openai requests"),
    }
    match to_wire_request(prompt_with(Api::Anthropic, messages.clone())).unwrap() {
        WireRequest::Anthropic(p) => assert_eq!(p.messages, vec![Message::user("s\n\nu")]),
        WireRequest::OpenAi(_) => panic!("anthropic takes its own requests"),
    }
    assert_eq!(
        to_wire_request(prompt_with(Api::AnotherApiForTests, messages)).unwrap_err(),
        RequestError::UnsupportedApi
    );
}

#[test]
fn headers_per_provider() {
    let bearer = request_headers(Api::Openai, Some("k".to_owned()), None).unwrap();
    assert_eq!(bearer.len(), 1);
    assert_eq!(bearer[0].name, "Authorization");
    assert_eq!(bearer[0].value, "Bearer k");

    let anthropic = request_headers(
        Api::Anthropic,
        Some("k".to_owned()),
        Some("2023-06-01".to_owned()),
    )
    .unwrap();
    assert_eq!(anthropic.len(), 2);
    assert_eq!(anthropic[0].name, "x-api-key");
    assert_eq!(anthropic[0].value, "k");
    assert_eq!(anthropic[1].name, "anthropic-version");
    assert_eq!(anthropic[1].value, "2023-06-01");

    assert!(request_headers(Api::Ollama, None, None).unwrap().is_empty());
}

#[test]
fn header_errors() {
    assert_eq!(
        request_headers(Api::Anthropic, Some("k".to_owned()), None).err(),
        Some(RequestError::MissingVersion)
    );
    assert_eq!(
        request_headers(Api::Groq, None, None).err(),
        Some(RequestError::MissingCredential)
    );
    assert_eq!(
        request_headers(Api::AnotherApiForTests, None, None).err(),
        Some(RequestError::UnsupportedApi)
    );
}
