use smartcat::customize::{context_content, customize_prompt, ContextFile, PromptParams};
use smartcat::model::{Api, Message, Prompt, Temperature, PLACEHOLDER_TOKEN};

fn context_file(path: &str, content: &str) -> ContextFile {
    ContextFile {
        path: path.to_owned(),
        content: content.to_owned(),
    }
}

#[test]
fn prompt_customization_test_customize_prompt_empty_no_overrides() {
    let prompt = Prompt::default();
    let prompt_params = PromptParams::default();

    let customized = customize_prompt(prompt, &prompt_params, None);
    let default_prompt = Prompt::empty();

    assert_eq!(customized.api, default_prompt.api);
    assert_eq!(customized.model, default_prompt.model);
    assert_eq!(customized.temperature, default_prompt.temperature);
    assert_eq!(
        customized.messages,
        vec![
            Prompt::default().messages.first().unwrap().to_owned(),
            Message::user(PLACEHOLDER_TOKEN)
        ]
    );
    assert!(
        customized
            .messages
            .last()
            .unwrap()
            .content
            .contains(PLACEHOLDER_TOKEN),
        "The last message should contain the placeholder."
    );
}

#[test]
fn prompt_customization_test_customize_prompt_api_override() {
    let prompt = Prompt::empty();
    let prompt_params = PromptParams {
        api: Some(Api::AnotherApiForTests),
        ..PromptParams::default()
    };

    let customized = customize_prompt(prompt, &prompt_params, None);
    let default_prompt = Prompt::empty();

    assert_eq!(customized.api, Api::AnotherApiForTests);
    assert_eq!(customized.model, default_prompt.model);
}

#[test]
fn prompt_customization_test_customize_prompt_model_override() {
    let prompt = Prompt::empty();
    let prompt_params = PromptParams {
        model: Some("test_model".to_owned()),
        ..PromptParams::default()
    };

    let customized = customize_prompt(prompt, &prompt_params, None);

    let default_prompt = Prompt::empty();
    assert_eq!(customized.model, prompt_params.model);
    assert_eq!(customized.api, default_prompt.api);
}

#[test]
fn prompt_customization_test_customize_prompt_command_insertion() {
    let prompt = Prompt::empty();
    let prompt_params = PromptParams::default();
    let custom_prompt = Some("test_command".to_owned());

    let customized = customize_prompt(prompt, &prompt_params, custom_prompt);

    assert!(customized
        .messages
        .iter()
        .any(|m| m.content.contains("test_command")));
}

#[test]
fn prompt_customization_test_customize_prompt_system_message_insertion() {
    let prompt = Prompt::empty();
    let prompt_params = PromptParams {
        system_message: Some("system message".to_owned()),
        ..PromptParams::default()
    };

    let customized = customize_prompt(prompt, &prompt_params, None);

    assert_eq!(
        customized.messages[0].content,
        prompt_params.system_message.unwrap(),
        "{:?}",
        customized.messages
    );
    assert_eq!(
        customized.messages[0].role,
        Message::system("").role,
        "{:?}",
        customized.messages
    );
}

#[test]
fn prompt_customization_test_customize_prompt_system_message_insertion_with_user_message() {
    let mut prompt = Prompt::empty();
    prompt.messages.push(Message::user("user message"));
    let prompt_params = PromptParams {
        system_message: Some("system message".to_owned()),
        ..PromptParams::default()
    };

    let customized = customize_prompt(prompt, &prompt_params, None);

    assert_eq!(
        customized.messages[0].content,
        prompt_params.system_message.unwrap(),
        "{:?}",
        customized.messages
    );
    assert_eq!(
        customized.messages[0].role,
        Message::system("").role,
        "{:?}",
        customized.messages
    );
}

#[test]
fn test_customize_prompt_with_context_file() {
    let prompt = Prompt::empty();
    let context_content = "hello there".to_owned();
    let path = "/tmp/context_file.txt";

    let prompt_params = PromptParams {
        context: vec![context_file(path, &context_content)],
        ..PromptParams::default()
    };

    let customized = customize_prompt(prompt, &prompt_params, None);

    assert_eq!(
        customized.messages[0].content,
        format!(
            "files content for context:\n\n{}:\n```\n{}\n```\n",
            path, context_content
        )
    );
    assert_eq!(customized.messages[0].role, "system");
}

#[test]
fn test_customize_prompt_temperature_override() {
    let prompt = Prompt::empty();
    let prompt_params = PromptParams {
        temperature: Some(Temperature::whole(42)),
        ..PromptParams::default()
    };

    let customized = customize_prompt(prompt, &prompt_params, None);

    assert_eq!(customized.temperature, Some(Temperature::whole(42)));
}

#[test]
fn prompt_customization_test_customize_prompt_after_input_insertion() {
    let mut prompt = Prompt::empty();
    prompt
        .messages
        .push(Message::user(&format!("command {}", PLACEHOLDER_TOKEN)));

    let prompt_params = PromptParams {
        after_input: Some("-- after input".to_owned()),
        ..PromptParams::default()
    };

    let customized = customize_prompt(prompt, &prompt_params, None);

    let last_message_content = &customized.messages.last().unwrap().content;
    assert!(
        last_message_content.ends_with("-- after input"),
        "The last message should end with the after input text. Got {}",
        &last_message_content
    )
}

#[test]
fn prompt_customization_test_customize_prompt_with_all_overrides() {
    let prompt = Prompt::empty();
    let context_content = "hello there".to_owned();
    let path = "/tmp/context_file.txt";

    let prompt_params = PromptParams {
        api: Some(Api::AnotherApiForTests),
        model: Some("test_model_override".to_owned()),
        context: vec![context_file(path, &context_content)],
        after_input: Some(" test_after_input_override".to_owned()),
        system_message: Some("system message override".to_owned()),
        temperature: Some(Temperature::whole(42)),
        char_limit: None,
    };
    let custom_prompt = Some("test_command_override".to_owned());

    let customized = customize_prompt(prompt, &prompt_params, custom_prompt.clone());

    assert_eq!(customized.api, prompt_params.api.unwrap());
    assert!(customized
        .messages
        .iter()
        .any(|m| m.content.contains(custom_prompt.as_ref().unwrap())));
    assert_eq!(
        customized.messages[0].content,
        prompt_params.system_message.clone().unwrap()
    );
    assert_eq!(customized.messages[0].role, "system");

    assert_eq!(customized.model, prompt_params.model);
    assert_eq!(customized.temperature, prompt_params.temperature);
    assert_eq!(
        customized.messages[1].content,
        format!(
            "files content for context:\n\n{}:\n```\n{}\n```\n",
            path, context_content
        )
    );
    assert_eq!(customized.messages[1].role, "system");
    assert!(
        customized
            .messages
            .last()
            .unwrap()
            .content
            .ends_with(prompt_params.after_input.as_ref().unwrap()),
        "The last message should end with the after input text."
    );
}

#[test]
fn cutsom_prompt_test_customize_prompt_empty_no_overrides() {
    let prompt = Prompt::empty();

    let customized = customize_prompt(prompt, &PromptParams::default(), None);
    let default_prompt = Prompt::empty();

    assert_eq!(customized.api, default_prompt.api);
    assert_eq!(customized.model, default_prompt.model);
    assert_eq!(customized.messages, vec![Message::user(PLACEHOLDER_TOKEN)]);
}

#[test]
fn cutsom_prompt_test_customize_prompt_api_override() {
    let prompt = Prompt::empty();
    let api = Api::AnotherApiForTests;
    let params = PromptParams {
        api: Some(api),
        ..PromptParams::default()
    };

    let customized = customize_prompt(prompt, &params, None);
    let default_prompt = Prompt::empty();

    assert_eq!(customized.api, Api::AnotherApiForTests);
    assert_eq!(customized.model, default_prompt.model);
}

#[test]
fn cutsom_prompt_test_customize_prompt_model_override() {
    let prompt = Prompt::empty();
    let model = "test_model".to_owned();
    let params = PromptParams {
        model: Some(model.clone()),
        ..PromptParams::default()
    };

    let customized = customize_prompt(prompt, &params, None);

    let default_prompt = Prompt::empty();
    assert_eq!(customized.model, Some(model));
    assert_eq!(customized.api, default_prompt.api);
}

#[test]
fn cutsom_prompt_test_customize_prompt_command_insertion() {
    let prompt = Prompt::empty();
    let command = "test_command".to_owned();

    let customized = customize_prompt(prompt, &PromptParams::default(), Some(command.clone()));

    assert!(customized
        .messages
        .iter()
        .any(|m| m.content.contains(&command)));
}

#[test]
fn cutsom_prompt_test_customize_prompt_system_message_insertion() {
    let prompt = Prompt::empty();
    let system_message = "system message".to_owned();
    let params = PromptParams {
        system_message: Some(system_message.clone()),
        ..PromptParams::default()
    };

    let customized = customize_prompt(prompt, &params, None);

    assert_eq!(
        customized.messages[0].content, system_message,
        "{:?}",
        customized.messages
    );
    assert_eq!(
        customized.messages[0].role, "system",
        "{:?}",
        customized.messages
    );
}

#[test]
fn cutsom_prompt_test_customize_prompt_after_input_insertion() {
    let mut prompt = Prompt::empty();
    let after_input = " after input".to_owned();
    prompt
        .messages
        .push(Message::user(&format!("command {}", PLACEHOLDER_TOKEN)));
    let params = PromptParams {
        after_input: Some(after_input.clone()),
        ..PromptParams::default()
    };

    let customized = customize_prompt(prompt, &params, None);

    let last_message_content = &customized.messages.last().unwrap().content;
    assert!(
        last_message_content.ends_with(&after_input),
        "The last message should end with the after input text. Got {}",
        &last_message_content
    )
}

#[test]
fn test_customize_prompt_placeholder_existence() {
    let prompt = Prompt::empty();

    let customized = customize_prompt(prompt, &PromptParams::default(), None);

    assert!(
        customized
            .messages
            .last()
            .unwrap()
            .content
            .contains(PLACEHOLDER_TOKEN),
        "The last message should contain the placeholder."
    );
}

#[test]
fn cutsom_prompt_test_customize_prompt_with_all_overrides() {
    let prompt = Prompt::empty();
    let api = Api::AnotherApiForTests;
    let model = "test_model_override".to_owned();
    let command = "test_command_override".to_owned();
    let after_input = " test_after_input_override".to_owned();
    let system_message = "system message override".to_owned();
    let params = PromptParams {
        api: Some(api),
        model: Some(model.clone()),
        after_input: Some(after_input.clone()),
        system_message: Some(system_message.clone()),
        context: vec![context_file("/tmp/context_file.txt", "hello there")],
        ..PromptParams::default()
    };

    let customized = customize_prompt(prompt, &params, Some(command.clone()));

    assert_eq!(customized.api, api);
    assert_eq!(customized.model, Some(model));
    assert!(customized
        .messages
        .iter()
        .any(|m| m.content.contains(&command)));
    assert_eq!(customized.messages[0].content, system_message);
    assert_eq!(customized.messages[0].role, "system");
    assert!(
        customized
            .messages
            .last()
            .unwrap()
            .content
            .ends_with(&after_input),
        "The last message should end with the after input text."
    );
}

fn placeholder_count(messages: &[Message]) -> usize {
    messages
        .iter()
        .filter(|m| m.content.contains(PLACEHOLDER_TOKEN))
        .count()
}

#[test]
fn single_placeholder_after_customization() {
    let mut prompt = Prompt::empty();
    prompt.messages.push(Message::system("rules"));
    prompt.messages.push(Message::user("first #[<input>]"));
    prompt.messages.push(Message::assistant("answer"));
    let params = PromptParams {
        system_message: Some("be brief".to_owned()),
        context: vec![context_file("a.txt", "alpha")],
        ..PromptParams::default()
    };

    let customized = customize_prompt(prompt.clone(), &params, Some("next".to_owned()));
    assert_eq!(placeholder_count(&customized.messages), 1);
    let last = customized.messages.last().unwrap();
    assert_eq!(last.role, "user");
    assert_eq!(last.content, "next#[<input>]");

    let mut without_command = prompt;
    without_command.messages[1] = Message::user("first");
    let customized = customize_prompt(without_command, &params, None);
    assert_eq!(placeholder_count(&customized.messages), 1);
    assert_eq!(customized.messages.last().unwrap(), &Message::user(PLACEHOLDER_TOKEN));
}

#[test]
fn context_goes_right_before_first_user_message() {
    let mut prompt = Prompt::empty();
    prompt.messages.push(Message::user("question"));
    prompt.messages.push(Message::assistant("answer"));
    prompt.messages.push(Message::user("more"));
    let params = PromptParams {
        context: vec![context_file("a.txt", "alpha"), context_file("b.txt", "beta")],
        ..PromptParams::default()
    };

    let customized = customize_prompt(prompt, &params, None);
    assert_eq!(
        customized.messages[0],
        Message::system(
            "files content for context:\n\na.txt:\n```\nalpha\n```\nb.txt:\n```\nbeta\n```\n"
        )
    );
    assert_eq!(customized.messages[1], Message::user("question"));
    assert_eq!(customized.messages[3], Message::user("more#[<input>]"));
}

#[test]
fn context_goes_after_earlier_system_messages() {
    let prompt = Prompt::default();
    let params = PromptParams {
        context: vec![context_file("a.txt", "alpha")],
        ..PromptParams::default()
    };

    let customized = customize_prompt(prompt, &params, None);
    assert_eq!(customized.messages.len(), 3);
    assert_eq!(customized.messages[0], Prompt::default().messages[0]);
    assert_eq!(
        customized.messages[1].content,
        "files content for context:\n\na.txt:\n```\nalpha\n```\n"
    );
    assert_eq!(customized.messages[2], Message::user(PLACEHOLDER_TOKEN));
}

#[test]
fn no_context_files_means_no_context_message() {
    assert_eq!(context_content(&Vec::new()), None);
}

#[test]
fn zero_temperature_is_stored_as_tiny_positive_value() {
    let params = PromptParams {
        temperature: Some(Temperature::whole(0)),
        ..PromptParams::default()
    };

    let customized = customize_prompt(Prompt::empty(), &params, None);
    let t = customized.temperature.unwrap();
    assert_eq!(t, Temperature::epsilon());
    assert_eq!(t, Temperature { digits: 1, scale: 13 });
    let value = t.digits as f64 / 10f64.powi(t.scale as i32);
    assert!(value > 0.0 && value < 1e-10);
}

#[test]
fn command_strips_existing_placeholders() {
    let mut prompt = Prompt::empty();
    prompt.messages.push(Message::system("S1 #[<input>]"));
    prompt.messages.push(Message::user("U1"));

    let customized = customize_prompt(prompt, &PromptParams::default(), Some("do X".to_owned()));
    assert_eq!(
        customized.messages,
        vec![
            Message::system("S1 "),
            Message::user("U1"),
            Message::user("do X#[<input>]"),
        ]
    );
}

#[test]
fn overrides_replace_api_model_and_char_limit() {
    let mut prompt = Prompt::empty();
    prompt.model = Some("base".to_owned());
    let params = PromptParams {
        api: Some(Api::Anthropic),
        char_limit: Some(10),
        ..PromptParams::default()
    };

    let customized = customize_prompt(prompt, &params, None);
    assert_eq!(customized.api, Api::Anthropic);
    assert_eq!(customized.model, Some("base".to_owned()));
    assert_eq!(customized.char_limit, Some(10));
}

#[test]
fn context_goes_at_the_index_of_the_first_user_message() {
    let mut prompt = Prompt::empty();
    prompt.messages.push(Message::system("rules"));
    prompt.messages.push(Message::assistant("hello"));
    prompt.messages.push(Message::user("question #[<input>]"));
    prompt.messages.push(Message::assistant("answer"));
    let params = PromptParams {
        context: vec![context_file("a.txt", "alpha")],
        ..PromptParams::default()
    };

    let customized = customize_prompt(prompt.clone(), &params, None);
    assert_eq!(customized.messages[0].role, "system");
    assert_eq!(customized.messages[1].role, "assistant");
    assert_eq!(
        customized.messages[2],
        Message::system("files content for context:\n\na.txt:\n```\nalpha\n```\n")
    );
    assert_eq!(customized.messages[3], Message::user("question #[<input>]"));

    let customized = customize_prompt(prompt, &params, Some("do X".to_owned()));
    assert_eq!(customized.messages[2].role, "system");
    assert_eq!(customized.messages[3], Message::user("question "));
}
