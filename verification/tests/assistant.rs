use alagappa_tools::assistant::{
    build_prompt, default_model, get_providers, get_system_prompt, ollama_args, openai_args,
    parse_model_list, plan_chat, read_completion, AIProvider, ChatError, ChatMessage, ChatPlan,
    ChatRequest, ChatResponse, CompletionError, CompletionReply,
};

fn message(role: &str, content: &str) -> ChatMessage {
    ChatMessage { role: role.to_string(), content: content.to_string() }
}

#[test]
fn providers_without_local_models() {
    let providers = get_providers(None);
    assert_eq!(
        providers,
        vec![
            AIProvider { name: "ollama".to_string(), available: false, models: vec![] },
            AIProvider {
                name: "openai".to_string(),
                available: true,
                models: vec![
                    "gpt-4o".to_string(),
                    "gpt-4o-mini".to_string(),
                    "gpt-4-turbo".to_string(),
                    "gpt-3.5-turbo".to_string(),
                ],
            },
        ]
    );
}

#[test]
fn providers_with_local_models() {
    let providers = get_providers(Some(vec!["llama3.2:latest".to_string(), "phi3".to_string()]));
    assert_eq!(providers.len(), 2);
    assert_eq!(
        providers[0],
        AIProvider {
            name: "ollama".to_string(),
            available: true,
            models: vec!["llama3.2:latest".to_string(), "phi3".to_string()],
        }
    );
    assert_eq!(providers[1].name, "openai");
    let providers = get_providers(Some(vec![]));
    assert!(providers[0].available);
    assert!(providers[0].models.is_empty());
}

#[test]
fn system_prompt_has_its_text() {
    let prompt = get_system_prompt();
    assert!(prompt.starts_with("You are Alagappa AI, a helpful assistant built into Alagappa Tools - a desktop application for:\n- Biometric attendance management (ZKTeco devices)\n"));
    assert!(prompt.ends_with("4. Data analysis and insights\n\nBe concise, friendly, and helpful. Use emojis sparingly for clarity."));
    assert_eq!(prompt.lines().count(), 13);
    assert_eq!(prompt.len(), 512);
}

#[test]
fn default_models() {
    assert_eq!(default_model(&"ollama".to_string()), "llama3.2");
    assert_eq!(default_model(&"openai".to_string()), "gpt-4o-mini");
    assert_eq!(default_model(&"other".to_string()), "llama3.2");
    assert_eq!(default_model(&String::new()), "llama3.2");
}

#[test]
fn prompt_has_a_line_per_turn_and_a_cue() {
    let messages = vec![
        message("system", "Be brief."),
        message("user", "Hi"),
        message("assistant", "Hello"),
        message("tool", "42"),
        message("user", "Two\nlines"),
    ];
    assert_eq!(
        build_prompt(&messages),
        "System: Be brief.\nUser: Hi\nAssistant: Hello\ntool: 42\nUser: Two\nlines\nAssistant:"
    );
    assert_eq!(build_prompt(&[]), "Assistant:");
}

#[test]
fn plan_for_local_provider() {
    let request = ChatRequest {
        messages: vec![message("user", "Hi")],
        model: None,
        provider: "ollama".to_string(),
    };
    assert_eq!(
        plan_chat(request, None),
        Ok(ChatPlan::Ollama { messages: vec![message("user", "Hi")], model: "llama3.2".to_string() })
    );
    let request = ChatRequest {
        messages: vec![],
        model: Some("phi3".to_string()),
        provider: "ollama".to_string(),
    };
    assert_eq!(
        plan_chat(request, Some("key".to_string())),
        Ok(ChatPlan::Ollama { messages: vec![], model: "phi3".to_string() })
    );
}

#[test]
fn plan_for_cloud_provider_needs_a_key() {
    let request = ChatRequest {
        messages: vec![message("user", "Hi")],
        model: None,
        provider: "openai".to_string(),
    };
    assert_eq!(plan_chat(request.clone(), None), Err(ChatError::ApiKeyRequired));
    assert_eq!(
        plan_chat(request, Some("sk-test".to_string())),
        Ok(ChatPlan::OpenAi {
            messages: vec![message("user", "Hi")],
            model: "gpt-4o-mini".to_string(),
            api_key: "sk-test".to_string(),
        })
    );
}

#[test]
fn plan_for_unknown_provider_fails() {
    let request = ChatRequest {
        messages: vec![],
        model: Some("m".to_string()),
        provider: "gemini".to_string(),
    };
    let r = plan_chat(request, Some("key".to_string()));
    assert_eq!(r, Err(ChatError::UnknownProvider("gemini".to_string())));
    assert_eq!(r.unwrap_err().message(), "Unknown provider: gemini");
    assert_eq!(ChatError::ApiKeyRequired.message(), "OpenAI API key required");
}

#[test]
fn chat_response_is_plain_data() {
    let r = ChatResponse {
        content: "c".to_string(),
        model: "m".to_string(),
        provider: "p".to_string(),
    };
    assert_eq!(r.clone(), r);
}

#[test]
fn model_list_skips_heading_and_takes_first_words() {
    let listing = "NAME              ID              SIZE      MODIFIED\nllama3.2:latest   a80c4f17acd5    2.0 GB    3 weeks ago\nphi3:mini         4f2222927938    2.2 GB    5 weeks ago\n";
    assert_eq!(parse_model_list(listing), vec!["llama3.2:latest", "phi3:mini"]);
}

#[test]
fn model_list_edge_cases() {
    assert_eq!(parse_model_list(""), Vec::<String>::new());
    assert_eq!(parse_model_list("NAME ID"), Vec::<String>::new());
    assert_eq!(parse_model_list("NAME ID\n"), Vec::<String>::new());
    assert_eq!(parse_model_list("NAME\n\n  \nphi3\r\n\tgemma  x\n"), vec!["phi3", "gemma"]);
    assert_eq!(parse_model_list("\nfirst"), vec!["first"]);
}

#[test]
fn model_list_agrees_with_iterator_chain() {
    for listing in ["", "h", "h\na b\n c\n\n", "h\r\nx\r\n", "\n\n\n", "h\n \u{a0} \n z"] {
        let expected: Vec<String> = listing
            .lines()
            .skip(1)
            .filter_map(|line| line.split_whitespace().next().map(|s| s.to_string()))
            .collect();
        assert_eq!(parse_model_list(listing), expected);
    }
}

#[test]
fn ollama_is_run_with_model_and_prompt() {
    assert_eq!(ollama_args("phi3", "User: Hi\nAssistant:"), vec!["run", "phi3", "User: Hi\nAssistant:"]);
}

#[test]
fn curl_is_run_with_key_and_body() {
    assert_eq!(
        openai_args("sk-test", "{\"model\":\"gpt-4o\"}"),
        vec![
            "-s",
            "-X",
            "POST",
            "https://api.openai.com/v1/chat/completions",
            "-H",
            "Content-Type: application/json",
            "-H",
            "Authorization: Bearer sk-test",
            "-d",
            "{\"model\":\"gpt-4o\"}",
        ]
    );
}

#[test]
fn completion_with_content() {
    let reply = CompletionReply { error: None, content: Some("Hello".to_string()) };
    assert_eq!(read_completion(reply), Ok("Hello".to_string()));
}

#[test]
fn completion_with_error_wins_over_content() {
    let reply = CompletionReply {
        error: Some(Some("quota".to_string())),
        content: Some("Hello".to_string()),
    };
    let r = read_completion(reply);
    assert_eq!(r, Err(CompletionError::Api("quota".to_string())));
    assert_eq!(r.unwrap_err().message(), "OpenAI API error: quota");
    let reply = CompletionReply { error: Some(None), content: None };
    let r = read_completion(reply);
    assert_eq!(r, Err(CompletionError::Api("Unknown error".to_string())));
    assert_eq!(r.unwrap_err().message(), "OpenAI API error: Unknown error");
}

#[test]
fn completion_without_content() {
    let reply = CompletionReply { error: None, content: None };
    let r = read_completion(reply);
    assert_eq!(r, Err(CompletionError::NoContent));
    assert_eq!(r.unwrap_err().message(), "Failed to extract response content");
}
