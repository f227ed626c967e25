use gogit::ai::{
    map_messages_to_gemini, provider_from_name, AiClient, AiError, AiProvider, ExtraContent,
    GeminiFunctionCall, GeminiPart, Message, ModelInfo, ModelPricing, ParamProperty, Role, ToolCall,
    ToolDefinition, ToolFunction, ToolFunctionDefinition, ToolParameters,
};
use gogit::requests::{
    branch_name_prompt, chat_outcome, chat_precheck, chunk_summary_prompt, completion_outcome,
    diff_chunks, failure_error, free_models, gemini_chat_reply, gemini_models, git_command_prompt,
    join_summaries, map_tools_to_gemini, message_from_gemini_parts, offers_tools, ollama_model_info,
    reply_step, role_name_exec, stream_payloads, Call, ReplyStep, MAX_RETRIES,
};

fn client(provider: &str, env_key: Option<&str>, config_key: Option<&str>) -> Result<AiClient, AiError> {
    AiClient::new(
        reqwest::Client::new(),
        "m1".to_string(),
        provider,
        env_key.map(|s| s.to_string()),
        env_key.map(|s| s.to_string()),
        config_key.map(|s| s.to_string()),
        config_key.map(|s| s.to_string()),
        None,
    )
}

fn msg(role: Role, content: Option<&str>) -> Message {
    Message { role, content: content.map(|s| s.to_string()), tool_calls: None, tool_call_id: None }
}

#[test]
fn provider_names_ignore_case() {
    assert_eq!(provider_from_name("Gemini"), AiProvider::Gemini);
    assert_eq!(provider_from_name("OLLAMA"), AiProvider::Ollama);
    assert_eq!(provider_from_name("openrouter"), AiProvider::OpenRouter);
    assert_eq!(provider_from_name("anything"), AiProvider::OpenRouter);
}

#[test]
fn client_keys() {
    let c = client("gemini", None, Some("  k1 ")).unwrap();
    assert_eq!(c.api_key(), "k1");
    assert_eq!(c.provider(), AiProvider::Gemini);
    assert_eq!(c.model(), "m1");
    let c = client("openrouter", Some("envkey"), Some("cfg")).unwrap();
    assert_eq!(c.api_key(), "envkey");
    let c = client("ollama", None, None).unwrap();
    assert_eq!(c.api_key(), "");
    assert_eq!(c.get_base_url(), "http://localhost:11434");
}

#[test]
fn client_without_key_is_an_error() {
    match client("gemini", None, None) {
        Err(AiError::Stream(m)) => assert_eq!(m, "No API key found. Set GEMINI_API_KEY or add it to config.toml"),
        _ => panic!("expected an error"),
    }
    match client("openrouter", None, None) {
        Err(AiError::Stream(m)) => assert_eq!(m, "No API key found. Set OPENROUTER_API_KEY or add it to config.toml"),
        _ => panic!("expected an error"),
    }
    match client("openrouter", Some("   "), None) {
        Err(AiError::Stream(m)) => assert_eq!(m, "API Key is empty"),
        _ => panic!("expected an error"),
    }
}

#[test]
fn endpoints_and_headers() {
    let g = client("gemini", Some("KEY"), None).unwrap();
    assert_eq!(
        g.endpoint(Call::Stream).unwrap(),
        "https://generativelanguage.googleapis.com/v1beta/models/m1:streamGenerateContent?alt=sse&key=KEY"
    );
    assert_eq!(
        g.endpoint(Call::Chat).unwrap(),
        "https://generativelanguage.googleapis.com/v1beta/models/m1:generateContent?key=KEY"
    );
    assert_eq!(g.endpoint(Call::Models), None);
    assert_eq!(g.headers(Call::Stream), vec![("x-goog-api-key".to_string(), "KEY".to_string())]);
    assert!(g.headers(Call::Completion).is_empty());
    let o = client("openrouter", Some("K"), None).unwrap();
    assert_eq!(o.endpoint(Call::Completion).unwrap(), "https://openrouter.ai/api/v1/chat/completions");
    assert_eq!(o.endpoint(Call::Models).unwrap(), "https://openrouter.ai/api/v1/models");
    let h = o.headers(Call::Chat);
    assert_eq!(h[0], ("Authorization".to_string(), "Bearer K".to_string()));
    assert_eq!(h[2], ("HTTP-Referer".to_string(), "https://github.com/buka-pitch/gogit".to_string()));
    assert_eq!(o.headers(Call::Models).len(), 2);
    let l = client("ollama", None, None).unwrap();
    assert_eq!(l.endpoint(Call::Models).unwrap(), "http://localhost:11434/api/tags");
    assert_eq!(l.endpoint(Call::Stream).unwrap(), "http://localhost:11434/api/chat");
}

#[test]
fn rate_limits_back_off_then_give_up() {
    let p = AiProvider::OpenRouter;
    assert!(matches!(reply_step(Call::Chat, p, 429, "429", 0), ReplyStep::Retry { attempt: 1, wait_seconds: 10 }));
    assert!(matches!(reply_step(Call::Chat, p, 429, "429", 1), ReplyStep::Retry { attempt: 2, wait_seconds: 20 }));
    assert!(matches!(reply_step(Call::Chat, p, 429, "429", 2), ReplyStep::Retry { attempt: 3, wait_seconds: 40 }));
    match reply_step(Call::Chat, p, 429, "429", MAX_RETRIES) {
        ReplyStep::Fail(AiError::Stream(m)) => assert_eq!(m, "Rate limit exceeded after retries"),
        _ => panic!("expected to give up"),
    }
    match reply_step(Call::Completion, AiProvider::Gemini, 429, "429", 3) {
        ReplyStep::Fail(AiError::Stream(m)) => assert_eq!(m, "Rate limit exceeded"),
        _ => panic!("expected to give up"),
    }
    // Ollama completions are not retried.
    assert!(matches!(reply_step(Call::Completion, AiProvider::Ollama, 429, "429 Too Many Requests", 0), ReplyStep::ReadFailure));
}

#[test]
fn replies_that_are_read() {
    assert!(matches!(reply_step(Call::Chat, AiProvider::Gemini, 200, "200 OK", 0), ReplyStep::Read));
    assert!(matches!(reply_step(Call::Completion, AiProvider::OpenRouter, 500, "500", 0), ReplyStep::Read));
    assert!(matches!(reply_step(Call::Stream, AiProvider::OpenRouter, 500, "500", 0), ReplyStep::ReadFailure));
    match reply_step(Call::Models, AiProvider::Ollama, 404, "404 Not Found", 0) {
        ReplyStep::Fail(AiError::Stream(m)) => assert_eq!(m, "Ollama API Error: 404 Not Found"),
        _ => panic!("expected a failure"),
    }
}

#[test]
fn failure_messages() {
    match failure_error(Call::Chat, AiProvider::OpenRouter, 404, "404 Not Found", true, "No endpoints found that support tool use") {
        AiError::ToolIncompatibility(m) => assert_eq!(m, "This model/provider does not support tool use."),
        _ => panic!("expected tool incompatibility"),
    }
    match failure_error(Call::Chat, AiProvider::OpenRouter, 404, "404 Not Found", true, "gone") {
        AiError::Stream(m) => assert_eq!(m, "API Error 404: gone"),
        _ => panic!(),
    }
    match failure_error(Call::Chat, AiProvider::Gemini, 400, "400 Bad Request", false, "bad") {
        AiError::Stream(m) => assert_eq!(m, "Gemini API Error 400 Bad Request: bad"),
        _ => panic!(),
    }
    match failure_error(Call::Stream, AiProvider::Gemini, 500, "500 Internal Server Error", false, "x") {
        AiError::Stream(m) => assert_eq!(m, "API Error 500 Internal Server Error: x"),
        _ => panic!(),
    }
}

#[test]
fn completion_and_chat_outcomes() {
    assert_eq!(completion_outcome(Some("hi".to_string()), None, "{}").unwrap(), "hi");
    match completion_outcome(None, Some(None), "{}") {
        Err(AiError::Stream(m)) => assert_eq!(m, "API Error: Unknown API error"),
        _ => panic!(),
    }
    match completion_outcome(None, None, "{\"x\":1}") {
        Err(AiError::Stream(m)) => assert_eq!(m, "Unexpected JSON response: {\"x\":1}"),
        _ => panic!(),
    }
    match chat_outcome(None, Some(Some("tools not supported".to_string())), true) {
        Err(AiError::ToolIncompatibility(m)) => assert_eq!(m, "tools not supported"),
        _ => panic!(),
    }
    match chat_outcome(None, Some(Some("tools not supported".to_string())), false) {
        Err(AiError::Stream(m)) => assert_eq!(m, "API Error: tools not supported"),
        _ => panic!(),
    }
    match chat_outcome(None, None, false) {
        Err(AiError::Stream(m)) => assert_eq!(m, "No response choices found"),
        _ => panic!(),
    }
    let m = chat_outcome(Some(msg(Role::Assistant, Some("ok"))), None, true).unwrap();
    assert_eq!(m.content.as_deref(), Some("ok"));
}

#[test]
fn ollama_refuses_tools() {
    assert!(matches!(chat_precheck(AiProvider::Ollama, true), Some(AiError::ToolIncompatibility(_))));
    assert!(chat_precheck(AiProvider::Ollama, false).is_none());
    assert!(chat_precheck(AiProvider::Gemini, true).is_none());
    assert_eq!(role_name_exec(Role::Assistant), "assistant");
    assert!(!offers_tools(&Some(vec![])));
    assert!(!offers_tools(&None));
}

#[test]
fn gemini_conversation_mapping() {
    let mut asst = msg(Role::Assistant, Some("calling"));
    asst.tool_calls = Some(vec![ToolCall {
        id: "c1".to_string(),
        tool_type: "function".to_string(),
        function: ToolFunction { name: "read_file".to_string(), arguments: "{\"path\":\"a\"}".to_string() },
        extra_content: None,
    }]);
    let mut tool = msg(Role::Tool, Some("content"));
    tool.tool_call_id = Some("read_file".to_string());
    let ms = vec![msg(Role::System, Some("sys")), msg(Role::User, Some("hi")), asst, tool];
    let (sys, contents) = map_messages_to_gemini(&ms);
    let sys = sys.unwrap();
    assert_eq!(sys.role, None);
    assert_eq!(sys.parts[0].text.as_deref(), Some("sys"));
    assert_eq!(contents.len(), 3);
    assert_eq!(contents[0].role.as_deref(), Some("user"));
    assert_eq!(contents[1].role.as_deref(), Some("model"));
    assert_eq!(contents[1].parts.len(), 2);
    let call = contents[1].parts[1].function_call.as_ref().unwrap();
    assert_eq!(call.name, "read_file");
    assert_eq!(call.args, "{\"path\":\"a\"}");
    let resp = contents[2].parts[0].function_response.as_ref().unwrap();
    assert_eq!(resp.name, "read_file");
    assert_eq!(resp.result, "content");
}

#[test]
fn gemini_reply_to_message() {
    let parts = vec![
        GeminiPart { text: Some("first".to_string()), function_call: None, function_response: None },
        GeminiPart {
            text: None,
            function_call: Some(GeminiFunctionCall {
                name: "git_status".to_string(),
                args: "{}".to_string(),
                thought_signature: Some("sig".to_string()),
            }),
            function_response: None,
        },
        GeminiPart { text: Some("last".to_string()), function_call: None, function_response: None },
    ];
    let m = message_from_gemini_parts(&parts);
    assert_eq!(m.role, Role::Assistant);
    assert_eq!(m.content.as_deref(), Some("last"));
    let calls = m.tool_calls.unwrap();
    assert_eq!(calls.len(), 1);
    assert_eq!(calls[0].id, "git_status");
    assert_eq!(calls[0].tool_type, "function");
    assert!(matches!(&calls[0].extra_content, Some(ExtraContent::ThoughtSignature(s)) if s == "sig"));
    let plain = message_from_gemini_parts(&vec![]);
    assert!(plain.tool_calls.is_none() && plain.content.is_none());
    match gemini_chat_reply(None) {
        Err(AiError::Stream(e)) => assert_eq!(e, "No candidates in Gemini response"),
        _ => panic!(),
    }
}

#[test]
fn gemini_tools_drop_additional_properties() {
    let t = ToolDefinition {
        tool_type: "function".to_string(),
        function: ToolFunctionDefinition {
            name: "t".to_string(),
            description: "d".to_string(),
            parameters: ToolParameters {
                properties: vec![ParamProperty {
                    name: "env".to_string(),
                    kind: "object".to_string(),
                    description: "vars".to_string(),
                    enum_values: vec![],
                    items_kind: None,
                    additional_kind: Some("string".to_string()),
                }],
                required: Some(vec!["env".to_string()]),
            },
        },
    };
    let g = map_tools_to_gemini(vec![t]);
    assert_eq!(g.function_declarations.len(), 1);
    let d = &g.function_declarations[0];
    assert_eq!(d.name, "t");
    assert_eq!(d.parameters.properties[0].additional_kind, None);
    assert_eq!(d.parameters.properties[0].kind, "object");
    assert_eq!(d.parameters.required, Some(vec!["env".to_string()]));
}

#[test]
fn model_lists() {
    let g = gemini_models();
    assert_eq!(g.len(), 4);
    assert_eq!(g[0].id, "gemini-3-flash-preview");
    assert_eq!(g[1].context_length, Some(15000));
    let o = ollama_model_info("llama3".to_string(), Some("2024-01-01".to_string()));
    assert_eq!(o.id, "llama3");
    assert_eq!(o.description.as_deref(), Some("Modified: 2024-01-01"));
    let free = ModelInfo {
        id: "a".to_string(),
        name: None,
        description: None,
        context_length: None,
        pricing: Some(ModelPricing { prompt: "0".to_string(), completion: "0".to_string() }),
    };
    let paid = ModelInfo {
        id: "b".to_string(),
        name: None,
        description: None,
        context_length: None,
        pricing: Some(ModelPricing { prompt: "0.1".to_string(), completion: "0".to_string() }),
    };
    let none = ModelInfo { id: "c".to_string(), name: None, description: None, context_length: None, pricing: None };
    let kept = free_models(AiProvider::OpenRouter, vec![free.clone(), paid.clone(), none.clone()]);
    assert_eq!(kept.len(), 1);
    assert_eq!(kept[0].id, "a");
    assert_eq!(free_models(AiProvider::Gemini, vec![free, paid, none]).len(), 3);
}

#[test]
fn stream_payloads_stop_at_done() {
    let chunk = "data: {\"a\":1}\n: comment\ndata: {\"b\":2}\r\ndata: [DONE]\ndata: {\"c\":3}\n";
    assert_eq!(stream_payloads(chunk), vec!["{\"a\":1}".to_string(), "{\"b\":2}".to_string()]);
    assert!(stream_payloads("").is_empty());
}

#[test]
fn small_diffs_are_kept_whole() {
    assert_eq!(diff_chunks("diff --git a/x b/x\n+1\n"), None);
}

#[test]
fn large_diffs_are_cut_per_file() {
    let big = "x".repeat(500_000);
    let diff = format!("diff --git a/x b/x\n+{}\ndiff --git a/y b/y\n+y\n", big);
    let chunks = diff_chunks(&diff).unwrap();
    assert_eq!(chunks.len(), 2);
    assert!(chunks[0].starts_with("diff --git a/x b/x"));
    assert_eq!(chunks[1], "diff --git a/y b/y\n+y\n");
    assert_eq!(join_summaries(&vec!["a".to_string(), "b".to_string()]), "a\n\nb");
    let (p, s) = chunk_summary_prompt("C");
    assert_eq!(p, "Summarize the code changes in this git diff chunk:\n\nC");
    assert_eq!(s, "You are a code summarizer. Output a concise summary of changes.");
}

#[test]
fn helper_prompts() {
    let (p, s) = git_command_prompt("show log");
    assert!(p.starts_with("Translate this natural language request into a valid git command:\n\n\"show log\""));
    assert_eq!(s, "You are a Git expert. You translate natural language descriptions into precise git commands.");
    let (p, _) = branch_name_prompt("add login");
    assert!(p.contains("\"add login\"") && p.contains("kebab-case"));
}

#[test]
fn ai_error_messages() {
    assert_eq!(AiError::Stream("x".to_string()).message(), "Stream error: x");
    assert_eq!(AiError::Request("x".to_string()).message(), "API Request failed: x");
    assert_eq!(AiError::Env("x".to_string()).message(), "Environment variable missing: x");
    assert_eq!(AiError::Json("x".to_string()).message(), "JSON error: x");
    assert_eq!(AiError::ToolIncompatibility("x".to_string()).message(), "Tool-use incompatibility: x");
}
