use gogit::ai::{map_messages_to_gemini, AiProvider, Message, Role, ToolCall, ToolFunction};
use gogit::calls::{execution_request, tool_request, ToolRequest};
use gogit::cli::{commit_needs_staging, nothing_to_commit, review_choice, Action, ReviewChoice};
use gogit::cybersec::CybersecMode;
use gogit::ai::AiError;
use gogit::requests::{chat_step, completion_reply, prompt_body, stream_deltas, ChatStep, PromptBody};
use gogit::tools::{ProjectFile, ToolKind, ToolRegistry};

fn request(kind: ToolKind, args: &str) -> ToolRequest {
    tool_request(kind, args).unwrap()
}

#[test]
fn execution_arguments_and_defaults() {
    assert_eq!(
        execution_request(r#"{"file_path":"a.py","args":"1 2","timeout":10}"#).unwrap(),
        ("a.py".to_string(), "1 2".to_string(), 10)
    );
    assert_eq!(execution_request(r#"{"file_path":"a.py"}"#).unwrap(), ("a.py".to_string(), String::new(), 60));
    assert_eq!(execution_request(r#"{"file_path":"a.py","timeout":1000}"#).unwrap().2, 300);
    assert_eq!(execution_request(r#"{"file_path":"a.py","timeout":300}"#).unwrap().2, 300);
    assert_eq!(execution_request(r#"{"file_path":""}"#).unwrap_err(), "Error: file_path is required");
    assert_eq!(execution_request("{}").unwrap_err(), "Error: file_path is required");
    assert_eq!(execution_request("not json").unwrap_err(), "Error: file_path is required");
    assert_eq!(execution_request(r#"{"file_path":7}"#).unwrap_err(), "Error: file_path is required");
}

#[test]
fn tool_argument_defaults() {
    assert!(matches!(request(ToolKind::ListDirectory, "{}"), ToolRequest::ListDirectory { path } if path == "."));
    assert!(matches!(request(ToolKind::GetFileTree, "{}"),
        ToolRequest::GetFileTree { path, depth } if path == "." && depth == 3));
    assert!(matches!(request(ToolKind::GetFileTree, r#"{"path":"src","depth":1}"#),
        ToolRequest::GetFileTree { path, depth } if path == "src" && depth == 1));
    assert!(matches!(request(ToolKind::GitLog, "{}"), ToolRequest::GitLog { limit } if limit == 5));
    assert!(matches!(request(ToolKind::GitLog, r#"{"limit":2}"#), ToolRequest::GitLog { limit } if limit == 2));
    assert!(matches!(request(ToolKind::GitBranch, "{}"),
        ToolRequest::GitBranch { action, name } if action == "list" && name.is_empty()));
    assert!(matches!(request(ToolKind::GitDiff, "{}"), ToolRequest::GitDiff { staged } if !staged));
    assert!(matches!(request(ToolKind::GitDiff, r#"{"staged":true}"#), ToolRequest::GitDiff { staged } if staged));
    assert!(matches!(request(ToolKind::SearchCode, r#"{"pattern":"fn"}"#),
        ToolRequest::SearchCode { pattern, path } if pattern == "fn" && path == "."));
    assert!(matches!(request(ToolKind::ReadFile, r#"{"path":"~/a"}"#), ToolRequest::ReadFile { path } if path == "~/a"));
    assert!(matches!(request(ToolKind::ReadFile, "[1,2]"), ToolRequest::ReadFile { path } if path.is_empty()));
    assert!(matches!(request(ToolKind::WriteFile, r#"{"path":"a","content":"x"}"#),
        ToolRequest::WriteFile { path, content } if path == "a" && content == "x"));
    assert!(matches!(request(ToolKind::GitStatus, "garbage"), ToolRequest::GitStatus));
    assert!(matches!(request(ToolKind::ScaffoldTemplate, r#"{"name":"Nav","output_path":"src/nav.ts"}"#),
        ToolRequest::ScaffoldTemplate { name, template_type, output_path }
            if name == "Nav" && template_type == "component" && output_path == "src/nav.ts"));
    assert!(matches!(request(ToolKind::SecurityCommand, r#"{"command":"whoami"}"#),
        ToolRequest::SecurityCommand { command, explanation, timeout } if command == "whoami" && explanation == "Executing command" && timeout == 30));
    assert!(matches!(request(ToolKind::ExecuteCode, r#"{"file_path":"m.go","timeout":5}"#),
        ToolRequest::ExecuteCode { file_path, args, timeout } if file_path == "m.go" && args.is_empty() && timeout == 5));
}

#[test]
fn tool_argument_refusals() {
    assert_eq!(tool_request(ToolKind::RunCommand, r#"{"command":"  \t"}"#).unwrap_err(), "Error: command is required.");
    assert_eq!(tool_request(ToolKind::RunCommand, "{}").unwrap_err(), "Error: command is required.");
    assert!(matches!(request(ToolKind::RunCommand, r#"{"command":"ls","cwd":"/tmp"}"#),
        ToolRequest::RunCommand { command, cwd, .. } if command == "ls" && cwd.as_deref() == Some("/tmp")));
    assert!(matches!(request(ToolKind::RunCommand, r#"{"command":" ls "}"#),
        ToolRequest::RunCommand { command, cwd, .. } if command == " ls " && cwd.is_none()));
    assert_eq!(
        tool_request(ToolKind::GitAdd, r#"{"paths":"a.rs"}"#).unwrap_err(),
        "Error: paths argument missing or not an array."
    );
    assert_eq!(tool_request(ToolKind::GitAdd, "{}").unwrap_err(), "Error: paths argument missing or not an array.");
    assert!(matches!(request(ToolKind::GitAdd, r#"{"paths":["a.rs",3,"b.rs"]}"#),
        ToolRequest::GitAdd { paths } if paths == vec!["a.rs".to_string(), "b.rs".to_string()]));
    assert_eq!(tool_request(ToolKind::GenerateTests, "{}").unwrap_err(), "Error: file_path is required");
    assert_eq!(tool_request(ToolKind::ExecuteCode, "{}").unwrap_err(), "Error: file_path is required");
    assert_eq!(tool_request(ToolKind::PreviewEdit, r#"{"instruction":"x"}"#).unwrap_err(), "Error: file_path is required");
    assert_eq!(tool_request(ToolKind::PreviewEdit, r#"{"file_path":"a.rs"}"#).unwrap_err(), "Error: instruction is required");
    assert_eq!(tool_request(ToolKind::ScaffoldTemplate, r#"{"output_path":"x"}"#).unwrap_err(), "Error: name is required");
    assert_eq!(tool_request(ToolKind::ScaffoldTemplate, r#"{"name":"x"}"#).unwrap_err(), "Error: output_path is required");
    assert_eq!(tool_request(ToolKind::SecurityCommand, "{}").unwrap_err(), "Error: command is required");
    assert!(matches!(request(ToolKind::SecurityCommand, r#"{"command":" "}"#),
        ToolRequest::SecurityCommand { command, .. } if command == " "));
}

#[test]
fn stream_deltas_by_provider() {
    let chunk = "data: {\"choices\":[{\"delta\":{\"content\":\"Hel\"}}]}\n\ndata: {\"choices\":[{\"delta\":{}}]}\ndata: {\"choices\":[{\"delta\":{\"content\":\"lo\"}}]}\ndata: [DONE]\ndata: {\"choices\":[{\"delta\":{\"content\":\"late\"}}]}\n";
    assert_eq!(stream_deltas(AiProvider::OpenRouter, chunk), vec!["Hel".to_string(), "lo".to_string()]);
    assert!(stream_deltas(AiProvider::Gemini, chunk).is_empty());
    let gemini = "data: {\"candidates\":[{\"content\":{\"parts\":[{\"text\":\"Hi\"}]}}]}\ndata: not json\n";
    assert_eq!(stream_deltas(AiProvider::Gemini, gemini), vec!["Hi".to_string()]);
    let ollama = "data: {\"message\":{\"content\":\"ok\"}}\n";
    assert_eq!(stream_deltas(AiProvider::Ollama, ollama), vec!["ok".to_string()]);
    assert!(stream_deltas(AiProvider::Ollama, "{\"message\":{\"content\":\"ok\"}}").is_empty());
}

#[test]
fn gemini_call_arguments_become_json() {
    let tool = Message {
        role: Role::Tool,
        content: Some("ok".to_string()),
        tool_calls: None,
        tool_call_id: Some("read_file".to_string()),
    };
    let call = |args: &str| ToolCall {
        id: "c1".to_string(),
        tool_type: "function".to_string(),
        function: ToolFunction { name: "git_log".to_string(), arguments: args.to_string() },
        extra_content: None,
    };
    let asst = Message {
        role: Role::Assistant,
        content: None,
        tool_calls: Some(vec![call("not json"), call("{ \"limit\" : 2 }")]),
        tool_call_id: None,
    };
    let (sys, cs) = map_messages_to_gemini(&vec![tool, asst]);
    assert!(sys.is_none());
    assert_eq!(cs.len(), 2);
    assert_eq!(cs[0].role.as_deref(), Some("user"));
    let resp = cs[0].parts[0].function_response.as_ref().unwrap();
    assert_eq!((resp.name.as_str(), resp.result.as_str()), ("read_file", "ok"));
    assert_eq!(cs[1].role.as_deref(), Some("model"));
    let first = cs[1].parts[0].function_call.as_ref().unwrap();
    assert_eq!((first.name.as_str(), first.args.as_str()), ("git_log", "{}"));
    assert!(first.thought_signature.is_none());
    assert_eq!(cs[1].parts[1].function_call.as_ref().unwrap().args, "{\"limit\":2}");
}

#[test]
fn unsupported_extension_shown_in_unicode_lower_case() {
    assert_eq!(
        ToolRegistry::plan_execution("x.É", "É", "x", ".", "", false).unwrap_err(),
        "Error: Unsupported file type: .é"
    );
    assert_eq!(
        ToolRegistry::plan_execution("notes.TXT", "TXT", "notes", ".", "", false).unwrap_err(),
        "Error: Unsupported file type: .txt"
    );
    assert_eq!(ToolRegistry::plan_execution("Makefile", "", "Makefile", ".", "", false).unwrap_err(), "Error: Unsupported file type: .");
}

#[test]
fn cybersecurity_mode_prompts() {
    let modes = ["learn", "recon", "analyze", "ctf", "interactive"];
    let prompts: Vec<String> = modes.iter().map(|m| CybersecMode::get_system_prompt(m)).collect();
    for i in 0..prompts.len() {
        for j in (i + 1)..prompts.len() {
            assert_ne!(prompts[i], prompts[j], "{} and {}", modes[i], modes[j]);
        }
    }
    assert_eq!(CybersecMode::get_system_prompt("LEARN"), prompts[4]);
    assert_eq!(CybersecMode::get_system_prompt("whatever"), prompts[4]);
    assert_eq!(CybersecMode::get_system_prompt(""), prompts[4]);
    assert!(prompts[3].contains("You are a CTF (Capture The Flag) competition expert."));
    assert!(prompts[0].starts_with("\nYou are a cybersecurity educator and ethical hacker.\n\n## Your Role"));
}

#[test]
fn package_and_cargo_facts() {
    let p = ToolRegistry::package_summary(
        r#"{"name":"web","scripts":{"test":"jest","dev":"vite","x":"y"},"dependencies":{"a":"1","b":"2"}}"#,
    )
    .unwrap();
    assert_eq!(p.scripts, vec!["dev".to_string(), "test".to_string(), "x".to_string()]);
    assert_eq!(p.common_commands, vec!["dev".to_string(), "test".to_string()]);
    assert_eq!((p.dependencies, p.dev_dependencies), (2, 0));
    let p = ToolRegistry::package_summary("{}").unwrap();
    assert!(p.scripts.is_empty() && p.common_commands.is_empty());
    assert_eq!((p.dependencies, p.dev_dependencies), (0, 0));
    assert!(ToolRegistry::package_summary("{ not json").is_none());
    assert_eq!(ToolRegistry::cargo_dependency_count("[package]\nname = \"x\"\n[dependencies]\na = \"1\"\nb = \"2\"\n"), Some(2));
    assert_eq!(ToolRegistry::cargo_dependency_count("[package]\nname = \"x\"\n"), Some(0));
    assert_eq!(ToolRegistry::cargo_dependency_count("[package\n"), None);
}

#[test]
fn package_name_needs_valid_json() {
    let s = ToolRegistry::detect_project(&vec![ProjectFile {
        name: "package.json".to_string(),
        content: Some("{ broken".to_string()),
    }]);
    assert_eq!(s.project_type, "nodejs");
    assert_eq!(s.project_name, "unknown");
    let s = ToolRegistry::detect_project(&vec![ProjectFile {
        name: "package.json".to_string(),
        content: Some("{\"name\": 5}".to_string()),
    }]);
    assert_eq!(s.project_name, "unknown");
}

#[test]
fn review_actions_become_choices() {
    assert!(matches!(review_choice(Action::Confirm("m".to_string()), String::new()), ReviewChoice::Confirm(m) if m == "m"));
    assert!(matches!(review_choice(Action::Edit, "edited".to_string()), ReviewChoice::Edit(m) if m == "edited"));
    assert!(matches!(review_choice(Action::Regenerate, "x".to_string()), ReviewChoice::Regenerate));
    assert!(matches!(review_choice(Action::Reject, "x".to_string()), ReviewChoice::Reject));
}

#[test]
fn search_service_replies() {
    let reply = r#"{"results":[{"title":"Rust","url":"https://rust-lang.org","content":"A language"},{"title":"Verus"}]}"#;
    assert_eq!(
        ToolRegistry::search_reply_message(reply).unwrap(),
        "### \"Rust\"\nURL: \"https://rust-lang.org\"\n\"A language\"\n\n### \"Verus\"\nURL: null\nnull\n\n"
    );
    assert_eq!(ToolRegistry::search_reply_message(r#"{"results":[]}"#).unwrap(), "No results found.");
    assert!(ToolRegistry::search_reply_message(r#"{"error":"bad key"}"#).is_none());
    assert!(ToolRegistry::search_reply_message("<html>").is_none());
    assert_eq!(ToolRegistry::duckduckgo_url("a b&c"), "https://html.duckduckgo.com/html/?q=a%20b%26c");
    assert!(ToolRegistry::duckduckgo_message("a b").ends_with("\nURL: https://html.duckduckgo.com/html/?q=a%20b"));
}

#[test]
fn command_time_limits_and_environment() {
    match request(ToolKind::RunCommand, r#"{"command":"make","env":{"A":"1","N":2,"B":"x y"}}"#) {
        ToolRequest::RunCommand { timeout, env, .. } => {
            assert_eq!(timeout, 60);
            assert_eq!(env, vec![("A".to_string(), "1".to_string()), ("B".to_string(), "x y".to_string())]);
        }
        other => panic!("{:?}", other),
    }
    assert!(matches!(request(ToolKind::RunCommand, r#"{"command":"make","timeout":900,"env":"A=1"}"#),
        ToolRequest::RunCommand { timeout, env, .. } if timeout == 300 && env.is_empty()));
    assert!(matches!(request(ToolKind::RunCommand, r#"{"command":"make","timeout":5}"#),
        ToolRequest::RunCommand { timeout, .. } if timeout == 5));
    assert!(matches!(request(ToolKind::SecurityCommand, r#"{"command":"nmap x","timeout":500}"#),
        ToolRequest::SecurityCommand { timeout, .. } if timeout == 120));
    assert!(matches!(request(ToolKind::SecurityCommand, r#"{"command":"nmap x","timeout":45}"#),
        ToolRequest::SecurityCommand { timeout, .. } if timeout == 45));
    assert_eq!(ToolRegistry::timeout_message(60), "Error: Timeout after 60 seconds");
    assert_eq!(ToolRegistry::security_timeout_message(30), "❌ Timeout after 30 seconds");
}

#[test]
fn completion_replies() {
    assert_eq!(completion_reply(r#"{"choices":[{"message":{"content":"hi"}}]}"#).unwrap(), "hi");
    assert!(matches!(completion_reply(r#"{"error":{"message":"bad model"}}"#),
        Err(AiError::Stream(e)) if e == "API Error: bad model"));
    assert!(matches!(completion_reply(r#"{"error":"boom"}"#),
        Err(AiError::Stream(e)) if e == "API Error: Unknown API error"));
    assert!(matches!(completion_reply(r#"{ "x" : 1 }"#),
        Err(AiError::Stream(e)) if e == "Unexpected JSON response: {\"x\":1}"));
    assert!(matches!(completion_reply("null"), Err(AiError::Stream(e)) if e == "Unexpected JSON response: null"));
    assert!(matches!(completion_reply("<html>"), Err(AiError::Json(_))));
}

#[test]
fn chat_reply_steps() {
    assert!(matches!(chat_step(r#"{"choices":[{"message":{"role":"assistant","content":"ok"}}]}"#, true), ChatStep::ReadChoice));
    assert!(matches!(chat_step(r#"{"choices":[],"error":{"message":"tools not supported"}}"#, true),
        ChatStep::Fail(AiError::ToolIncompatibility(e)) if e == "tools not supported"));
    assert!(matches!(chat_step(r#"{"error":{"message":"tools not supported"}}"#, false),
        ChatStep::Fail(AiError::Stream(e)) if e == "API Error: tools not supported"));
    assert!(matches!(chat_step(r#"{"error":{}}"#, true), ChatStep::Fail(AiError::Stream(e)) if e == "API Error: Unknown error"));
    assert!(matches!(chat_step("{}", true), ChatStep::Fail(AiError::Stream(e)) if e == "No response choices found"));
    assert!(matches!(chat_step("not json", true), ChatStep::Fail(AiError::Json(_))));
}

#[test]
fn one_prompt_bodies() {
    let pairs = vec![("system".to_string(), "sys".to_string()), ("user".to_string(), "hi".to_string())];
    match prompt_body(AiProvider::OpenRouter, "m1", "hi", "sys", false) {
        PromptBody::Chat { model, messages, stream, max_tokens, with_temperature } => {
            assert_eq!(model, "m1");
            assert_eq!(messages, pairs);
            assert_eq!((stream, max_tokens, with_temperature), (None, Some(8192), true));
        }
        other => panic!("{:?}", other),
    }
    assert!(matches!(prompt_body(AiProvider::OpenRouter, "m1", "hi", "sys", true),
        PromptBody::Chat { stream: Some(true), .. }));
    match prompt_body(AiProvider::Ollama, "llama3", "hi", "sys", false) {
        PromptBody::Chat { model, messages, stream, max_tokens, with_temperature } => {
            assert_eq!(model, "llama3");
            assert_eq!(messages, pairs);
            assert_eq!((stream, max_tokens, with_temperature), (Some(false), None, false));
        }
        other => panic!("{:?}", other),
    }
    assert!(matches!(prompt_body(AiProvider::Gemini, "g", "hi", "sys", true),
        PromptBody::Gemini { prompt, system_instruction } if prompt == "hi" && system_instruction == "sys"));
}

#[test]
fn staging_decisions() {
    assert!(commit_needs_staging(&vec![], " \n\t"));
    assert!(!commit_needs_staging(&vec![".git/COMMIT_EDITMSG".to_string()], ""));
    assert!(!commit_needs_staging(&vec![], "diff --git a/x b/x"));
    assert!(nothing_to_commit("\u{3000}\n"));
    assert!(!nothing_to_commit(" + x"));
}
