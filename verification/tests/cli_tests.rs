use gogit::agent::{denied_result, has_missing_arguments, needs_approval, result_summary, Agent, AgentStep};
use gogit::ai::{AiError, Message, Role, ToolCall, ToolFunction};
use gogit::cli::{
    alias_args, checkout_new_branch_args, clean_file_reply, clean_reply, commit_prompt, commit_step,
    context_label, explain_context, explain_file_names, gh_pr_create_args, is_exit_command,
    main_menu_items, menu_command, model_menu_choice, pr_prompt, pr_title_body, pr_title_body_cli,
    provider_menu_default, provider_switch, release_base_label, stale_branch_entry, stale_candidates,
    system_prompt_or, CommitAction, MenuCommand, ModelMenuChoice, ReviewChoice, COMMIT_SYSTEM_PROMPT,
    MAX_STALE_BRANCHES,
};
use gogit::layout::{clamp_text, panel_width, review_preview, wrap_lines};

fn strings(v: &[&str]) -> Vec<String> {
    v.iter().map(|s| s.to_string()).collect()
}

#[test]
fn fenced_replies_are_unwrapped() {
    assert_eq!(clean_reply("```markdown\nfeat: add x\n\nbody\n```\n"), "feat: add x\n\nbody");
    assert_eq!(clean_reply("  plain message \n"), "plain message");
    assert_eq!(clean_file_reply("```rust\nfn main() {}\n```"), "fn main() {}");
    assert_eq!(clean_file_reply("fn a() {}\n"), "fn a() {}\n");
    assert!(!clean_reply("```\n```js\ncode\n```").starts_with("```"));
}

#[test]
fn pull_request_title_and_body() {
    assert_eq!(pr_title_body("# Add login\n\n## Summary\nx"), ("Add login".to_string(), "## Summary\nx".to_string()));
    assert_eq!(pr_title_body("# Only title"), ("Only title".to_string(), String::new()));
    assert_eq!(pr_title_body("Title\nBody"), ("Title".to_string(), "Body".to_string()));
    assert_eq!(pr_title_body("single"), ("Automated PR".to_string(), "single".to_string()));
    assert_eq!(pr_title_body_cli("  # T \n b "), ("T".to_string(), "b".to_string()));
    assert_eq!(pr_title_body_cli("single"), ("Automated PR".to_string(), "single".to_string()));
    assert_eq!(
        gh_pr_create_args("t", "b", "main", "dev"),
        strings(&["pr", "create", "--title", "t", "--body", "b", "--base", "main", "--head", "dev"])
    );
}

#[test]
fn commit_review_steps() {
    let none: Vec<String> = vec![];
    let hook = strings(&[".git/COMMIT_EDITMSG", "message"]);
    match commit_step(&none, ReviewChoice::Confirm("m".to_string())) {
        CommitAction::CommitAndPush(m) => assert_eq!(m, "m"),
        _ => panic!(),
    }
    match commit_step(&hook, ReviewChoice::Edit("e".to_string())) {
        CommitAction::WriteMessage { path, message } => {
            assert_eq!(path, ".git/COMMIT_EDITMSG");
            assert_eq!(message, "e");
        },
        _ => panic!(),
    }
    assert!(matches!(commit_step(&none, ReviewChoice::Regenerate), CommitAction::Regenerate));
    assert!(matches!(commit_step(&hook, ReviewChoice::Reject), CommitAction::Abort { exit_code: Some(1) }));
    assert!(matches!(commit_step(&none, ReviewChoice::Reject), CommitAction::Abort { exit_code: None }));
}

#[test]
fn prompts_of_commit_and_pr() {
    assert_eq!(system_prompt_or(None, COMMIT_SYSTEM_PROMPT), COMMIT_SYSTEM_PROMPT);
    assert_eq!(system_prompt_or(Some("mine"), COMMIT_SYSTEM_PROMPT), "mine");
    assert_eq!(commit_prompt("D"), "Here is the git diff (or summary):\n\nD");
    assert!(pr_prompt("C").ends_with("COMMITS:\n\nC"));
}

#[test]
fn stale_branch_candidates() {
    let bs = strings(&["main", "origin/main", "dev", "HEAD", "origin/HEAD", "feature/a", "Master", "origin/develop", "fix/b"]);
    assert_eq!(stale_candidates(&bs, "dev"), strings(&["feature/a", "fix/b"]));
    let many: Vec<String> = (0..30).map(|i| format!("f{}", i)).collect();
    let picked = stale_candidates(&many, "main");
    assert_eq!(picked.len(), MAX_STALE_BRANCHES);
    assert_eq!(picked[0], "f0");
    assert_eq!(picked[19], "f19");
    assert_eq!(stale_branch_entry("f", "abc x"), "Branch: f\nRecent Commits:\nabc x\n");
}

#[test]
fn alias_and_branch_commands() {
    assert_eq!(
        alias_args("recent", "git log -n 5 "),
        strings(&["config", "--global", "alias.recent", "log -n 5"])
    );
    assert_eq!(checkout_new_branch_args("feat/x"), strings(&["checkout", "-b", "feat/x"]));
    assert_eq!(release_base_label(None), "the beginning");
    assert_eq!(release_base_label(Some("v1")), "v1");
}

#[test]
fn explain_context_joins_files() {
    assert_eq!(explain_file_names(), vec!["README.md", "Cargo.toml", "package.json", "go.mod"]);
    let files = vec![("a".to_string(), "x".to_string()), ("b".to_string(), "y".to_string())];
    assert_eq!(explain_context(&files), "File: a\n---\nx\n---\n\nFile: b\n---\ny\n---");
    assert_eq!(explain_context(&vec![]), "");
}

#[test]
fn model_menu() {
    assert_eq!(context_label(Some(131072)), "128k");
    assert_eq!(context_label(Some(1000)), "0k");
    assert_eq!(context_label(None), "?");
    assert_eq!(model_menu_choice(0), ModelMenuChoice::SwitchProvider);
    assert_eq!(model_menu_choice(1), ModelMenuChoice::Separator);
    assert_eq!(model_menu_choice(5), ModelMenuChoice::Model(3));
    assert_eq!(provider_menu_default("openrouter"), 0);
    assert_eq!(provider_menu_default("gemini"), 1);
    assert_eq!(provider_switch(0), ("openrouter".to_string(), "openai/gpt-4o-mini".to_string()));
    assert_eq!(provider_switch(1), ("gemini".to_string(), "gemini-2.0-flash-exp".to_string()));
}

#[test]
fn main_menu() {
    let items = main_menu_items();
    assert_eq!(items.len(), 17);
    assert!(items[16].contains("Exit"));
    assert_eq!(menu_command(0), MenuCommand::Commit);
    assert_eq!(menu_command(13), MenuCommand::Chat);
    assert_eq!(menu_command(15), MenuCommand::RemoveHook);
    assert_eq!(menu_command(16), MenuCommand::Exit);
    assert_eq!(menu_command(99), MenuCommand::Exit);
}

#[test]
fn chat_exit_words() {
    assert!(is_exit_command("exit"));
    assert!(is_exit_command("QUIT"));
    assert!(!is_exit_command(" exit"));
    assert!(!is_exit_command("hello"));
}

#[test]
fn agent_conversation() {
    let mut a = Agent::new("sys");
    assert!(a.tools_enabled());
    assert_eq!(a.history().len(), 1);
    assert_eq!(a.history()[0].role, Role::System);
    a.add_user_input("hi");
    assert_eq!(a.history()[1].content.as_deref(), Some("hi"));
    let call = ToolCall {
        id: "c1".to_string(),
        tool_type: "function".to_string(),
        function: ToolFunction { name: "git_status".to_string(), arguments: "{}".to_string() },
        extra_content: None,
    };
    let reply = Message { role: Role::Assistant, content: None, tool_calls: Some(vec![call]), tool_call_id: None };
    assert!(matches!(a.on_reply(Ok(reply)), AgentStep::CallTools));
    assert_eq!(a.history().len(), 3);
    a.record_tool_result("c1", "clean".to_string());
    assert_eq!(a.history()[3].role, Role::Tool);
    assert_eq!(a.history()[3].tool_call_id.as_deref(), Some("c1"));
    let answer = Message { role: Role::Assistant, content: Some("done".to_string()), tool_calls: Some(vec![]), tool_call_id: None };
    assert!(matches!(a.on_reply(Ok(answer)), AgentStep::Answer));
    assert_eq!(a.last_message().unwrap().content.as_deref(), Some("done"));
}

#[test]
fn agent_errors() {
    let mut a = Agent::new("sys");
    match a.on_reply(Err(AiError::ToolIncompatibility("no tools".to_string()))) {
        AgentStep::AskDisableTools(m) => assert_eq!(m, "no tools"),
        _ => panic!(),
    }
    a.disable_tools();
    assert!(!a.tools_enabled());
    assert!(matches!(a.on_reply(Err(AiError::Stream("Rate limit exceeded".to_string()))), AgentStep::RateLimited));
    match a.on_reply(Err(AiError::Stream("boom".to_string()))) {
        AgentStep::Failed(m) => assert_eq!(m, "AI Error: Stream error: boom"),
        _ => panic!(),
    }
    assert_eq!(a.history().len(), 1);
}

#[test]
fn tool_call_handling() {
    assert!(needs_approval("write_file"));
    assert!(needs_approval("run_command"));
    assert!(needs_approval("git_commit"));
    assert!(!needs_approval("read_file"));
    assert!(has_missing_arguments("read_file", "  "));
    assert!(!has_missing_arguments("git_status", ""));
    assert_eq!(denied_result(), "Error: User denied permission to run this tool.");
    assert_eq!(result_summary("a\nb"), "a b");
    let long = "x".repeat(250);
    assert_eq!(result_summary(&long), format!("{}... (total 250 chars)", "x".repeat(200)));
}

#[test]
fn layout_helpers() {
    assert_eq!(panel_width(None), 80);
    assert_eq!(panel_width(Some(40)), 60);
    assert_eq!(panel_width(Some(200)), 92);
    assert_eq!(panel_width(Some(70)), 70);
    assert_eq!(clamp_text("hello", 10), "hello");
    assert_eq!(clamp_text("hello world", 5), "hello... (11 chars)");
    assert_eq!(wrap_lines("", 30), vec![String::new()]);
    assert_eq!(
        wrap_lines("aaa bbb ccc ddd eee fff ggg hhh\n\nx", 10),
        strings(&["aaa bbb ccc ddd eee", "fff ggg hhh", "", "x"])
    );
    assert_eq!(wrap_lines("short words here", 5), strings(&["short words here"]));
    let long_word = "w".repeat(30);
    assert_eq!(wrap_lines(&format!("a {}", long_word), 20), vec!["a".to_string(), long_word]);
    let msg = (1..=12).map(|i| i.to_string()).collect::<Vec<_>>().join("\n");
    let (shown, more) = review_preview(&msg);
    assert_eq!(shown.len(), 10);
    assert_eq!(more, 2);
    assert_eq!(review_preview("a\nb"), (strings(&["a", "b"]), 0));
}
