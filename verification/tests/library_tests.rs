use gogit::config::Config;
use gogit::cybersec::{CybersecConfig, CybersecMode, SecurityTopics};
use gogit::doc::{DocGenerator, ReadmeMode};
use gogit::github::{resolve_token, GitHubError};
use gogit::hook::HookManager;
use gogit::refactor::Refactorer;
use gogit::review::Reviewer;
use gogit::search::HistorySearcher;
use gogit::testgen::{Language, TestFramework, TestGenerator, TestLocation, TestOptions};
use gogit::theme::{strip_finishes, Color, MarkdownRenderer, Theme};

fn text(v: &[(char, gogit::theme::Style)]) -> String {
    v.iter().map(|p| p.0).collect()
}

#[test]
fn languages_by_extension() {
    assert_eq!(Language::from_extension("RS"), Language::Rust);
    assert_eq!(Language::from_extension("tsx"), Language::TypeScript);
    assert_eq!(Language::from_extension("cjs"), Language::JavaScript);
    assert_eq!(Language::from_extension("rb"), Language::Unknown);
    assert_eq!(Language::CSharp.display_name(), "C#");
    assert!(Language::Go.is_supported());
    assert!(!Language::Unknown.is_supported());
    assert_eq!(TestGenerator::detect_language("src/app/main.PY"), Language::Python);
    assert_eq!(TestGenerator::detect_language("Makefile"), Language::Unknown);
    assert_eq!(TestGenerator::detect_language(".rs"), Language::Unknown);
}

#[test]
fn frameworks() {
    assert_eq!(TestFramework::TokioTest.display_name(), "Tokio Test (#[tokio::test])");
    assert_eq!(TestFramework::Pytest.test_keyword(), "def test_");
    assert_eq!(TestFramework::xUnit.test_keyword(), "[Fact]");
    assert_eq!(TestGenerator::framework_from_name("JEST"), TestFramework::Jest);
    assert_eq!(TestGenerator::framework_from_name("whatever"), TestFramework::Unknown);
}

#[test]
fn suggested_test_locations() {
    assert_eq!(TestGenerator::suggest_test_location(&Language::Rust, "src/parser.rs", &[]), "tests/parser_test.rs");
    assert_eq!(TestGenerator::suggest_test_location(&Language::Go, "pkg/x.go", &[]), "x_test.go");
    assert_eq!(TestGenerator::suggest_test_location(&Language::TypeScript, "src/a.ts", &[]), "__tests__/a_test.ts");
    let existing = vec![TestLocation { path: "spec".to_string(), exists: true, is_directory: true, test_files: vec![] }];
    assert_eq!(TestGenerator::suggest_test_location(&Language::JavaScript, "lib/b.js", &existing), "spec/b.test.js");
    // The suggested file is detected as the same language again.
    for l in [Language::Rust, Language::JavaScript, Language::TypeScript, Language::Python, Language::Go, Language::Java, Language::CSharp] {
        let p = TestGenerator::suggest_test_location(&l, "src/mod.x", &[]);
        assert_eq!(TestGenerator::detect_language(&p), l);
    }
}

#[test]
fn function_names_in_source() {
    let src = "fn main() {}\npub async fn fetch(u: &str) {}\nfn _hidden() {}\nlet x = 1;\n";
    assert_eq!(TestGenerator::analyze_source_functions(src, &Language::Rust), vec!["main".to_string(), "fetch".to_string()]);
    assert!(TestGenerator::is_test_file_name("parser_TEST.rs"));
    assert!(TestGenerator::is_test_file_name("a.spec.ts"));
    assert!(!TestGenerator::is_test_file_name("main.rs"));
}

#[test]
fn test_options_default() {
    let o = TestOptions::default();
    assert_eq!(o.test_type, "unit");
    assert!(o.framework.is_none());
    assert!(!o.preview_only);
}

#[test]
fn markdown_rendering() {
    let r = MarkdownRenderer::render("hello *world*").unwrap();
    assert_eq!(text(&r), "hello world\n");
    let r = MarkdownRenderer::render("- a\n- b\n").unwrap();
    assert_eq!(text(&r), "  ▸ a\n  ▸ b\n");
    let a = r.iter().find(|p| p.0 == 'a').unwrap();
    assert_eq!(a.1.color, Color::Yellow);
}

#[test]
fn inline_emphasis() {
    let s = MarkdownRenderer::style_inline("a **b** c");
    assert_eq!(text(&s), "a b c");
    assert!(s[2].1.bold);
    assert!(!s[0].1.bold);
    let s = MarkdownRenderer::style_inline("x _y_");
    assert_eq!(text(&s), "x y");
    assert!(s[2].1.dim);
    // An unpaired marker leaves the rest of the line twice, and the later
    // passes read the doubled text again.
    assert_eq!(text(&MarkdownRenderer::style_inline("**x")), "*x*x*x");
    assert_eq!(text(&MarkdownRenderer::style_inline("a *b")), "a *ba *b");
}

#[test]
fn html_reading() {
    assert_eq!(MarkdownRenderer::strip_tags("<p><strong>Hi</strong></p>"), "Hi");
    let r = MarkdownRenderer::html_to_styled("<h2>\nTitle\n</h2>\n<p>body</p>\n").unwrap();
    assert_eq!(text(&r), "\n## Title\n-----\n\nbody\n");
    // A link keeps the tag stripping from finishing.
    assert!(MarkdownRenderer::html_to_styled("<p>see [x](y)</p>").is_none());
}

#[test]
fn theme_colours() {
    let g = Theme::neon_green();
    assert_eq!((g.r, g.g, g.b), (0, 255, 0));
    let o = Theme::neon_orange();
    assert_eq!((o.r, o.g, o.b), (255, 153, 0));
}

#[test]
fn security_mode() {
    assert_eq!(CybersecMode::get_system_prompt("learn"), CybersecMode::learn_prompt());
    assert_eq!(CybersecMode::get_system_prompt("ctf"), CybersecMode::ctf_prompt());
    assert_eq!(CybersecMode::get_system_prompt("other"), CybersecMode::interactive_prompt());
    assert!(CybersecMode::get_welcome_message().contains("GOGIT CYBERSECURITY MODE"));
    assert_eq!(SecurityTopics::get_topics()[0], ("xss", "Cross-Site Scripting (XSS)"));
    assert_eq!(SecurityTopics::get_tools()[0], ("nmap", "Network scanner"));
    let c = CybersecConfig::default();
    assert_eq!(c.mode, "interactive");
    assert!(c.target.is_none());
}

#[test]
fn configuration_defaults() {
    let c = Config::default();
    assert_eq!(c.model, "gemini-3-flash-preview");
    assert_eq!(c.provider, "gemini");
    assert_eq!(c.ollama_base_url.as_deref(), Some("http://localhost:11434"));
    assert_eq!(c.max_stale_branches, Some(20));
    assert!(c.api_key.is_none() && c.commit_prompt.is_none());
    assert_eq!(Config::config_file_path("/home/u/.config"), "/home/u/.config/gogit/config.toml");
    let c = c.with_model("m2".to_string());
    assert_eq!(c.model, "m2");
    let c = c.with_provider("openrouter".to_string(), "openai/gpt-4o-mini".to_string());
    assert_eq!(c.provider, "openrouter");
    assert_eq!(c.model, "openai/gpt-4o-mini");
}

#[test]
fn hook_files() {
    assert_eq!(HookManager::get_hook_path(), ".git/hooks/prepare-commit-msg");
    assert_eq!(
        HookManager::hook_script("/usr/bin/gogit"),
        "#!/bin/sh\n# gogit: AI-powered commit generation\n# Intercepts manual 'git commit' calls\nexec \"/usr/bin/gogit\" commit \"$@\" < /dev/tty\n"
    );
}

#[test]
fn github_tokens() {
    assert_eq!(resolve_token(Some("a".to_string()), Some("b".to_string()), None).unwrap(), "a");
    assert_eq!(resolve_token(None, Some("b".to_string()), None).unwrap(), "b");
    assert_eq!(resolve_token(None, None, Some(" c \n".to_string())).unwrap(), "c");
    match resolve_token(None, None, Some("  ".to_string())) {
        Err(GitHubError::Env(m)) => assert_eq!(m, "environment variable not found"),
        _ => panic!(),
    }
    assert_eq!(GitHubError::Git("x".to_string()).message(), "Git error: x");
    assert_eq!(GitHubError::Octocrab("x".to_string()).message(), "GitHub API error: x");
}

#[test]
fn review_refactor_search() {
    assert!(!Reviewer::has_changes(" \n"));
    assert_eq!(Reviewer::review_prompt("d"), "Code to review:\n\nd");
    assert!(Refactorer::is_large(&"x".repeat(100_001)));
    assert!(!Refactorer::is_large(&"x".repeat(100_000)));
    assert_eq!(Refactorer::refactor_prompt("i", "c"), "REQUESTED CHANGE: i\n\nFILE CONTENT:\n\nc");
    assert_eq!(Refactorer::refactored_content("```rust\nfn a() {}\n```").unwrap(), "fn a() {}");
    assert_eq!(Refactorer::refactored_content("```\n```").unwrap_err(), "AI returned empty content. Refactoring aborted.");
    assert_eq!(HistorySearcher::best_match(" NONE\n"), None);
    assert_eq!(HistorySearcher::best_match(" abc123\n"), Some("abc123".to_string()));
    assert_eq!(HistorySearcher::search_prompt("q", "h"), "QUERY: q\n\nHISTORY:\nh");
    assert_eq!(HistorySearcher::show_args("abc"), vec!["show".to_string(), "--stat".to_string(), "abc".to_string()]);
}

#[test]
fn documentation() {
    assert_eq!(DocGenerator::readme_mode(false, false), ReadmeMode::General);
    assert_eq!(DocGenerator::readme_mode(true, true), ReadmeMode::General);
    assert_eq!(DocGenerator::readme_mode(true, false), ReadmeMode::Update);
    assert_eq!(DocGenerator::update_context("R", "D"), "EXISTING README:\nR\n\nSTAGED CHANGES:\nD");
    assert!(DocGenerator::is_context_source(true, Some("rs")));
    assert!(!DocGenerator::is_context_source(true, Some("md")));
    assert!(!DocGenerator::is_context_source(false, Some("rs")));
    let content = (1..=50).map(|i| format!("l{}", i)).collect::<Vec<_>>().join("\n");
    let e = DocGenerator::context_file_entry("a.rs", &content);
    assert!(e.starts_with("\nFILE: a.rs\nCONTENT SNIPPET (First 40 lines):\nl1\nl2\n"));
    assert!(e.ends_with("l40\n"));
    assert_eq!(DocGenerator::readme_from_reply("```md\n# T\n```").unwrap(), "# T");
    assert_eq!(DocGenerator::readme_from_reply("  ").unwrap_err(), "Failed to parse AI response into valid Markdown.");
    assert_eq!(DocGenerator::preview("a\nb"), "a\nb");
}

#[test]
fn names_in_existing_tests() {
    let files = vec![
        ("tests/a_test.rs".to_string(), Some("#[test]\nfn parses() {}\nfn parses() {}\nfn _skip() {}\n".to_string())),
        ("tests/b.py".to_string(), Some("def test_x(self):\n".to_string())),
        ("tests/unreadable.rs".to_string(), None),
    ];
    assert_eq!(TestGenerator::analyze_existing_tests(&files), vec!["parses".to_string(), "test_x".to_string()]);
}

#[test]
fn tag_stripping_that_finishes() {
    assert!(strip_finishes(&"<p>plain</p>".chars().collect()));
    assert!(!strip_finishes(&"<p>[link](x)</p>".chars().collect()));
}
