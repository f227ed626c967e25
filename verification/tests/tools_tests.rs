use gogit::testgen::{Language, TestFramework};
use gogit::tools::{ProjectFile, ToolKind, ToolRegistry};

fn strings(v: &[&str]) -> Vec<String> {
    v.iter().map(|s| s.to_string()).collect()
}

#[test]
fn every_defined_tool_is_dispatched() {
    let defs = ToolRegistry::get_definitions();
    assert_eq!(defs.len(), 21);
    for d in &defs {
        assert_eq!(d.tool_type, "function");
        assert!(ToolRegistry::tool_kind(&d.function.name).is_some(), "{}", d.function.name);
        if let Some(req) = &d.function.parameters.required {
            for r in req {
                assert!(d.function.parameters.properties.iter().any(|p| &p.name == r));
            }
        }
    }
    assert_eq!(ToolRegistry::tool_kind("git_status"), Some(ToolKind::GitStatus));
    assert_eq!(ToolRegistry::tool_kind("nope"), None);
    assert_eq!(ToolRegistry::unknown_tool_message("nope"), "Error: Tool 'nope' not found.");
}

#[test]
fn paths_expand_home() {
    assert_eq!(ToolRegistry::expand_path("~/x/y", Some("/home/u")), "/home/u/x/y");
    assert_eq!(ToolRegistry::expand_path("/etc/hosts", Some("/home/u")), "/etc/hosts");
    assert_eq!(ToolRegistry::expand_path("~/x", None), "~/x");
    assert_eq!(ToolRegistry::expand_path("~x", Some("/h")), "~x");
}

#[test]
fn output_truncation() {
    assert_eq!(ToolRegistry::truncate_output("a\nb", 5), "a\nb");
    assert_eq!(ToolRegistry::truncate_output("a\nb\nc\nd\ne", 2), "a\n... (3 lines truncated) ...\ne");
    assert_eq!(ToolRegistry::command_report(0, "out", ""), "Exit Code: 0\nSTDOUT:\nout");
    assert_eq!(ToolRegistry::command_report(-1, "", "err"), "Exit Code: -1\nSTDOUT:\n\nSTDERR:\nerr");
}

#[test]
fn dangerous_commands_are_blocked_in_any_case() {
    assert!(ToolRegistry::is_dangerous("sudo RM -RF / --no-preserve-root"));
    assert!(ToolRegistry::is_dangerous("mkfs.ext4 /dev/sdb"));
    assert!(ToolRegistry::is_dangerous("FORMAT C:"));
    assert!(!ToolRegistry::is_dangerous("nmap -sV localhost"));
    let m = ToolRegistry::blocked_message("mkfs");
    assert!(m.starts_with("⚠️ BLOCKED: This command appears dangerous and has been blocked.\n\nCommand: mkfs\n"));
}

#[test]
fn execution_plans() {
    let p = ToolRegistry::plan_execution("/tmp/a.py", "PY", "a", "/tmp", "1 2", false).unwrap();
    assert_eq!(p.program, "python3");
    assert_eq!(p.args, strings(&["/tmp/a.py", "1", "2"]));
    assert_eq!(p.current_dir, None);
    let p = ToolRegistry::plan_execution("/p/src/main.rs", "rs", "main", "/p", "", true).unwrap();
    assert_eq!(p.program, "cargo");
    assert_eq!(p.args, strings(&["run"]));
    assert_eq!(p.current_dir.as_deref(), Some("/p"));
    let p = ToolRegistry::plan_execution("m.rs", "rs", "m", ".", "x", false).unwrap();
    assert_eq!(p.args, strings(&["-c", "rustc m.rs -o m && ./m x"]));
    let p = ToolRegistry::plan_execution("g.go", "go", "g", ".", "", false).unwrap();
    assert_eq!(p.args, strings(&["run", "g.go"]));
    assert_eq!(ToolRegistry::plan_execution("x.rb", "rb", "x", ".", "", false).unwrap_err(), "Error: Unsupported file type: .rb");
}

#[test]
fn branch_tool() {
    assert_eq!(ToolRegistry::branch_args("bogus", "x").unwrap(), strings(&["branch"]));
    assert_eq!(ToolRegistry::branch_args("create", "f").unwrap(), strings(&["branch", "f"]));
    assert_eq!(ToolRegistry::branch_args("delete", "f").unwrap(), strings(&["branch", "-d", "f"]));
    assert_eq!(ToolRegistry::branch_args("create", "").unwrap_err(), "Error: branch name required for create.");
    assert_eq!(ToolRegistry::branch_report("create", "f", ""), "Successfully performed 'create' on branch 'f'.");
    assert_eq!(ToolRegistry::branch_report("list", "", ""), "");
}

#[test]
fn web_search_messages() {
    assert_eq!(
        ToolRegistry::duckduckgo_message("a b"),
        "DuckDuckGo Search Results for 'a b':\n(Parsing HTML is complex; Tavily key recommended for better results)\nURL: https://html.duckduckgo.com/html/?q=a%20b"
    );
    assert!(ToolRegistry::duckduckgo_message("é").ends_with("?q=%C3%A9"));
    assert!(ToolRegistry::duckduckgo_message("a-b_c.d~").ends_with("?q=a-b_c.d~"));
    assert_eq!(ToolRegistry::search_hits_message(&vec![]), "No results found.");
    let hits = vec![("\"T\"".to_string(), "\"u\"".to_string(), "\"c\"".to_string())];
    assert_eq!(ToolRegistry::search_hits_message(&hits), "### \"T\"\nURL: \"u\"\n\"c\"\n\n");
}

#[test]
fn text_reports() {
    assert_eq!(ToolRegistry::cut_text("abcdef", 3, "..."), "abc...");
    assert_eq!(ToolRegistry::cut_text("ab", 3, "..."), "ab");
    assert_eq!(ToolRegistry::diff_report(""), "No changes found.");
    assert_eq!(ToolRegistry::diff_report("d"), "d");
    assert_eq!(ToolRegistry::search_code_report(""), "No matches found.");
    assert_eq!(ToolRegistry::commit_report("o", "e"), "STDOUT:\no\n\nSTDERR:\ne");
    assert_eq!(ToolRegistry::log_args(7), strings(&["log", "-n7", "--oneline"]));
    assert_eq!(ToolRegistry::write_success_message("a.txt"), "Successfully wrote to a.txt");
}

#[test]
fn listings() {
    let e = vec![(true, "./src".to_string()), (false, "./a.rs".to_string())];
    assert_eq!(ToolRegistry::listing_report(&e, "Empty tree."), "[DIR] ./src\n[FILE] ./a.rs");
    assert_eq!(ToolRegistry::listing_report(&vec![], "Empty tree."), "Empty tree.");
}

#[test]
fn project_detection() {
    let files = vec![
        ProjectFile { name: "package.json".to_string(), content: Some("{\"name\": \"web\"}".to_string()) },
        ProjectFile { name: "yarn.lock".to_string(), content: None },
    ];
    let s = ToolRegistry::detect_project(&files);
    assert_eq!(s.project_type, "nodejs");
    assert_eq!(s.project_name, "web");
    assert_eq!(s.package_manager, "yarn");
    assert_eq!(s.config_files, strings(&["package.json", "yarn.lock"]));
    assert!(s.detected);
    let s = ToolRegistry::detect_project(&vec![ProjectFile {
        name: "Cargo.toml".to_string(),
        content: Some("name = \"gogit\"\nversion = \"0.1.0\"".to_string()),
    }]);
    assert_eq!(s.project_type, "rust");
    assert_eq!(s.project_name, "gogit");
    assert_eq!(s.package_manager, "default");
    let s = ToolRegistry::detect_project(&vec![]);
    assert_eq!(s.project_type, "unknown");
    assert!(!s.detected);
}

#[test]
fn workspace_details() {
    assert_eq!(ToolRegistry::common_scripts(&strings(&["dev", "x", "test"])), strings(&["dev", "test"]));
    assert_eq!(ToolRegistry::go_module_count("module m\nrequire (\n a v1\n b v2\n)\n"), 3);
    assert_eq!(ToolRegistry::env_variables("A=1\n# c\nB=2\n"), strings(&["A", "B"]));
}

#[test]
fn generated_tool_texts() {
    let t = ToolRegistry::tests_tool_message(&Language::Rust, &TestFramework::RustNative, "tests/a_test.rs", "src/a.rs");
    assert!(t.starts_with("I can generate tests for Rust ("));
    assert!(t.contains("Suggested location: tests/a_test.rs"));
    let p = ToolRegistry::preview_message("a.rs", "rename");
    assert!(p.starts_with("To preview edits, please use the CLI command:\n$ gogit fix a.rs \"rename\""));
}
