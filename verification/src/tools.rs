//! The agent's tools: their definitions as offered to the model, the
//! dispatch of a call to a tool, and the pure parts of running them (path
//! expansion, output truncation, safety checks, execution plans, and the
//! text of their results).
use vstd::prelude::*;
use crate::ai::{ParamProperty, ToolDefinition, ToolFunctionDefinition, ToolParameters};
use crate::text::{
    before_char, before_char_exec, chars_of, contains, contains_exec, cut_at_byte, cut_at_byte_exec,
    decimal, decimal_exec, decimal_int, decimal_i64_exec, eq_str, eq_vec, join, join_exec, lines,
    lines_exec, lower, lower_vec, on_boundary, push_all, push_str, slice, starts_with,
    starts_with_exec, string_of, strip_prefixes, strip_prefixes_exec, strip_suffix_chars,
    strip_suffix_chars_exec, sub_views, to_lowercase, unicode_lower, trim, trim_exec, utf8_len, views, words, words_exec, lemma_views_push,
};
use crate::testgen::string_views;
use crate::json::{json_object_keys, json_object_keys_at, json_result_hits, json_result_hits_of, json_str, json_str_field};

verus! {

/// A tool parameter as plain values: name, type, description, allowed
/// values, item type, and additional-property type.
pub type PropView = (Seq<char>, Seq<char>, Seq<char>, Seq<Seq<char>>, Option<Seq<char>>, Option<Seq<char>>);

/// A tool definition as plain values: type, name, description, parameters,
/// and required parameter names.
pub type ToolView = (Seq<char>, Seq<char>, Seq<char>, Seq<PropView>, Option<Seq<Seq<char>>>);

pub open spec fn prop_view(p: ParamProperty) -> PropView {
    (p.name@, p.kind@, p.description@, string_views(p.enum_values@), crate::ai::opt_view(p.items_kind), crate::ai::opt_view(p.additional_kind))
}

pub open spec fn tool_view(t: ToolDefinition) -> ToolView {
    (
        t.tool_type@,
        t.function.name@,
        t.function.description@,
        t.function.parameters.properties@.map_values(|p: ParamProperty| prop_view(p)),
        match t.function.parameters.required {
            Some(v) => Some(string_views(v@)),
            None => None,
        },
    )
}

pub open spec fn entry_read_file() -> ToolView {
    (
        "function"@,
        "read_file"@,
        "Read the contents of a file in the repository."@,
        seq![
            ("path"@, "string"@, "The path to the file to read."@, seq![], None, None),
        ],
        Some(seq!["path"@]),
    )
}

pub open spec fn entry_write_file() -> ToolView {
    (
        "function"@,
        "write_file"@,
        "Write content to a file in the repository."@,
        seq![
            ("path"@, "string"@, "The path to the file to write."@, seq![], None, None),
            ("content"@, "string"@, "The content to write to the file."@, seq![], None, None),
        ],
        Some(seq!["path"@, "content"@]),
    )
}

pub open spec fn entry_list_directory() -> ToolView {
    (
        "function"@,
        "list_directory"@,
        "List the contents of a directory (shallow)."@,
        seq![
            ("path"@, "string"@, "The directory path (default is '.')."@, seq![], None, None),
        ],
        None,
    )
}

pub open spec fn entry_get_file_tree() -> ToolView {
    (
        "function"@,
        "get_file_tree"@,
        "Get a recursive tree of files in the project."@,
        seq![
            ("path"@, "string"@, "Starting directory (default is '.')."@, seq![], None, None),
            ("depth"@, "integer"@, "Maximum recursion depth (default 3)."@, seq![], None, None),
        ],
        None,
    )
}

pub open spec fn entry_web_search() -> ToolView {
    (
        "function"@,
        "web_search"@,
        "Search the web for information using Tavily or DuckDuckGo."@,
        seq![
            ("query"@, "string"@, "The search query."@, seq![], None, None),
        ],
        Some(seq!["query"@]),
    )
}

pub open spec fn entry_read_url() -> ToolView {
    (
        "function"@,
        "read_url"@,
        "Read the text content of a URL."@,
        seq![
            ("url"@, "string"@, "The URL to fetch."@, seq![], None, None),
        ],
        Some(seq!["url"@]),
    )
}

pub open spec fn entry_run_command() -> ToolView {
    (
        "function"@,
        "run_command"@,
        "Execute a shell command with options. Requires user confirmation."@,
        seq![
            ("command"@, "string"@, "The shell command to execute."@, seq![], None, None),
            ("cwd"@, "string"@, "Working directory to run command in (default: current directory)."@, seq![], None, None),
            ("timeout"@, "integer"@, "Timeout in seconds (default: 60, max: 300)."@, seq![], None, None),
            ("env"@, "object"@, "Additional environment variables as key-value pairs."@, seq![], None, Some("string"@)),
        ],
        Some(seq!["command"@]),
    )
}

pub open spec fn entry_git_status() -> ToolView {
    (
        "function"@,
        "git_status"@,
        "Get the current status of the git repository."@,
        seq![],
        None,
    )
}

pub open spec fn entry_git_diff() -> ToolView {
    (
        "function"@,
        "git_diff"@,
        "Get the diff of current changes."@,
        seq![
            ("staged"@, "boolean"@, "Whether to show staged changes (default false)."@, seq![], None, None),
        ],
        None,
    )
}

pub open spec fn entry_git_add() -> ToolView {
    (
        "function"@,
        "git_add"@,
        "Add file contents to the git index."@,
        seq![
            ("paths"@, "array"@, "List of paths to add (e.g. ['.'] or ['src/main.rs'])."@, seq![], Some("string"@), None),
        ],
        Some(seq!["paths"@]),
    )
}

pub open spec fn entry_git_commit() -> ToolView {
    (
        "function"@,
        "git_commit"@,
        "Record changes to the repository. Requires user confirmation."@,
        seq![
            ("message"@, "string"@, "The commit message."@, seq![], None, None),
        ],
        Some(seq!["message"@]),
    )
}

pub open spec fn entry_git_log() -> ToolView {
    (
        "function"@,
        "git_log"@,
        "Show the commit logs."@,
        seq![
            ("limit"@, "integer"@, "Maximum number of commits to show (default 5)."@, seq![], None, None),
        ],
        None,
    )
}

pub open spec fn entry_git_branch() -> ToolView {
    (
        "function"@,
        "git_branch"@,
        "List, create, or delete branches."@,
        seq![
            ("action"@, "string"@, "The action to perform (default 'list')."@, seq!["list"@, "create"@, "delete"@], None, None),
            ("name"@, "string"@, "The branch name (required for create/delete)."@, seq![], None, None),
        ],
        None,
    )
}

pub open spec fn entry_search_code() -> ToolView {
    (
        "function"@,
        "search_code"@,
        "Search for a string or pattern in the codebase."@,
        seq![
            ("pattern"@, "string"@, "The pattern to search for."@, seq![], None, None),
            ("path"@, "string"@, "Directory to search in (default '.')."@, seq![], None, None),
        ],
        Some(seq!["pattern"@]),
    )
}

pub open spec fn entry_detect_project_type() -> ToolView {
    (
        "function"@,
        "detect_project_type"@,
        "Detect the project type and available information from config files."@,
        seq![
            ("path"@, "string"@, "Directory to scan (default '.')."@, seq![], None, None),
        ],
        None,
    )
}

pub open spec fn entry_get_workspace_info() -> ToolView {
    (
        "function"@,
        "get_workspace_info"@,
        "Get comprehensive workspace information including dependencies, scripts, and configuration."@,
        seq![
            ("path"@, "string"@, "Directory to scan (default '.')."@, seq![], None, None),
        ],
        None,
    )
}

pub open spec fn entry_generate_tests() -> ToolView {
    (
        "function"@,
        "generate_tests"@,
        "Generate unit or integration tests for a source file. Supports Rust, JavaScript, TypeScript, Python, Go, Java, and C#."@,
        seq![
            ("file_path"@, "string"@, "Path to the source file to generate tests for."@, seq![], None, None),
            ("test_type"@, "string"@, "Type of tests to generate (default: unit)."@, seq!["unit"@, "integration"@], None, None),
            ("framework"@, "string"@, "Specific test framework to use (optional). Examples: jest, vitest, pytest, tokio, junit5, xunit."@, seq![], None, None),
        ],
        Some(seq!["file_path"@]),
    )
}

pub open spec fn entry_execute_code() -> ToolView {
    (
        "function"@,
        "execute_code"@,
        "Execute a source code file and return the output. Supports Rust, JavaScript, TypeScript, Python, Go, Java, and C#."@,
        seq![
            ("file_path"@, "string"@, "Path to the source file to execute."@, seq![], None, None),
            ("args"@, "string"@, "Command line arguments to pass to the program."@, seq![], None, None),
            ("timeout"@, "integer"@, "Timeout in seconds (default: 60, max: 300)."@, seq![], None, None),
        ],
        Some(seq!["file_path"@]),
    )
}

pub open spec fn entry_preview_edit() -> ToolView {
    (
        "function"@,
        "preview_edit"@,
        "Show AI proposed changes as a diff before applying. Safer than direct editing."@,
        seq![
            ("file_path"@, "string"@, "Path to the file to edit."@, seq![], None, None),
            ("instruction"@, "string"@, "Instructions for the changes to make."@, seq![], None, None),
            ("show_diff"@, "boolean"@, "Whether to show unified diff format (default: true)."@, seq![], None, None),
        ],
        Some(seq!["file_path"@, "instruction"@]),
    )
}

pub open spec fn entry_scaffold_template() -> ToolView {
    (
        "function"@,
        "scaffold_template"@,
        "Generate boilerplate code using AI. The AI will analyze your project and generate appropriate scaffolding."@,
        seq![
            ("name"@, "string"@, "Name of the component, module, or file to create."@, seq![], None, None),
            ("template_type"@, "string"@, "Type: component, module, class, function, service, controller, model, etc."@, seq![], None, None),
            ("output_path"@, "string"@, "Where to save the generated file."@, seq![], None, None),
            ("options"@, "object"@, "Additional options like framework, style, etc."@, seq![], None, None),
        ],
        Some(seq!["name"@, "output_path"@]),
    )
}

pub open spec fn entry_security_command() -> ToolView {
    (
        "function"@,
        "security_command"@,
        "Execute a security/reconnaissance command with explanation. Shows command before execution."@,
        seq![
            ("command"@, "string"@, "The security/reconnaissance command to execute."@, seq![], None, None),
            ("explanation"@, "string"@, "Explanation of what this command does (for educational purpose)."@, seq![], None, None),
            ("timeout"@, "integer"@, "Timeout in seconds (default: 30, max: 120)."@, seq![], None, None),
        ],
        Some(seq!["command"@, "explanation"@]),
    )
}

pub open spec fn tool_catalog() -> Seq<ToolView> {
    seq![
        entry_read_file(),
        entry_write_file(),
        entry_list_directory(),
        entry_get_file_tree(),
        entry_web_search(),
        entry_read_url(),
        entry_run_command(),
        entry_git_status(),
        entry_git_diff(),
        entry_git_add(),
        entry_git_commit(),
        entry_git_log(),
        entry_git_branch(),
        entry_search_code(),
        entry_detect_project_type(),
        entry_get_workspace_info(),
        entry_generate_tests(),
        entry_execute_code(),
        entry_preview_edit(),
        entry_scaffold_template(),
        entry_security_command(),
    ]
}

fn param(
    name: &str,
    kind: &str,
    description: &str,
    enum_values: Vec<String>,
    items_kind: Option<String>,
    additional_kind: Option<String>,
) -> (r: ParamProperty)
    ensures
        r.name@ == name@,
        r.kind@ == kind@,
        r.description@ == description@,
        r.enum_values == enum_values,
        r.items_kind == items_kind,
        r.additional_kind == additional_kind,
{
    ParamProperty {
        name: String::from_str(name),
        kind: String::from_str(kind),
        description: String::from_str(description),
        enum_values,
        items_kind,
        additional_kind,
    }
}

fn tool(name: &str, description: &str, properties: Vec<ParamProperty>, required: Option<Vec<String>>) -> (r: ToolDefinition)
    ensures
        r.tool_type@ == "function"@,
        r.function.name@ == name@,
        r.function.description@ == description@,
        r.function.parameters.properties == properties,
        r.function.parameters.required == required,
{
    ToolDefinition {
        tool_type: String::from_str("function"),
        function: ToolFunctionDefinition {
            name: String::from_str(name),
            description: String::from_str(description),
            parameters: ToolParameters { properties, required },
        },
    }
}

fn def_read_file() -> (r: ToolDefinition)
    ensures
        tool_view(r) == entry_read_file(),
{
    let props: Vec<ParamProperty> = vec![
        param("path", "string", "The path to the file to read.", vec![], None, None),
    ];
    let r = tool("read_file", "Read the contents of a file in the repository.", props, Some(vec![String::from_str("path")]));
    assert(tool_view(r) =~~= entry_read_file());
    r
}

fn def_write_file() -> (r: ToolDefinition)
    ensures
        tool_view(r) == entry_write_file(),
{
    let props: Vec<ParamProperty> = vec![
        param("path", "string", "The path to the file to write.", vec![], None, None),
        param("content", "string", "The content to write to the file.", vec![], None, None),
    ];
    let r = tool("write_file", "Write content to a file in the repository.", props, Some(vec![String::from_str("path"), String::from_str("content")]));
    assert(tool_view(r) =~~= entry_write_file());
    r
}

fn def_list_directory() -> (r: ToolDefinition)
    ensures
        tool_view(r) == entry_list_directory(),
{
    let props: Vec<ParamProperty> = vec![
        param("path", "string", "The directory path (default is '.').", vec![], None, None),
    ];
    let r = tool("list_directory", "List the contents of a directory (shallow).", props, None);
    assert(tool_view(r) =~~= entry_list_directory());
    r
}

fn def_get_file_tree() -> (r: ToolDefinition)
    ensures
        tool_view(r) == entry_get_file_tree(),
{
    let props: Vec<ParamProperty> = vec![
        param("path", "string", "Starting directory (default is '.').", vec![], None, None),
        param("depth", "integer", "Maximum recursion depth (default 3).", vec![], None, None),
    ];
    let r = tool("get_file_tree", "Get a recursive tree of files in the project.", props, None);
    assert(tool_view(r) =~~= entry_get_file_tree());
    r
}

fn def_web_search() -> (r: ToolDefinition)
    ensures
        tool_view(r) == entry_web_search(),
{
    let props: Vec<ParamProperty> = vec![
        param("query", "string", "The search query.", vec![], None, None),
    ];
    let r = tool("web_search", "Search the web for information using Tavily or DuckDuckGo.", props, Some(vec![String::from_str("query")]));
    assert(tool_view(r) =~~= entry_web_search());
    r
}

fn def_read_url() -> (r: ToolDefinition)
    ensures
        tool_view(r) == entry_read_url(),
{
    let props: Vec<ParamProperty> = vec![
        param("url", "string", "The URL to fetch.", vec![], None, None),
    ];
    let r = tool("read_url", "Read the text content of a URL.", props, Some(vec![String::from_str("url")]));
    assert(tool_view(r) =~~= entry_read_url());
    r
}

fn def_run_command() -> (r: ToolDefinition)
    ensures
        tool_view(r) == entry_run_command(),
{
    let props: Vec<ParamProperty> = vec![
        param("command", "string", "The shell command to execute.", vec![], None, None),
        param("cwd", "string", "Working directory to run command in (default: current directory).", vec![], None, None),
        param("timeout", "integer", "Timeout in seconds (default: 60, max: 300).", vec![], None, None),
        param("env", "object", "Additional environment variables as key-value pairs.", vec![], None, Some(String::from_str("string"))),
    ];
    let r = tool("run_command", "Execute a shell command with options. Requires user confirmation.", props, Some(vec![String::from_str("command")]));
    assert(tool_view(r) =~~= entry_run_command());
    r
}

fn def_git_status() -> (r: ToolDefinition)
    ensures
        tool_view(r) == entry_git_status(),
{
    let props: Vec<ParamProperty> = Vec::new();
    let r = tool("git_status", "Get the current status of the git repository.", props, None);
    assert(tool_view(r) =~~= entry_git_status());
    r
}

fn def_git_diff() -> (r: ToolDefinition)
    ensures
        tool_view(r) == entry_git_diff(),
{
    let props: Vec<ParamProperty> = vec![
        param("staged", "boolean", "Whether to show staged changes (default false).", vec![], None, None),
    ];
    let r = tool("git_diff", "Get the diff of current changes.", props, None);
    assert(tool_view(r) =~~= entry_git_diff());
    r
}

fn def_git_add() -> (r: ToolDefinition)
    ensures
        tool_view(r) == entry_git_add(),
{
    let props: Vec<ParamProperty> = vec![
        param("paths", "array", "List of paths to add (e.g. ['.'] or ['src/main.rs']).", vec![], Some(String::from_str("string")), None),
    ];
    let r = tool("git_add", "Add file contents to the git index.", props, Some(vec![String::from_str("paths")]));
    assert(tool_view(r) =~~= entry_git_add());
    r
}

fn def_git_commit() -> (r: ToolDefinition)
    ensures
        tool_view(r) == entry_git_commit(),
{
    let props: Vec<ParamProperty> = vec![
        param("message", "string", "The commit message.", vec![], None, None),
    ];
    let r = tool("git_commit", "Record changes to the repository. Requires user confirmation.", props, Some(vec![String::from_str("message")]));
    assert(tool_view(r) =~~= entry_git_commit());
    r
}

fn def_git_log() -> (r: ToolDefinition)
    ensures
        tool_view(r) == entry_git_log(),
{
    let props: Vec<ParamProperty> = vec![
        param("limit", "integer", "Maximum number of commits to show (default 5).", vec![], None, None),
    ];
    let r = tool("git_log", "Show the commit logs.", props, None);
    assert(tool_view(r) =~~= entry_git_log());
    r
}

fn def_git_branch() -> (r: ToolDefinition)
    ensures
        tool_view(r) == entry_git_branch(),
{
    let props: Vec<ParamProperty> = vec![
        param("action", "string", "The action to perform (default 'list').", vec![String::from_str("list"), String::from_str("create"), String::from_str("delete")], None, None),
        param("name", "string", "The branch name (required for create/delete).", vec![], None, None),
    ];
    let r = tool("git_branch", "List, create, or delete branches.", props, None);
    assert(tool_view(r) =~~= entry_git_branch());
    r
}

fn def_search_code() -> (r: ToolDefinition)
    ensures
        tool_view(r) == entry_search_code(),
{
    let props: Vec<ParamProperty> = vec![
        param("pattern", "string", "The pattern to search for.", vec![], None, None),
        param("path", "string", "Directory to search in (default '.').", vec![], None, None),
    ];
    let r = tool("search_code", "Search for a string or pattern in the codebase.", props, Some(vec![String::from_str("pattern")]));
    assert(tool_view(r) =~~= entry_search_code());
    r
}

fn def_detect_project_type() -> (r: ToolDefinition)
    ensures
        tool_view(r) == entry_detect_project_type(),
{
    let props: Vec<ParamProperty> = vec![
        param("path", "string", "Directory to scan (default '.').", vec![], None, None),
    ];
    let r = tool("detect_project_type", "Detect the project type and available information from config files.", props, None);
    assert(tool_view(r) =~~= entry_detect_project_type());
    r
}

fn def_get_workspace_info() -> (r: ToolDefinition)
    ensures
        tool_view(r) == entry_get_workspace_info(),
{
    let props: Vec<ParamProperty> = vec![
        param("path", "string", "Directory to scan (default '.').", vec![], None, None),
    ];
    let r = tool("get_workspace_info", "Get comprehensive workspace information including dependencies, scripts, and configuration.", props, None);
    assert(tool_view(r) =~~= entry_get_workspace_info());
    r
}

fn def_generate_tests() -> (r: ToolDefinition)
    ensures
        tool_view(r) == entry_generate_tests(),
{
    let props: Vec<ParamProperty> = vec![
        param("file_path", "string", "Path to the source file to generate tests for.", vec![], None, None),
        param("test_type", "string", "Type of tests to generate (default: unit).", vec![String::from_str("unit"), String::from_str("integration")], None, None),
        param("framework", "string", "Specific test framework to use (optional). Examples: jest, vitest, pytest, tokio, junit5, xunit.", vec![], None, None),
    ];
    let r = tool("generate_tests", "Generate unit or integration tests for a source file. Supports Rust, JavaScript, TypeScript, Python, Go, Java, and C#.", props, Some(vec![String::from_str("file_path")]));
    assert(tool_view(r) =~~= entry_generate_tests());
    r
}

fn def_execute_code() -> (r: ToolDefinition)
    ensures
        tool_view(r) == entry_execute_code(),
{
    let props: Vec<ParamProperty> = vec![
        param("file_path", "string", "Path to the source file to execute.", vec![], None, None),
        param("args", "string", "Command line arguments to pass to the program.", vec![], None, None),
        param("timeout", "integer", "Timeout in seconds (default: 60, max: 300).", vec![], None, None),
    ];
    let r = tool("execute_code", "Execute a source code file and return the output. Supports Rust, JavaScript, TypeScript, Python, Go, Java, and C#.", props, Some(vec![String::from_str("file_path")]));
    assert(tool_view(r) =~~= entry_execute_code());
    r
}

fn def_preview_edit() -> (r: ToolDefinition)
    ensures
        tool_view(r) == entry_preview_edit(),
{
    let props: Vec<ParamProperty> = vec![
        param("file_path", "string", "Path to the file to edit.", vec![], None, None),
        param("instruction", "string", "Instructions for the changes to make.", vec![], None, None),
        param("show_diff", "boolean", "Whether to show unified diff format (default: true).", vec![], None, None),
    ];
    let r = tool("preview_edit", "Show AI proposed changes as a diff before applying. Safer than direct editing.", props, Some(vec![String::from_str("file_path"), String::from_str("instruction")]));
    assert(tool_view(r) =~~= entry_preview_edit());
    r
}

fn def_scaffold_template() -> (r: ToolDefinition)
    ensures
        tool_view(r) == entry_scaffold_template(),
{
    let props: Vec<ParamProperty> = vec![
        param("name", "string", "Name of the component, module, or file to create.", vec![], None, None),
        param("template_type", "string", "Type: component, module, class, function, service, controller, model, etc.", vec![], None, None),
        param("output_path", "string", "Where to save the generated file.", vec![], None, None),
        param("options", "object", "Additional options like framework, style, etc.", vec![], None, None),
    ];
    let r = tool("scaffold_template", "Generate boilerplate code using AI. The AI will analyze your project and generate appropriate scaffolding.", props, Some(vec![String::from_str("name"), String::from_str("output_path")]));
    assert(tool_view(r) =~~= entry_scaffold_template());
    r
}

fn def_security_command() -> (r: ToolDefinition)
    ensures
        tool_view(r) == entry_security_command(),
{
    let props: Vec<ParamProperty> = vec![
        param("command", "string", "The security/reconnaissance command to execute.", vec![], None, None),
        param("explanation", "string", "Explanation of what this command does (for educational purpose).", vec![], None, None),
        param("timeout", "integer", "Timeout in seconds (default: 30, max: 120).", vec![], None, None),
    ];
    let r = tool("security_command", "Execute a security/reconnaissance command with explanation. Shows command before execution.", props, Some(vec![String::from_str("command"), String::from_str("explanation")]));
    assert(tool_view(r) =~~= entry_security_command());
    r
}

/// The tools a call can name.
#[derive(Debug, Clone, Copy, PartialEq, Eq, Structural)]
pub enum ToolKind {
    ReadFile,
    WriteFile,
    ListDirectory,
    GetFileTree,
    WebSearch,
    ReadUrl,
    RunCommand,
    GitStatus,
    GitDiff,
    GitAdd,
    GitCommit,
    GitLog,
    GitBranch,
    SearchCode,
    DetectProjectType,
    GetWorkspaceInfo,
    GenerateTests,
    ExecuteCode,
    PreviewEdit,
    ScaffoldTemplate,
    SecurityCommand,
}

/// The tool a name designates, if any.
pub open spec fn tool_kind_of(n: Seq<char>) -> Option<ToolKind> {
    if n == "read_file"@ {
        Some(ToolKind::ReadFile)
    } else if n == "write_file"@ {
        Some(ToolKind::WriteFile)
    } else if n == "list_directory"@ {
        Some(ToolKind::ListDirectory)
    } else if n == "get_file_tree"@ {
        Some(ToolKind::GetFileTree)
    } else if n == "web_search"@ {
        Some(ToolKind::WebSearch)
    } else if n == "read_url"@ {
        Some(ToolKind::ReadUrl)
    } else if n == "run_command"@ {
        Some(ToolKind::RunCommand)
    } else if n == "git_status"@ {
        Some(ToolKind::GitStatus)
    } else if n == "git_diff"@ {
        Some(ToolKind::GitDiff)
    } else if n == "git_add"@ {
        Some(ToolKind::GitAdd)
    } else if n == "git_commit"@ {
        Some(ToolKind::GitCommit)
    } else if n == "git_log"@ {
        Some(ToolKind::GitLog)
    } else if n == "git_branch"@ {
        Some(ToolKind::GitBranch)
    } else if n == "search_code"@ {
        Some(ToolKind::SearchCode)
    } else if n == "detect_project_type"@ {
        Some(ToolKind::DetectProjectType)
    } else if n == "get_workspace_info"@ {
        Some(ToolKind::GetWorkspaceInfo)
    } else if n == "generate_tests"@ {
        Some(ToolKind::GenerateTests)
    } else if n == "execute_code"@ {
        Some(ToolKind::ExecuteCode)
    } else if n == "preview_edit"@ {
        Some(ToolKind::PreviewEdit)
    } else if n == "scaffold_template"@ {
        Some(ToolKind::ScaffoldTemplate)
    } else if n == "security_command"@ {
        Some(ToolKind::SecurityCommand)
    } else {
        None
    }
}

/// A web search hit.
#[derive(Debug, Clone)]
pub struct SearchResult {
    pub title: String,
    pub url: String,
    pub snippet: String,
}

/// `~/...` with the home directory in place of `~`, when it is known.
pub open spec fn expanded_path(path: Seq<char>, home: Option<Seq<char>>) -> Seq<char> {
    match home {
        Some(h) => if starts_with(path, "~/"@) {
            h + path.skip(1)
        } else {
            path
        },
        None => path,
    }
}

/// Output with its middle lines elided when it has more than `max` lines:
/// the first and last `max / 2` lines stay, with a note of how many went.
pub open spec fn truncated_output(output: Seq<char>, max: nat) -> Seq<char> {
    let ls = lines(output);
    if ls.len() <= max {
        output
    } else {
        let h = max / 2;
        join(ls.take(h as int), "\n"@) + "\n... ("@ + decimal((ls.len() - max) as nat)
            + " lines truncated) ...\n"@ + join(ls.skip(ls.len() - h), "\n"@)
    }
}

/// The report of a shell command: exit code, output (150 lines at most), and
/// error output (50 lines at most) when there is any.
pub open spec fn command_report(exit_code: int, stdout: Seq<char>, stderr: Seq<char>) -> Seq<char> {
    "Exit Code: "@ + decimal_int(exit_code) + "\nSTDOUT:\n"@ + truncated_output(stdout, 150) + if stderr.len()
        == 0 {
        seq![]
    } else {
        "\nSTDERR:\n"@ + truncated_output(stderr, 50)
    }
}

/// The report of a program run: exit code, then output (100 lines at most)
/// and error output (50 lines at most) when present, or a note that there
/// was none.
pub open spec fn execution_report(exit_code: int, stdout: Seq<char>, stderr: Seq<char>) -> Seq<char> {
    "Exit Code: "@ + decimal_int(exit_code) + "\n"@ + (if stdout.len() > 0 {
        "\nSTDOUT:\n"@ + truncated_output(stdout, 100) + "\n"@
    } else {
        seq![]
    }) + (if stderr.len() > 0 {
        "\nSTDERR:\n"@ + truncated_output(stderr, 50) + "\n"@
    } else {
        seq![]
    }) + (if stdout.len() == 0 && stderr.len() == 0 {
        "(No output)\n"@
    } else {
        seq![]
    })
}

/// What a command tool answers when the command outran its time limit.
pub open spec fn timeout_text(secs: nat) -> Seq<char> {
    "Error: Timeout after "@ + decimal(secs) + " seconds"@
}

/// What the security tool answers when the command outran its time limit.
pub open spec fn security_timeout_text(secs: nat) -> Seq<char> {
    "❌ Timeout after "@ + decimal(secs) + " seconds"@
}

/// Command fragments the security tool refuses to run.
pub open spec fn dangerous_patterns() -> Seq<Seq<char>> {
    seq![
        "rm -rf /"@, "mkfs"@, "dd if=/dev/zero"@, ":(){:|:&};:"@, "chmod 777 /"@, "> /dev/sda"@,
        "fork()"@, "while(true)"@, "format c:"@
    ]
}

/// Whether a command holds a dangerous fragment, ignoring case.
pub open spec fn is_dangerous(cmd: Seq<char>) -> bool {
    exists|i: int| 0 <= i < dangerous_patterns().len() && contains(lower(cmd), lower(#[trigger] dangerous_patterns()[i]))
}

/// The refusal shown for a dangerous command.
pub open spec fn blocked_message(cmd: Seq<char>) -> Seq<char> {
    "⚠️ BLOCKED: This command appears dangerous and has been blocked.\n\nCommand: "@ + cmd
        + "\n\nIf you believe this is a false positive, please run it manually in your terminal.\nThis safety measure is in place to prevent accidental system damage."@
}

/// The report of a security command.
pub open spec fn security_report(
    cmd: Seq<char>,
    explanation: Seq<char>,
    exit_code: int,
    stdout: Seq<char>,
    stderr: Seq<char>,
) -> Seq<char> {
    "━━━━━━━━━━━━━━━━━━━━━━━━━━━━━━━━━━━━━━━━━━━━━━\n📋 Command: "@ + cmd + "\n💡 Explanation: "@
        + explanation + "\nExit Code: "@ + decimal_int(exit_code)
        + "\n━━━━━━━━━━━━━━━━━━━━━━━━━━━━━━━━━━━━━━━━━━━━━━\n"@ + (if stdout.len() > 0 {
        "\n📤 STDOUT:\n"@ + truncated_output(stdout, 100) + "\n"@
    } else {
        seq![]
    }) + (if stderr.len() > 0 {
        "\n📛 STDERR:\n"@ + truncated_output(stderr, 50) + "\n"@
    } else {
        seq![]
    }) + (if stdout.len() == 0 && stderr.len() == 0 {
        "(No output)\n"@
    } else {
        seq![]
    })
}

/// What the branch tool runs: `git` with these arguments, or an error.
pub open spec fn branch_args(action: Seq<char>, name: Seq<char>) -> Result<Seq<Seq<char>>, Seq<char>> {
    if action == "create"@ {
        if name.len() == 0 {
            Err("Error: branch name required for create."@)
        } else {
            Ok(seq!["branch"@, name])
        }
    } else if action == "delete"@ {
        if name.len() == 0 {
            Err("Error: branch name required for delete."@)
        } else {
            Ok(seq!["branch"@, "-d"@, name])
        }
    } else {
        Ok(seq!["branch"@])
    }
}

/// What the branch tool reports from git's output.
pub open spec fn branch_report(action: Seq<char>, name: Seq<char>, stdout: Seq<char>) -> Seq<char> {
    if stdout.len() == 0 && action != "list"@ {
        "Successfully performed '"@ + action + "' on branch '"@ + name + "'."@
    } else {
        stdout
    }
}

/// The languages `execute_code` can run.
#[derive(Debug, Clone, Copy, PartialEq, Eq, Structural)]
pub enum RunLanguage {
    Rust,
    JavaScript,
    TypeScript,
    Python,
    Go,
    Java,
    CSharp,
    Unknown,
}

/// The language `execute_code` runs a file as, by lower-case extension.
pub open spec fn run_language(ext: Seq<char>) -> RunLanguage {
    if ext == "rs"@ {
        RunLanguage::Rust
    } else if ext == "js"@ || ext == "mjs"@ || ext == "cjs"@ {
        RunLanguage::JavaScript
    } else if ext == "ts"@ || ext == "mts"@ || ext == "cts"@ {
        RunLanguage::TypeScript
    } else if ext == "py"@ {
        RunLanguage::Python
    } else if ext == "go"@ {
        RunLanguage::Go
    } else if ext == "java"@ {
        RunLanguage::Java
    } else if ext == "cs"@ {
        RunLanguage::CSharp
    } else {
        RunLanguage::Unknown
    }
}

/// A process to start: program, arguments, and working directory.
#[derive(Debug, Clone)]
pub struct ExecPlan {
    pub program: String,
    pub args: Vec<String>,
    pub current_dir: Option<String>,
}

pub open spec fn plan_view(p: ExecPlan) -> (Seq<char>, Seq<Seq<char>>, Option<Seq<char>>) {
    (p.program@, string_views(p.args@), crate::ai::opt_view(p.current_dir))
}

/// How `execute_code` runs a file, given its extension, the stem of its
/// name, its parent directory, and whether that directory holds a
/// `Cargo.toml`. The language goes by the extension's lower case (ASCII
/// folding finds exactly the names listed); an unsupported extension is
/// reported in its Unicode lower case.
pub open spec fn execution_plan(
    file_path: Seq<char>,
    ext: Seq<char>,
    stem: Seq<char>,
    parent: Seq<char>,
    args: Seq<char>,
    cargo_project: bool,
) -> Result<(Seq<char>, Seq<Seq<char>>, Option<Seq<char>>), Seq<char>> {
    let lang = run_language(lower(ext));
    if lang == RunLanguage::Unknown {
        Err("Error: Unsupported file type: ."@ + unicode_lower(ext))
    } else if lang == RunLanguage::Rust {
        if cargo_project {
            Ok(("cargo"@, seq!["run"@] + if args.len() > 0 {
                seq!["--"@] + words(args)
            } else {
                seq![]
            }, Some(parent)))
        } else {
            Ok(("sh"@, seq!["-c"@, "rustc "@ + file_path + " -o "@ + stem + " && ./"@ + stem + if args.len()
                == 0 {
                seq![]
            } else {
                " "@ + args
            }], None))
        }
    } else if lang == RunLanguage::JavaScript {
        Ok(("node"@, seq![file_path] + words(args), None))
    } else if lang == RunLanguage::TypeScript {
        Ok(("sh"@, seq!["-c"@, "npx ts-node "@ + file_path + " "@ + args], None))
    } else if lang == RunLanguage::Python {
        Ok(("python3"@, seq![file_path] + words(args), None))
    } else if lang == RunLanguage::Go {
        Ok(("go"@, seq!["run"@, file_path] + words(args), None))
    } else if lang == RunLanguage::Java {
        Ok(("sh"@, seq!["-c"@, "javac "@ + file_path + " && java "@ + stem + " "@ + args], None))
    } else {
        Ok(("sh"@, seq!["-c"@, "dotnet script "@ + file_path + " -- "@ + args
            + " 2>&1 || dotnet run --project . -- "@ + args
            + " 2>&1 || echo 'Make sure dotnet is installed'"@], None))
    }
}

/// What the test-generation tool answers for a supported file.
pub open spec fn tests_tool_text(l: crate::testgen::Language, f: crate::testgen::TestFramework, suggested: Seq<char>, file_path: Seq<char>) -> Seq<char> {
    "I can generate tests for "@ + crate::testgen::language_display(l) + " ("@ + crate::testgen::framework_display(f)
        + ")!\n\nSuggested location: "@ + suggested
        + "\n\nTo generate tests, please use the CLI command:\n$ gogit testgen "@ + file_path
        + "\n\nOr use the interactive menu to select 'AI Test Gen'.\n\nThe AI will analyze your code and generate comprehensive unit tests using the appropriate framework for your project."@
}

/// What the edit-preview tool answers.
pub open spec fn preview_text(file_path: Seq<char>, instruction: Seq<char>) -> Seq<char> {
    "To preview edits, please use the CLI command:\n$ gogit fix "@ + file_path + " \""@ + instruction
        + "\"\n\nOr use the interactive menu to select 'AI Fix'.\n\nCurrent file: "@ + file_path
        + "\nInstruction: "@ + instruction + "\n\nThis will show you the proposed changes before applying."@
}

/// What the scaffolding tool answers.
pub open spec fn scaffold_text(
    template_type: Seq<char>,
    name: Seq<char>,
    output_path: Seq<char>,
    l: crate::testgen::Language,
    f: crate::testgen::TestFramework,
) -> Seq<char> {
    "To generate scaffolding, please use the CLI or chat mode.\n\nTemplate: "@ + template_type + " '"@
        + name + "'\nOutput: "@ + output_path + "\nProject Type: "@ + crate::testgen::language_display(l)
        + " ("@ + crate::testgen::framework_display(f)
        + ")\n\nThe AI will analyze your project context and generate appropriate boilerplate code.\nUse: 'gogit chat' and ask to create a "@
        + template_type + " called "@ + name
}

/// Search hits as the web-search tool lists them; each part is the JSON
/// rendering of the hit's title, URL, and content.
pub open spec fn search_hits_text(hits: Seq<(Seq<char>, Seq<char>, Seq<char>)>) -> Seq<char>
    decreases hits.len(),
{
    if hits.len() == 0 {
        seq![]
    } else {
        search_hits_text(hits.drop_last()) + "### "@ + hits.last().0 + "\nURL: "@ + hits.last().1 + "\n"@
            + hits.last().2 + "\n\n"@
    }
}

pub open spec fn hit_views(hits: Seq<(String, String, String)>) -> Seq<(Seq<char>, Seq<char>, Seq<char>)> {
    hits.map_values(|h: (String, String, String)| (h.0@, h.1@, h.2@))
}

/// What the web-search tool answers from a search service's reply: the
/// hits it lists, or a note that there were none; nothing where the reply
/// holds no list of results.
pub open spec fn search_reply_text(reply: Seq<char>) -> Option<Seq<char>> {
    match json_result_hits(reply) {
        None => None,
        Some(h) => Some(if h.len() == 0 {
            "No results found."@
        } else {
            search_hits_text(h)
        }),
    }
}

/// An unreserved URL byte: ASCII letters and digits, `-`, `.`, `_`, `~`.
pub open spec fn url_unreserved(b: u8) -> bool {
    (0x30 <= b <= 0x39) || (0x41 <= b <= 0x5a) || (0x61 <= b <= 0x7a) || b == 0x2d || b == 0x2e || b
        == 0x5f || b == 0x7e
}

pub open spec fn hex_upper(d: u8) -> char {
    if d < 10 {
        ((d + 48) as u32) as char
    } else {
        ((d + 55) as u32) as char
    }
}

/// Percent-encoding of bytes, with upper-case hex digits.
pub open spec fn url_encoded(bytes: Seq<u8>) -> Seq<char>
    decreases bytes.len(),
{
    if bytes.len() == 0 {
        seq![]
    } else {
        (if url_unreserved(bytes[0]) {
            seq![(bytes[0] as u32) as char]
        } else {
            seq!['%', hex_upper(bytes[0] / 16), hex_upper(bytes[0] % 16)]
        }) + url_encoded(bytes.drop_first())
    }
}

/// Trusted: `urlencoding::encode`, which percent-encodes every byte of the
/// UTF-8 text except ASCII alphanumerics and `-`, `_`, `.`, `~`, with
/// upper-case hex digits, as its source shows.
#[verifier::external_body]
fn url_encode(s: &str) -> (r: String)
    ensures
        r@ == url_encoded(vstd::utf8::encode_utf8(s@)),
{
    urlencoding::encode(s).into_owned()
}

/// The DuckDuckGo page the web-search tool falls back on.
pub open spec fn duckduckgo_address(query: Seq<char>) -> Seq<char> {
    "https://html.duckduckgo.com/html/?q="@ + url_encoded(vstd::utf8::encode_utf8(query))
}

/// The fallback answer of the web-search tool.
pub open spec fn duckduckgo_text(query: Seq<char>) -> Seq<char> {
    "DuckDuckGo Search Results for '"@ + query
        + "':\n(Parsing HTML is complex; Tavily key recommended for better results)\nURL: "@
        + duckduckgo_address(query)
}

/// The configuration files the project detector notes.
pub open spec fn config_file_names() -> Seq<Seq<char>> {
    seq![
        "package.json"@, "Cargo.toml"@, "go.mod"@, "requirements.txt"@, "pom.xml"@,
        "build.gradle"@, "composer.json"@, "Gemfile"@, "pyproject.toml"@, "setup.py"@,
        "Makefile"@, "docker-compose.yml"@, "Dockerfile"@, ".env.example"@, ".eslintrc"@,
        "tsconfig.json"@, ".gitignore"@, "Cargo.lock"@, "package-lock.json"@, "yarn.lock"@
    ]
}

/// The project type a file name announces.
pub open spec fn project_type_of(name: Seq<char>) -> Option<Seq<char>> {
    if name == "package.json"@ {
        Some("nodejs"@)
    } else if name == "Cargo.toml"@ {
        Some("rust"@)
    } else if name == "go.mod"@ {
        Some("go"@)
    } else if name == "requirements.txt"@ || name == "pyproject.toml"@ {
        Some("python"@)
    } else if name == "pom.xml"@ || name == "build.gradle"@ {
        Some("java"@)
    } else if name == "*.csproj"@ {
        Some("csharp"@)
    } else if name == "composer.json"@ {
        Some("php"@)
    } else if name == "Gemfile"@ {
        Some("ruby"@)
    } else {
        None
    }
}

/// A file found while scanning a project: its name, and its content when it
/// could be read.
#[derive(Debug, Clone)]
pub struct ProjectFile {
    pub name: String,
    pub content: Option<String>,
}

/// The first line starting with `p`, if any.
pub open spec fn first_line_with(ls: Seq<Seq<char>>, p: Seq<char>) -> Option<Seq<char>>
    decreases ls.len(),
{
    if ls.len() == 0 {
        None
    } else if starts_with(ls[0], p) {
        Some(ls[0])
    } else {
        first_line_with(ls.drop_first(), p)
    }
}

/// The project name a file gives, if it gives one.
pub open spec fn project_name_from(f: ProjectFile) -> Option<Seq<char>> {
    match f.content {
        None => None,
        Some(c) => if f.name@ == "package.json"@ {
            json_str(c@, "name"@)
        } else if f.name@ == "Cargo.toml"@ {
            let ls = lines(c@);
            if ls.len() > 0 && starts_with(ls[0], "name = "@) {
                Some(strip_suffix_chars(strip_prefixes(ls[0], "name = \""@), '"'))
            } else {
                None
            }
        } else if f.name@ == "go.mod"@ {
            match first_line_with(lines(c@), "module "@) {
                Some(l) => Some(strip_prefixes(l, "module "@)),
                None => None,
            }
        } else {
            None
        },
    }
}

/// (project type, project name, config files) after scanning `files`.
pub open spec fn project_scan(files: Seq<ProjectFile>) -> (Seq<char>, Seq<char>, Seq<Seq<char>>)
    decreases files.len(),
{
    if files.len() == 0 {
        ("unknown"@, "unknown"@, seq![])
    } else {
        let (t, n, cs) = project_scan(files.drop_last());
        let f = files.last();
        let cs2 = if config_file_names().contains(f.name@) {
            cs.push(f.name@)
        } else {
            cs
        };
        match project_type_of(f.name@) {
            Some(t2) => (t2, match project_name_from(f) {
                Some(n2) => n2,
                None => n,
            }, cs2),
            None => (t, n, cs2),
        }
    }
}

/// The package manager a project of this type and these files uses.
pub open spec fn package_manager_of(t: Seq<char>, cs: Seq<Seq<char>>) -> Seq<char> {
    if t == "nodejs"@ {
        if cs.contains("yarn.lock"@) {
            "yarn"@
        } else if cs.contains("pnpm-lock.yaml"@) {
            "pnpm"@
        } else {
            "npm"@
        }
    } else if t == "python"@ {
        if cs.contains("poetry.lock"@) || cs.contains("pyproject.toml"@) {
            "poetry"@
        } else {
            "pip"@
        }
    } else {
        "default"@
    }
}

/// What the project detector reports.
#[derive(Debug, Clone)]
pub struct ProjectSummary {
    pub project_type: String,
    pub project_name: String,
    pub package_manager: String,
    pub config_files: Vec<String>,
    pub detected: bool,
}

/// The common script names of a `package.json`.
pub open spec fn is_common_script(s: Seq<char>) -> bool {
    s == "dev"@ || s == "build"@ || s == "test"@ || s == "start"@ || s == "lint"@ || s == "format"@
}

pub open spec fn common_scripts(v: Seq<Seq<char>>) -> Seq<Seq<char>>
    decreases v.len(),
{
    if v.len() == 0 {
        seq![]
    } else if is_common_script(v.last()) {
        common_scripts(v.drop_last()).push(v.last())
    } else {
        common_scripts(v.drop_last())
    }
}

/// What the workspace summary reads from a `package.json`: its script
/// names, the common ones among them, and how many dependencies and
/// development dependencies it lists; nothing where the text is not JSON.
pub open spec fn package_facts(text: Seq<char>) -> Option<(Seq<Seq<char>>, Seq<Seq<char>>, nat, nat)> {
    match json_object_keys(text, "scripts"@) {
        None => None,
        Some(s) => {
            let scripts = match s {
                Some(k) => k,
                None => seq![],
            };
            let deps = match json_object_keys(text, "dependencies"@) {
                Some(Some(k)) => k.len(),
                _ => 0,
            };
            let dev = match json_object_keys(text, "devDependencies"@) {
                Some(Some(k)) => k.len(),
                _ => 0,
            };
            Some((scripts, common_scripts(scripts), deps, dev))
        },
    }
}

/// What the workspace summary reads from a `package.json`.
#[derive(Debug, Clone)]
pub struct PackageSummary {
    pub scripts: Vec<String>,
    pub common_commands: Vec<String>,
    pub dependencies: u64,
    pub dev_dependencies: u64,
}

/// The length of the table at `key` of the TOML document `text`: `None`
/// where the text is not TOML, `Some(None)` where there is no table there.
pub uninterp spec fn toml_table_len(text: Seq<char>, key: Seq<char>) -> Option<Option<usize>>;

/// Trusted: `toml::from_str::<toml::Value>`, and on success `get(key)`,
/// `as_table` and the table's `len`.
#[verifier::external_body]
fn toml_table_len_at(text: &str, key: &str) -> (r: Option<Option<usize>>)
    ensures
        r == toml_table_len(text@, key@),
{
    toml::from_str::<toml::Value>(text).ok().map(|t| t.get(key).and_then(|d| d.as_table()).map(|d| d.len()))
}

/// How many dependencies a `Cargo.toml` lists (none where it has no
/// `dependencies` table); nothing where the text is not TOML.
pub open spec fn cargo_dependencies(text: Seq<char>) -> Option<nat> {
    match toml_table_len(text, "dependencies"@) {
        None => None,
        Some(None) => Some(0),
        Some(Some(n)) => Some(n as nat),
    }
}

/// The `go.mod` lines from `require (` up to, not including, the first line
/// starting with `)`.
pub open spec fn require_block_len(ls: Seq<Seq<char>>, started: bool) -> nat
    decreases ls.len(),
{
    if ls.len() == 0 {
        0
    } else if !started && !starts_with(ls[0], "require ("@) {
        require_block_len(ls.drop_first(), false)
    } else if starts_with(ls[0], ")"@) {
        0
    } else {
        1 + require_block_len(ls.drop_first(), true)
    }
}

/// The variable names of an environment template: the text before `=` of
/// each line not starting with `#`, when not empty.
pub open spec fn env_names(ls: Seq<Seq<char>>) -> Seq<Seq<char>>
    decreases ls.len(),
{
    if ls.len() == 0 {
        seq![]
    } else {
        let rest = env_names(ls.drop_last());
        let l = ls.last();
        if !starts_with(l, "#"@) && before_char(l, '=').len() > 0 {
            rest.push(before_char(l, '='))
        } else {
            rest
        }
    }
}

/// The targets of a Makefile: the trimmed text before `:` of each line that
/// does not start with a tab or a space and holds a `:`, when not empty and
/// not starting with `.`.
pub open spec fn make_targets(ls: Seq<Seq<char>>) -> Seq<Seq<char>>
    decreases ls.len(),
{
    if ls.len() == 0 {
        seq![]
    } else {
        let rest = make_targets(ls.drop_last());
        let l = ls.last();
        let t = trim(before_char(l, ':'));
        if !starts_with(l, "\t"@) && !starts_with(l, " "@) && contains(l, ":"@) && t.len() > 0
            && !starts_with(t, "."@) {
            rest.push(t)
        } else {
            rest
        }
    }
}

fn strs_to_vecs_local(v: &Vec<&str>) -> (r: Vec<Vec<char>>)
    ensures
        views(r@) == v@.map_values(|x: &str| x@),
{
    crate::testgen::strs_to_vecs(v)
}

/// Whether `x` is among the character vectors of `v`.
fn contains_view(v: &Vec<Vec<char>>, x: &Vec<char>) -> (r: bool)
    ensures
        r == views(v@).contains(x@),
{
    let mut i: usize = 0;
    while i < v.len()
        invariant
            i <= v.len(),
            forall|k: int| 0 <= k < i ==> v@[k]@ != x@,
        decreases v.len() - i,
    {
        if eq_vec(&v[i], x) {
            assert(views(v@)[i as int] == x@);
            return true;
        }
        i = i + 1;
    }
    proof {
        if views(v@).contains(x@) {
            let k = choose|k: int| 0 <= k < views(v@).len() && views(v@)[k] == x@;
            assert(v@[k]@ == x@);
        }
    }
    false
}

fn project_type_exec(name: &Vec<char>) -> (r: Option<Vec<char>>)
    ensures
        r matches Some(v) ==> project_type_of(name@) == Some(v@),
        r is None ==> project_type_of(name@) is None,
{
    if eq_str(name, "package.json") {
        Some(chars_of("nodejs"))
    } else if eq_str(name, "Cargo.toml") {
        Some(chars_of("rust"))
    } else if eq_str(name, "go.mod") {
        Some(chars_of("go"))
    } else if eq_str(name, "requirements.txt") || eq_str(name, "pyproject.toml") {
        Some(chars_of("python"))
    } else if eq_str(name, "pom.xml") || eq_str(name, "build.gradle") {
        Some(chars_of("java"))
    } else if eq_str(name, "*.csproj") {
        Some(chars_of("csharp"))
    } else if eq_str(name, "composer.json") {
        Some(chars_of("php"))
    } else if eq_str(name, "Gemfile") {
        Some(chars_of("ruby"))
    } else {
        None
    }
}

fn first_line_with_exec(ls: &Vec<Vec<char>>, p: &Vec<char>) -> (r: Option<Vec<char>>)
    ensures
        r matches Some(v) ==> first_line_with(views(ls@), p@) == Some(v@),
        r is None ==> first_line_with(views(ls@), p@) is None,
{
    let mut i: usize = 0;
    let ghost vl = views(ls@);
    assert(vl.skip(0) =~= vl);
    while i < ls.len()
        invariant
            i <= ls.len(),
            vl == views(ls@),
            first_line_with(vl, p@) == first_line_with(vl.skip(i as int), p@),
        decreases ls.len() - i,
    {
        assert(vl.skip(i as int)[0] == ls@[i as int]@);
        assert(vl.skip(i as int).drop_first() =~= vl.skip(i + 1));
        if starts_with_exec(&ls[i], p) {
            let l = slice(&ls[i], 0, ls[i].len());
            assert(l@ =~= ls@[i as int]@);
            return Some(l);
        }
        i = i + 1;
    }
    assert(vl.skip(i as int) =~= seq![]);
    None
}

fn project_name_exec(f: &ProjectFile) -> (r: Option<Vec<char>>)
    ensures
        r matches Some(v) ==> project_name_from(*f) == Some(v@),
        r is None ==> project_name_from(*f) is None,
{
    let text = match &f.content {
        Some(c) => c,
        None => {
            return None;
        },
    };
    let c = chars_of(text.as_str());
    let name = chars_of(f.name.as_str());
    if eq_str(&name, "package.json") {
        match json_str_field(text.as_str(), "name") {
            Some(p) => Some(chars_of(p.as_str())),
            None => None,
        }
    } else if eq_str(&name, "Cargo.toml") {
        let ls = lines_exec(&c);
        if ls.len() > 0 && starts_with_exec(&ls[0], &chars_of("name = ")) {
            let a = strip_prefixes_exec(&ls[0], &chars_of("name = \""));
            Some(strip_suffix_chars_exec(&a, '"'))
        } else {
            None
        }
    } else if eq_str(&name, "go.mod") {
        let ls = lines_exec(&c);
        match first_line_with_exec(&ls, &chars_of("module ")) {
            Some(l) => Some(strip_prefixes_exec(&l, &chars_of("module "))),
            None => None,
        }
    } else {
        None
    }
}

pub struct ToolRegistry;

impl ToolRegistry {
    /// The tools offered to the model, in the order offered.
    pub fn get_definitions() -> (r: Vec<ToolDefinition>)
        ensures
            r@.map_values(|t: ToolDefinition| tool_view(t)) == tool_catalog(),
    {
        let r = vec![
            def_read_file(),
            def_write_file(),
            def_list_directory(),
            def_get_file_tree(),
            def_web_search(),
            def_read_url(),
            def_run_command(),
            def_git_status(),
            def_git_diff(),
            def_git_add(),
            def_git_commit(),
            def_git_log(),
            def_git_branch(),
            def_search_code(),
            def_detect_project_type(),
            def_get_workspace_info(),
            def_generate_tests(),
            def_execute_code(),
            def_preview_edit(),
            def_scaffold_template(),
            def_security_command(),
        ];
        assert(r@.map_values(|t: ToolDefinition| tool_view(t)) =~= tool_catalog());
        r
    }

    /// The path with a leading `~/` expanded to the home directory.
    pub fn expand_path(path: &str, home: Option<&str>) -> (r: String)
        ensures
            r@ == expanded_path(path@, match home {
                Some(h) => Some(h@),
                None => None,
            }),
    {
        let p = chars_of(path);
        match home {
            Some(h) => {
                if starts_with_exec(&p, &chars_of("~/")) {
                    let mut out = chars_of(h);
                    proof {
                        reveal_strlit("~/");
                    }
                    let rest = slice(&p, 1, p.len());
                    push_all(&mut out, &rest);
                    assert(out@ =~= h@ + path@.skip(1));
                    string_of(&out)
                } else {
                    string_of(&p)
                }
            },
            None => string_of(&p),
        }
    }

    /// The output with its middle elided past `max_lines` lines.
    pub fn truncate_output(output: &str, max_lines: usize) -> (r: String)
        ensures
            r@ == truncated_output(output@, max_lines as nat),
    {
        let o = chars_of(output);
        let ls = lines_exec(&o);
        if ls.len() <= max_lines {
            return string_of(&o);
        }
        let h = max_lines / 2;
        let first = sub_views(&ls, 0, h);
        let mut out = join_exec(&first, &chars_of("\n"));
        push_str(&mut out, "\n... (");
        push_all(&mut out, &decimal_exec((ls.len() - max_lines) as u64));
        push_str(&mut out, " lines truncated) ...\n");
        let last = sub_views(&ls, ls.len() - h, ls.len());
        push_all(&mut out, &join_exec(&last, &chars_of("\n")));
        proof {
            assert(views(first@) =~= lines(output@).take(h as int));
            assert(views(last@) =~= lines(output@).skip(ls.len() - h));
        }
        assert(out@ =~= truncated_output(output@, max_lines as nat));
        string_of(&out)
    }

    /// The report of a shell command's run.
    pub fn command_report(exit_code: i32, stdout: &str, stderr: &str) -> (r: String)
        ensures
            r@ == command_report(exit_code as int, stdout@, stderr@),
    {
        let mut out: Vec<char> = Vec::new();
        push_str(&mut out, "Exit Code: ");
        push_all(&mut out, &decimal_i64_exec(exit_code as i64));
        push_str(&mut out, "\nSTDOUT:\n");
        push_str(&mut out, Self::truncate_output(stdout, 150).as_str());
        if !stderr.is_empty() {
            push_str(&mut out, "\nSTDERR:\n");
            push_str(&mut out, Self::truncate_output(stderr, 50).as_str());
        }
        assert(out@ =~= command_report(exit_code as int, stdout@, stderr@));
        string_of(&out)
    }

    /// The report of a program's run.
    pub fn execution_report(exit_code: i32, stdout: &str, stderr: &str) -> (r: String)
        ensures
            r@ == execution_report(exit_code as int, stdout@, stderr@),
    {
        let mut out: Vec<char> = Vec::new();
        push_str(&mut out, "Exit Code: ");
        push_all(&mut out, &decimal_i64_exec(exit_code as i64));
        push_str(&mut out, "\n");
        let no_out = stdout.is_empty();
        let no_err = stderr.is_empty();
        if !no_out {
            push_str(&mut out, "\nSTDOUT:\n");
            push_str(&mut out, Self::truncate_output(stdout, 100).as_str());
            push_str(&mut out, "\n");
        }
        if !no_err {
            push_str(&mut out, "\nSTDERR:\n");
            push_str(&mut out, Self::truncate_output(stderr, 50).as_str());
            push_str(&mut out, "\n");
        }
        if no_out && no_err {
            push_str(&mut out, "(No output)\n");
        }
        assert(out@ =~= execution_report(exit_code as int, stdout@, stderr@));
        string_of(&out)
    }

    /// What `execute_code` and `run_command` answer when the program
    /// outran its time limit.
    pub fn timeout_message(secs: u64) -> (r: String)
        ensures
            r@ == timeout_text(secs as nat),
    {
        let mut out: Vec<char> = Vec::new();
        push_str(&mut out, "Error: Timeout after ");
        let d = decimal_exec(secs);
        push_all(&mut out, &d);
        push_str(&mut out, " seconds");
        string_of(&out)
    }

    /// What the security tool answers when the command outran its time
    /// limit.
    pub fn security_timeout_message(secs: u64) -> (r: String)
        ensures
            r@ == security_timeout_text(secs as nat),
    {
        let mut out: Vec<char> = Vec::new();
        push_str(&mut out, "❌ Timeout after ");
        let d = decimal_exec(secs);
        push_all(&mut out, &d);
        push_str(&mut out, " seconds");
        string_of(&out)
    }

    /// Whether the security tool refuses a command.
    pub fn is_dangerous(command: &str) -> (r: bool)
        ensures
            r == is_dangerous(command@),
    {
        let pats: Vec<&str> = vec![
            "rm -rf /", "mkfs", "dd if=/dev/zero", ":(){:|:&};:", "chmod 777 /", "> /dev/sda",
            "fork()", "while(true)", "format c:",
        ];
        assert(pats@.map_values(|x: &str| x@) =~= dangerous_patterns());
        let c = lower_vec(&chars_of(command));
        let mut i: usize = 0;
        while i < pats.len()
            invariant
                i <= pats.len(),
                pats@.map_values(|x: &str| x@) == dangerous_patterns(),
                c@ == lower(command@),
                forall|k: int| 0 <= k < i ==> !contains(lower(command@), lower(#[trigger] dangerous_patterns()[k])),
            decreases pats.len() - i,
        {
            let p = lower_vec(&chars_of(pats[i]));
            assert(pats@[i as int]@ == dangerous_patterns()[i as int]);
            if contains_exec(&c, &p) {
                return true;
            }
            i = i + 1;
        }
        false
    }

    /// The refusal shown for a dangerous command.
    pub fn blocked_message(command: &str) -> (r: String)
        ensures
            r@ == blocked_message(command@),
    {
        let mut out: Vec<char> = Vec::new();
        push_str(&mut out, "⚠️ BLOCKED: This command appears dangerous and has been blocked.\n\nCommand: ");
        push_str(&mut out, command);
        push_str(&mut out, "\n\nIf you believe this is a false positive, please run it manually in your terminal.\nThis safety measure is in place to prevent accidental system damage.");
        assert(out@ =~= blocked_message(command@));
        string_of(&out)
    }

    /// The report of a security command's run.
    pub fn security_report(command: &str, explanation: &str, exit_code: i32, stdout: &str, stderr: &str) -> (r: String)
        ensures
            r@ == security_report(command@, explanation@, exit_code as int, stdout@, stderr@),
    {
        let mut out: Vec<char> = Vec::new();
        push_str(&mut out, "━━━━━━━━━━━━━━━━━━━━━━━━━━━━━━━━━━━━━━━━━━━━━━\n📋 Command: ");
        push_str(&mut out, command);
        push_str(&mut out, "\n💡 Explanation: ");
        push_str(&mut out, explanation);
        push_str(&mut out, "\nExit Code: ");
        push_all(&mut out, &decimal_i64_exec(exit_code as i64));
        push_str(&mut out, "\n━━━━━━━━━━━━━━━━━━━━━━━━━━━━━━━━━━━━━━━━━━━━━━\n");
        let no_out = stdout.is_empty();
        let no_err = stderr.is_empty();
        if !no_out {
            push_str(&mut out, "\n📤 STDOUT:\n");
            push_str(&mut out, Self::truncate_output(stdout, 100).as_str());
            push_str(&mut out, "\n");
        }
        if !no_err {
            push_str(&mut out, "\n📛 STDERR:\n");
            push_str(&mut out, Self::truncate_output(stderr, 50).as_str());
            push_str(&mut out, "\n");
        }
        if no_out && no_err {
            push_str(&mut out, "(No output)\n");
        }
        assert(out@ =~= security_report(command@, explanation@, exit_code as int, stdout@, stderr@));
        string_of(&out)
    }

    /// The `git` arguments the branch tool runs for an action (default
    /// `list`) on a branch name (default empty), or the error it reports.
    pub fn branch_args(action: &str, name: &str) -> (r: Result<Vec<String>, String>)
        ensures
            match r {
                Ok(v) => branch_args(action@, name@) == Ok::<Seq<Seq<char>>, Seq<char>>(string_views(v@)),
                Err(e) => branch_args(action@, name@) == Err::<Seq<Seq<char>>, Seq<char>>(e@),
            },
    {
        let a = chars_of(action);
        if eq_str(&a, "create") {
            if name.is_empty() {
                return Err(String::from_str("Error: branch name required for create."));
            }
            let v = vec![String::from_str("branch"), String::from_str(name)];
            assert(string_views(v@) =~= seq!["branch"@, name@]);
            Ok(v)
        } else if eq_str(&a, "delete") {
            if name.is_empty() {
                return Err(String::from_str("Error: branch name required for delete."));
            }
            let v = vec![String::from_str("branch"), String::from_str("-d"), String::from_str(name)];
            assert(string_views(v@) =~= seq!["branch"@, "-d"@, name@]);
            Ok(v)
        } else {
            let v = vec![String::from_str("branch")];
            assert(string_views(v@) =~= seq!["branch"@]);
            Ok(v)
        }
    }

    /// What the branch tool reports from git's output.
    pub fn branch_report(action: &str, name: &str, stdout: &str) -> (r: String)
        ensures
            r@ == branch_report(action@, name@, stdout@),
    {
        if stdout.is_empty() && !eq_str(&chars_of(action), "list") {
            let mut out: Vec<char> = Vec::new();
            push_str(&mut out, "Successfully performed '");
            push_str(&mut out, action);
            push_str(&mut out, "' on branch '");
            push_str(&mut out, name);
            push_str(&mut out, "'.");
            assert(out@ =~= branch_report(action@, name@, stdout@));
            string_of(&out)
        } else {
            String::from_str(stdout)
        }
    }

    /// How `execute_code` runs a file (see `execution_plan`).
    pub fn plan_execution(
        file_path: &str,
        extension: &str,
        stem: &str,
        parent: &str,
        args: &str,
        cargo_project: bool,
    ) -> (r: Result<ExecPlan, String>)
        ensures
            match r {
                Ok(p) => execution_plan(file_path@, extension@, stem@, parent@, args@, cargo_project) == Ok::<(Seq<char>, Seq<Seq<char>>, Option<Seq<char>>), Seq<char>>(plan_view(p)),
                Err(e) => execution_plan(file_path@, extension@, stem@, parent@, args@, cargo_project) == Err::<(Seq<char>, Seq<Seq<char>>, Option<Seq<char>>), Seq<char>>(e@),
            },
    {
        let ext = lower_vec(&chars_of(extension));
        let ws = words_exec(&chars_of(args));
        let ghost wv = views(ws@);
        let is_rust = eq_str(&ext, "rs");
        let is_js = eq_str(&ext, "js") || eq_str(&ext, "mjs") || eq_str(&ext, "cjs");
        let is_ts = eq_str(&ext, "ts") || eq_str(&ext, "mts") || eq_str(&ext, "cts");
        let is_py = eq_str(&ext, "py");
        let is_go = eq_str(&ext, "go");
        let is_java = eq_str(&ext, "java");
        let is_cs = eq_str(&ext, "cs");
        if !(is_rust || is_js || is_ts || is_py || is_go || is_java || is_cs) {
            let mut m: Vec<char> = Vec::new();
            push_str(&mut m, "Error: Unsupported file type: .");
            let shown = to_lowercase(extension);
            push_str(&mut m, shown.as_str());
            assert(m@ =~= "Error: Unsupported file type: ."@ + unicode_lower(extension@));
            return Err(string_of(&m));
        }
        let mut argv: Vec<String> = Vec::new();
        let program: String;
        let mut dir: Option<String> = None;
        if is_rust {
            if cargo_project {
                program = String::from_str("cargo");
                argv.push(String::from_str("run"));
                if !args.is_empty() {
                    argv.push(String::from_str("--"));
                    let ghost a0 = string_views(argv@);
                    assert(a0 =~= seq!["run"@, "--"@]);
                    Self::push_words(&mut argv, &ws);
                } else {
                    assert(string_views(argv@) =~= seq!["run"@]);
                }
                assert(string_views(argv@) =~= seq!["run"@] + if args@.len() > 0 {
                    seq!["--"@] + wv
                } else {
                    seq![]
                });
                dir = Some(String::from_str(parent));
            } else {
                program = String::from_str("sh");
                argv.push(String::from_str("-c"));
                let mut c: Vec<char> = Vec::new();
                push_str(&mut c, "rustc ");
                push_str(&mut c, file_path);
                push_str(&mut c, " -o ");
                push_str(&mut c, stem);
                push_str(&mut c, " && ./");
                push_str(&mut c, stem);
                if !args.is_empty() {
                    push_str(&mut c, " ");
                    push_str(&mut c, args);
                }
                assert(c@ =~= "rustc "@ + file_path@ + " -o "@ + stem@ + " && ./"@ + stem@ + if args@.len() == 0 {
                    seq![]
                } else {
                    " "@ + args@
                });
                argv.push(string_of(&c));
                assert(string_views(argv@) =~= seq!["-c"@, "rustc "@ + file_path@ + " -o "@ + stem@ + " && ./"@ + stem@ + if args@.len() == 0 {
                    seq![]
                } else {
                    " "@ + args@
                }]);
            }
        } else if is_js {
            program = String::from_str("node");
            argv.push(String::from_str(file_path));
            assert(string_views(argv@) =~= seq![file_path@]);
            Self::push_words(&mut argv, &ws);
        } else if is_ts {
            program = String::from_str("sh");
            argv.push(String::from_str("-c"));
            let mut c: Vec<char> = Vec::new();
            push_str(&mut c, "npx ts-node ");
            push_str(&mut c, file_path);
            push_str(&mut c, " ");
            push_str(&mut c, args);
            argv.push(string_of(&c));
            assert(string_views(argv@) =~= seq!["-c"@, "npx ts-node "@ + file_path@ + " "@ + args@]);
        } else if is_py {
            program = String::from_str("python3");
            argv.push(String::from_str(file_path));
            assert(string_views(argv@) =~= seq![file_path@]);
            Self::push_words(&mut argv, &ws);
        } else if is_go {
            program = String::from_str("go");
            argv.push(String::from_str("run"));
            argv.push(String::from_str(file_path));
            assert(string_views(argv@) =~= seq!["run"@, file_path@]);
            Self::push_words(&mut argv, &ws);
        } else if is_java {
            program = String::from_str("sh");
            argv.push(String::from_str("-c"));
            let mut c: Vec<char> = Vec::new();
            push_str(&mut c, "javac ");
            push_str(&mut c, file_path);
            push_str(&mut c, " && java ");
            push_str(&mut c, stem);
            push_str(&mut c, " ");
            push_str(&mut c, args);
            argv.push(string_of(&c));
            assert(string_views(argv@) =~= seq!["-c"@, "javac "@ + file_path@ + " && java "@ + stem@ + " "@ + args@]);
        } else {
            program = String::from_str("sh");
            argv.push(String::from_str("-c"));
            let mut c: Vec<char> = Vec::new();
            push_str(&mut c, "dotnet script ");
            push_str(&mut c, file_path);
            push_str(&mut c, " -- ");
            push_str(&mut c, args);
            push_str(&mut c, " 2>&1 || dotnet run --project . -- ");
            push_str(&mut c, args);
            push_str(&mut c, " 2>&1 || echo 'Make sure dotnet is installed'");
            argv.push(string_of(&c));
            assert(string_views(argv@) =~= seq!["-c"@, "dotnet script "@ + file_path@ + " -- "@ + args@
                + " 2>&1 || dotnet run --project . -- "@ + args@
                + " 2>&1 || echo 'Make sure dotnet is installed'"@]);
        }
        let plan = ExecPlan { program, args: argv, current_dir: dir };
        proof {
            let pv = plan_view(plan);
            let e = execution_plan(file_path@, extension@, stem@, parent@, args@, cargo_project);
            assert(wv == words(args@));
            assert(e->Ok_0 =~~= pv);
        }
        Ok(plan)
    }

    fn push_words(v: &mut Vec<String>, ws: &Vec<Vec<char>>)
        ensures
            string_views(final(v)@) == string_views(old(v)@) + views(ws@),
    {
        let ghost v0 = string_views(v@);
        let mut i: usize = 0;
        while i < ws.len()
            invariant
                i <= ws.len(),
                string_views(v@) == v0 + views(ws@).take(i as int),
            decreases ws.len() - i,
        {
            let ghost before = string_views(v@);
            let w = string_of(&ws[i]);
            v.push(w);
            assert(string_views(v@) =~= before.push(ws@[i as int]@));
            i = i + 1;
            assert(string_views(v@) =~= v0 + views(ws@).take(i as int));
        }
        assert(views(ws@).take(ws.len() as int) =~= views(ws@));
    }

    /// What the test-generation tool answers for a supported file.
    pub fn tests_tool_message(
        language: &crate::testgen::Language,
        framework: &crate::testgen::TestFramework,
        suggested: &str,
        file_path: &str,
    ) -> (r: String)
        ensures
            r@ == tests_tool_text(*language, *framework, suggested@, file_path@),
    {
        let mut out: Vec<char> = Vec::new();
        push_str(&mut out, "I can generate tests for ");
        push_str(&mut out, language.display_name());
        push_str(&mut out, " (");
        push_str(&mut out, framework.display_name());
        push_str(&mut out, ")!\n\nSuggested location: ");
        push_str(&mut out, suggested);
        push_str(&mut out, "\n\nTo generate tests, please use the CLI command:\n$ gogit testgen ");
        push_str(&mut out, file_path);
        push_str(&mut out, "\n\nOr use the interactive menu to select 'AI Test Gen'.\n\nThe AI will analyze your code and generate comprehensive unit tests using the appropriate framework for your project.");
        assert(out@ =~= tests_tool_text(*language, *framework, suggested@, file_path@));
        string_of(&out)
    }

    /// What the edit-preview tool answers.
    pub fn preview_message(file_path: &str, instruction: &str) -> (r: String)
        ensures
            r@ == preview_text(file_path@, instruction@),
    {
        let mut out: Vec<char> = Vec::new();
        push_str(&mut out, "To preview edits, please use the CLI command:\n$ gogit fix ");
        push_str(&mut out, file_path);
        push_str(&mut out, " \"");
        push_str(&mut out, instruction);
        push_str(&mut out, "\"\n\nOr use the interactive menu to select 'AI Fix'.\n\nCurrent file: ");
        push_str(&mut out, file_path);
        push_str(&mut out, "\nInstruction: ");
        push_str(&mut out, instruction);
        push_str(&mut out, "\n\nThis will show you the proposed changes before applying.");
        assert(out@ =~= preview_text(file_path@, instruction@));
        string_of(&out)
    }

    /// What the scaffolding tool answers.
    pub fn scaffold_message(
        template_type: &str,
        name: &str,
        output_path: &str,
        language: &crate::testgen::Language,
        framework: &crate::testgen::TestFramework,
    ) -> (r: String)
        ensures
            r@ == scaffold_text(template_type@, name@, output_path@, *language, *framework),
    {
        let mut out: Vec<char> = Vec::new();
        push_str(&mut out, "To generate scaffolding, please use the CLI or chat mode.\n\nTemplate: ");
        push_str(&mut out, template_type);
        push_str(&mut out, " '");
        push_str(&mut out, name);
        push_str(&mut out, "'\nOutput: ");
        push_str(&mut out, output_path);
        push_str(&mut out, "\nProject Type: ");
        push_str(&mut out, language.display_name());
        push_str(&mut out, " (");
        push_str(&mut out, framework.display_name());
        push_str(&mut out, ")\n\nThe AI will analyze your project context and generate appropriate boilerplate code.\nUse: 'gogit chat' and ask to create a ");
        push_str(&mut out, template_type);
        push_str(&mut out, " called ");
        push_str(&mut out, name);
        assert(out@ =~= scaffold_text(template_type@, name@, output_path@, *language, *framework));
        string_of(&out)
    }

    /// The web-search tool's list of hits, or a note that there were none.
    pub fn search_hits_message(hits: &Vec<(String, String, String)>) -> (r: String)
        ensures
            r@ == (if hits@.len() == 0 {
                "No results found."@
            } else {
                search_hits_text(hit_views(hits@))
            }),
    {
        if hits.len() == 0 {
            return String::from_str("No results found.");
        }
        let ghost hv = hit_views(hits@);
        let mut out: Vec<char> = Vec::new();
        let mut i: usize = 0;
        while i < hits.len()
            invariant
                i <= hits.len(),
                hv == hit_views(hits@),
                out@ == search_hits_text(hv.take(i as int)),
            decreases hits.len() - i,
        {
            push_str(&mut out, "### ");
            push_str(&mut out, hits[i].0.as_str());
            push_str(&mut out, "\nURL: ");
            push_str(&mut out, hits[i].1.as_str());
            push_str(&mut out, "\n");
            push_str(&mut out, hits[i].2.as_str());
            push_str(&mut out, "\n\n");
            assert(hv.take(i + 1).drop_last() =~= hv.take(i as int));
            assert(hv.take(i + 1).last() == (hits@[i as int].0@, hits@[i as int].1@, hits@[i as int].2@));
            i = i + 1;
            assert(out@ =~= search_hits_text(hv.take(i as int)));
        }
        assert(hv.take(hits.len() as int) =~= hv);
        string_of(&out)
    }

    /// What the web-search tool answers from a search service's reply (see
    /// `search_reply_text`).
    pub fn search_reply_message(reply: &str) -> (r: Option<String>)
        ensures
            match r {
                Some(t) => search_reply_text(reply@) == Some(t@),
                None => search_reply_text(reply@) is None,
            },
    {
        match json_result_hits_of(reply) {
            Some(hits) => Some(Self::search_hits_message(&hits)),
            None => None,
        }
    }

    /// The web-search tool's fallback answer, with the DuckDuckGo URL.
    pub fn duckduckgo_message(query: &str) -> (r: String)
        ensures
            r@ == duckduckgo_text(query@),
    {
        let mut out: Vec<char> = Vec::new();
        push_str(&mut out, "DuckDuckGo Search Results for '");
        push_str(&mut out, query);
        push_str(&mut out, "':\n(Parsing HTML is complex; Tavily key recommended for better results)\nURL: ");
        push_str(&mut out, Self::duckduckgo_url(query).as_str());
        assert(out@ =~= duckduckgo_text(query@));
        string_of(&out)
    }

    /// The DuckDuckGo page the web-search tool falls back on.
    pub fn duckduckgo_url(query: &str) -> (r: String)
        ensures
            r@ == duckduckgo_address(query@),
    {
        let mut out: Vec<char> = Vec::new();
        push_str(&mut out, "https://html.duckduckgo.com/html/?q=");
        push_str(&mut out, url_encode(query).as_str());
        string_of(&out)
    }

    /// Text cut to its first `limit` bytes plus `suffix` when longer; the cut
    /// must fall on a character boundary (else slicing panics).
    pub fn cut_text(text: &str, limit: u64, suffix: &str) -> (r: String)
        requires
            utf8_len(text@) > limit ==> on_boundary(text@, limit as int),
        ensures
            r@ == cut_at_byte(text@, limit as int, suffix@),
    {
        string_of(&cut_at_byte_exec(&chars_of(text), limit as u128, suffix))
    }

    /// What the code-search tool reports of grep's output: a note when empty,
    /// else the output cut to 5000 bytes.
    pub fn search_code_report(result: &str) -> (r: String)
        requires
            utf8_len(result@) > 5000 ==> on_boundary(result@, 5000),
        ensures
            r@ == (if result@.len() == 0 {
                "No matches found."@
            } else {
                cut_at_byte(result@, 5000, "... (truncated)"@)
            }),
    {
        if result.is_empty() {
            String::from_str("No matches found.")
        } else {
            Self::cut_text(result, 5000, "... (truncated)")
        }
    }

    /// What the diff tool reports of git's output.
    pub fn diff_report(diff: &str) -> (r: String)
        ensures
            r@ == (if diff@.len() == 0 {
                "No changes found."@
            } else {
                diff@
            }),
    {
        if diff.is_empty() {
            String::from_str("No changes found.")
        } else {
            String::from_str(diff)
        }
    }

    /// What the commit tool reports of git's output.
    pub fn commit_report(stdout: &str, stderr: &str) -> (r: String)
        ensures
            r@ == "STDOUT:\n"@ + stdout@ + "\n\nSTDERR:\n"@ + stderr@,
    {
        let mut out: Vec<char> = Vec::new();
        push_str(&mut out, "STDOUT:\n");
        push_str(&mut out, stdout);
        push_str(&mut out, "\n\nSTDERR:\n");
        push_str(&mut out, stderr);
        assert(out@ =~= "STDOUT:\n"@ + stdout@ + "\n\nSTDERR:\n"@ + stderr@);
        string_of(&out)
    }

    /// The arguments of `git log` for the log tool.
    pub fn log_args(limit: u64) -> (r: Vec<String>)
        ensures
            string_views(r@) == seq!["log"@, "-n"@ + decimal(limit as nat), "--oneline"@],
    {
        let mut n: Vec<char> = Vec::new();
        push_str(&mut n, "-n");
        push_all(&mut n, &decimal_exec(limit));
        let r = vec![String::from_str("log"), string_of(&n), String::from_str("--oneline")];
        assert(string_views(r@) =~= seq!["log"@, "-n"@ + decimal(limit as nat), "--oneline"@]);
        r
    }

    /// What the project detector reports of the files it found.
    pub fn detect_project(files: &Vec<ProjectFile>) -> (r: ProjectSummary)
        ensures
            ({
                let (t, n, cs) = project_scan(files@);
                &&& r.project_type@ == t
                &&& r.project_name@ == n
                &&& string_views(r.config_files@) == cs
                &&& r.package_manager@ == package_manager_of(t, cs)
                &&& r.detected == (t != "unknown"@)
            }),
    {
        let configs = strs_to_vecs_local(&vec![
            "package.json", "Cargo.toml", "go.mod", "requirements.txt", "pom.xml",
            "build.gradle", "composer.json", "Gemfile", "pyproject.toml", "setup.py",
            "Makefile", "docker-compose.yml", "Dockerfile", ".env.example", ".eslintrc",
            "tsconfig.json", ".gitignore", "Cargo.lock", "package-lock.json", "yarn.lock",
        ]);
        assert(views(configs@) =~= config_file_names());
        let mut t: Vec<char> = chars_of("unknown");
        let mut n: Vec<char> = chars_of("unknown");
        let mut cs: Vec<Vec<char>> = Vec::new();
        let mut i: usize = 0;
        assert(views(cs@) =~= seq![]);
        while i < files.len()
            invariant
                i <= files.len(),
                views(configs@) == config_file_names(),
                project_scan(files@.take(i as int)) == (t@, n@, views(cs@)),
            decreases files.len() - i,
        {
            assert(files@.take(i + 1).drop_last() =~= files@.take(i as int));
            let f = &files[i];
            let name = chars_of(f.name.as_str());
            if contains_view(&configs, &name) {
                proof {
                    lemma_views_push(cs@, name);
                }
                cs.push(name);
            }
            match project_type_exec(&chars_of(f.name.as_str())) {
                Some(t2) => {
                    t = t2;
                    match project_name_exec(f) {
                        Some(n2) => {
                            n = n2;
                        },
                        None => {},
                    }
                },
                None => {},
            }
            i = i + 1;
        }
        assert(files@.take(files.len() as int) =~= files@);
        let ghost csv = views(cs@);
        let pm: &str = if eq_str(&t, "nodejs") {
            if contains_view(&cs, &chars_of("yarn.lock")) {
                "yarn"
            } else if contains_view(&cs, &chars_of("pnpm-lock.yaml")) {
                "pnpm"
            } else {
                "npm"
            }
        } else if eq_str(&t, "python") {
            if contains_view(&cs, &chars_of("poetry.lock")) || contains_view(&cs, &chars_of("pyproject.toml")) {
                "poetry"
            } else {
                "pip"
            }
        } else {
            "default"
        };
        let detected = !eq_str(&t, "unknown");
        let mut out_cs: Vec<String> = Vec::new();
        let mut k: usize = 0;
        while k < cs.len()
            invariant
                k <= cs.len(),
                string_views(out_cs@) == views(cs@).take(k as int),
            decreases cs.len() - k,
        {
            let ghost b = string_views(out_cs@);
            out_cs.push(string_of(&cs[k]));
            assert(string_views(out_cs@) =~= b.push(cs@[k as int]@));
            assert(views(cs@).take(k + 1) =~= views(cs@).take(k as int).push(cs@[k as int]@));
            k = k + 1;
        }
        assert(views(cs@).take(cs.len() as int) =~= views(cs@));
        ProjectSummary {
            project_type: string_of(&t),
            project_name: string_of(&n),
            package_manager: String::from_str(pm),
            config_files: out_cs,
            detected,
        }
    }

    /// The common commands among a `package.json`'s script names.
    pub fn common_scripts(scripts: &Vec<String>) -> (r: Vec<String>)
        ensures
            string_views(r@) == common_scripts(string_views(scripts@)),
    {
        let mut r: Vec<String> = Vec::new();
        let mut i: usize = 0;
        while i < scripts.len()
            invariant
                i <= scripts.len(),
                string_views(r@) == common_scripts(string_views(scripts@).take(i as int)),
            decreases scripts.len() - i,
        {
            let c = chars_of(scripts[i].as_str());
            let ghost b = string_views(r@);
            let ghost sv = string_views(scripts@);
            assert(sv.take(i + 1).drop_last() =~= sv.take(i as int));
            assert(sv.take(i + 1).last() == scripts@[i as int]@);
            if eq_str(&c, "dev") || eq_str(&c, "build") || eq_str(&c, "test") || eq_str(&c, "start")
                || eq_str(&c, "lint") || eq_str(&c, "format") {
                r.push(string_of(&c));
                assert(string_views(r@) =~= b.push(c@));
            }
            i = i + 1;
        }
        assert(string_views(scripts@).take(scripts.len() as int) =~= string_views(scripts@));
        r
    }

    /// What a `package.json` tells the workspace summary (see
    /// `package_facts`).
    pub fn package_summary(content: &str) -> (r: Option<PackageSummary>)
        ensures
            match r {
                Some(p) => package_facts(content@) == Some((
                    string_views(p.scripts@),
                    string_views(p.common_commands@),
                    p.dependencies as nat,
                    p.dev_dependencies as nat,
                )),
                None => package_facts(content@) is None,
            },
    {
        let scripts = match json_object_keys_at(content, "scripts") {
            None => {
                return None;
            },
            Some(Some(k)) => k,
            Some(None) => {
                let k: Vec<String> = Vec::new();
                assert(string_views(k@) =~= Seq::<Seq<char>>::empty());
                k
            },
        };
        let dependencies: u64 = match json_object_keys_at(content, "dependencies") {
            Some(Some(k)) => k.len() as u64,
            _ => 0,
        };
        let dev_dependencies: u64 = match json_object_keys_at(content, "devDependencies") {
            Some(Some(k)) => k.len() as u64,
            _ => 0,
        };
        let common_commands = Self::common_scripts(&scripts);
        Some(PackageSummary { scripts, common_commands, dependencies, dev_dependencies })
    }

    /// How many dependencies a `Cargo.toml` lists (see `cargo_dependencies`).
    pub fn cargo_dependency_count(content: &str) -> (r: Option<u64>)
        ensures
            match r {
                Some(n) => cargo_dependencies(content@) == Some(n as nat),
                None => cargo_dependencies(content@) is None,
            },
    {
        match toml_table_len_at(content, "dependencies") {
            None => None,
            Some(None) => Some(0),
            Some(Some(n)) => Some(n as u64),
        }
    }

    /// The number of module lines in a `go.mod`'s `require (` block (the
    /// opening line included).
    pub fn go_module_count(content: &str) -> (r: u64)
        ensures
            r == require_block_len(lines(content@), false),
    {
        let ls = lines_exec(&chars_of(content));
        let req = chars_of("require (");
        let close = chars_of(")");
        let mut started = false;
        let mut n: u64 = 0;
        let mut i: usize = 0;
        let ghost vl = views(ls@);
        assert(vl.skip(0) =~= vl);
        while i < ls.len()
            invariant
                i <= ls.len(),
                vl == views(ls@),
                vl == lines(content@),
                req@ == "require ("@,
                close@ == ")"@,
                n <= i,
                n + require_block_len(vl.skip(i as int), started) == require_block_len(vl, false),
            decreases ls.len() - i,
        {
            assert(vl.skip(i as int)[0] == ls@[i as int]@);
            assert(vl.skip(i as int).drop_first() =~= vl.skip(i + 1));
            if !started && !starts_with_exec(&ls[i], &req) {
            } else if starts_with_exec(&ls[i], &close) {
                assert(require_block_len(vl.skip(i as int), started) == 0);
                return n;
            } else {
                started = true;
                n = n + 1;
            }
            i = i + 1;
        }
        assert(vl.skip(i as int) =~= seq![]);
        n
    }

    /// The variable names of an environment template.
    pub fn env_variables(content: &str) -> (r: Vec<String>)
        ensures
            string_views(r@) == env_names(lines(content@)),
    {
        let ls = lines_exec(&chars_of(content));
        let mut r: Vec<String> = Vec::new();
        let mut i: usize = 0;
        let ghost vl = views(ls@);
        while i < ls.len()
            invariant
                i <= ls.len(),
                vl == views(ls@),
                string_views(r@) == env_names(vl.take(i as int)),
            decreases ls.len() - i,
        {
            assert(vl.take(i + 1).drop_last() =~= vl.take(i as int));
            assert(vl.take(i + 1).last() == ls@[i as int]@);
            let head = before_char_exec(&ls[i], '=');
            let ghost b = string_views(r@);
            if !starts_with_exec(&ls[i], &chars_of("#")) && head.len() > 0 {
                r.push(string_of(&head));
                assert(string_views(r@) =~= b.push(head@));
            }
            i = i + 1;
        }
        assert(vl.take(ls.len() as int) =~= vl);
        r
    }

    /// The targets of a Makefile.
    pub fn make_targets(content: &str) -> (r: Vec<String>)
        ensures
            string_views(r@) == make_targets(lines(content@)),
    {
        let ls = lines_exec(&chars_of(content));
        let mut r: Vec<String> = Vec::new();
        let mut i: usize = 0;
        let ghost vl = views(ls@);
        while i < ls.len()
            invariant
                i <= ls.len(),
                vl == views(ls@),
                string_views(r@) == make_targets(vl.take(i as int)),
            decreases ls.len() - i,
        {
            assert(vl.take(i + 1).drop_last() =~= vl.take(i as int));
            assert(vl.take(i + 1).last() == ls@[i as int]@);
            let l = &ls[i];
            let t = trim_exec(&before_char_exec(l, ':'));
            let ghost b = string_views(r@);
            if !starts_with_exec(l, &chars_of("\t")) && !starts_with_exec(l, &chars_of(" "))
                && contains_exec(l, &chars_of(":")) && t.len() > 0 && !starts_with_exec(&t, &chars_of(".")) {
                r.push(string_of(&t));
                assert(string_views(r@) =~= b.push(t@));
            }
            i = i + 1;
        }
        assert(vl.take(ls.len() as int) =~= vl);
        r
    }

    /// The tool a call names (`None`: the tool does not exist).
    pub fn tool_kind(name: &str) -> (r: Option<ToolKind>)
        ensures
            r == tool_kind_of(name@),
    {
        let c = chars_of(name);
        if eq_str(&c, "read_file") {
            Some(ToolKind::ReadFile)
        } else if eq_str(&c, "write_file") {
            Some(ToolKind::WriteFile)
        } else if eq_str(&c, "list_directory") {
            Some(ToolKind::ListDirectory)
        } else if eq_str(&c, "get_file_tree") {
            Some(ToolKind::GetFileTree)
        } else if eq_str(&c, "web_search") {
            Some(ToolKind::WebSearch)
        } else if eq_str(&c, "read_url") {
            Some(ToolKind::ReadUrl)
        } else if eq_str(&c, "run_command") {
            Some(ToolKind::RunCommand)
        } else if eq_str(&c, "git_status") {
            Some(ToolKind::GitStatus)
        } else if eq_str(&c, "git_diff") {
            Some(ToolKind::GitDiff)
        } else if eq_str(&c, "git_add") {
            Some(ToolKind::GitAdd)
        } else if eq_str(&c, "git_commit") {
            Some(ToolKind::GitCommit)
        } else if eq_str(&c, "git_log") {
            Some(ToolKind::GitLog)
        } else if eq_str(&c, "git_branch") {
            Some(ToolKind::GitBranch)
        } else if eq_str(&c, "search_code") {
            Some(ToolKind::SearchCode)
        } else if eq_str(&c, "detect_project_type") {
            Some(ToolKind::DetectProjectType)
        } else if eq_str(&c, "get_workspace_info") {
            Some(ToolKind::GetWorkspaceInfo)
        } else if eq_str(&c, "generate_tests") {
            Some(ToolKind::GenerateTests)
        } else if eq_str(&c, "execute_code") {
            Some(ToolKind::ExecuteCode)
        } else if eq_str(&c, "preview_edit") {
            Some(ToolKind::PreviewEdit)
        } else if eq_str(&c, "scaffold_template") {
            Some(ToolKind::ScaffoldTemplate)
        } else if eq_str(&c, "security_command") {
            Some(ToolKind::SecurityCommand)
        } else {
            None
        }
    }

    /// The answer to a call of a tool that does not exist.
    pub fn unknown_tool_message(name: &str) -> (r: String)
        ensures
            r@ == "Error: Tool '"@ + name@ + "' not found."@,
    {
        let mut t: Vec<char> = Vec::new();
        push_str(&mut t, "Error: Tool '");
        push_str(&mut t, name);
        push_str(&mut t, "' not found.");
        string_of(&t)
    }

    /// The answer to a successful `write_file`.
    pub fn write_success_message(path: &str) -> (r: String)
        ensures
            r@ == "Successfully wrote to "@ + path@,
    {
        let mut t: Vec<char> = Vec::new();
        push_str(&mut t, "Successfully wrote to ");
        push_str(&mut t, path);
        string_of(&t)
    }

    /// The answer to `list_directory` or `get_file_tree`: one line per
    /// entry below the root, marked `[DIR]` or `[FILE]`, or `empty_message`
    /// when there is none.
    pub fn listing_report(entries: &Vec<(bool, String)>, empty_message: &str) -> (r: String)
        ensures
            r@ == if entries@.len() == 0 {
                empty_message@
            } else {
                join(
                    entries@.map_values(
                        |e: (bool, String)| (if e.0 { "[DIR]"@ } else { "[FILE]"@ }) + " "@ + e.1@,
                    ),
                    "\n"@,
                )
            },
    {
        if entries.len() == 0 {
            return String::from_str(empty_message);
        }
        let mut pieces: Vec<Vec<char>> = Vec::new();
        let mut i: usize = 0;
        while i < entries.len()
            invariant
                i <= entries.len(),
                views(pieces@) == entries@.take(i as int).map_values(
                    |e: (bool, String)| (if e.0 { "[DIR]"@ } else { "[FILE]"@ }) + " "@ + e.1@,
                ),
            decreases entries.len() - i,
        {
            let mut t: Vec<char> = Vec::new();
            if entries[i].0 {
                push_str(&mut t, "[DIR]");
            } else {
                push_str(&mut t, "[FILE]");
            }
            push_str(&mut t, " ");
            push_str(&mut t, entries[i].1.as_str());
            proof {
                lemma_views_push(pieces@, t);
            }
            pieces.push(t);
            assert(entries@.take(i + 1).map_values(
                |e: (bool, String)| (if e.0 { "[DIR]"@ } else { "[FILE]"@ }) + " "@ + e.1@,
            ) =~= entries@.take(i as int).map_values(
                |e: (bool, String)| (if e.0 { "[DIR]"@ } else { "[FILE]"@ }) + " "@ + e.1@,
            ).push((if entries@[i as int].0 { "[DIR]"@ } else { "[FILE]"@ }) + " "@ + entries@[i as int].1@));
            i = i + 1;
        }
        assert(entries@.take(entries.len() as int) =~= entries@);
        string_of(&join_exec(&pieces, &chars_of("\n")))
    }
}


/// Whether a tool declares every parameter it requires.
pub open spec fn declares_required(t: ToolView) -> bool {
    match t.4 {
        Some(req) => forall|j: int| 0 <= j < req.len() ==> t.3.map_values(|p: PropView| p.0).contains(#[trigger] req[j]),
        None => true,
    }
}

/// Every tool offered to the model is one the registry runs, and every
/// parameter a tool requires is one it declares.
pub proof fn lemma_catalog_consistent()
    ensures
        forall|i: int| 0 <= i < tool_catalog().len() ==> tool_kind_of(#[trigger] tool_catalog()[i].1) is Some,
        forall|i: int| 0 <= i < tool_catalog().len() ==> declares_required(#[trigger] tool_catalog()[i]),
{
    assert(tool_catalog().len() == 21);
    assert(tool_kind_of(tool_catalog()[0].1) is Some);
    assert(tool_catalog()[0].3.map_values(|p: PropView| p.0) =~= seq!["path"@]);
    assert(tool_catalog()[0].3.map_values(|p: PropView| p.0)[0] == tool_catalog()[0].4->0[0]);
    assert(declares_required(tool_catalog()[0]));
    assert(tool_kind_of(tool_catalog()[1].1) is Some);
    assert(tool_catalog()[1].3.map_values(|p: PropView| p.0) =~= seq!["path"@, "content"@]);
    assert(tool_catalog()[1].3.map_values(|p: PropView| p.0)[0] == tool_catalog()[1].4->0[0]);
    assert(tool_catalog()[1].3.map_values(|p: PropView| p.0)[1] == tool_catalog()[1].4->0[1]);
    assert(declares_required(tool_catalog()[1]));
    assert(tool_kind_of(tool_catalog()[2].1) is Some);
    assert(tool_kind_of(tool_catalog()[3].1) is Some);
    assert(tool_kind_of(tool_catalog()[4].1) is Some);
    assert(tool_catalog()[4].3.map_values(|p: PropView| p.0) =~= seq!["query"@]);
    assert(tool_catalog()[4].3.map_values(|p: PropView| p.0)[0] == tool_catalog()[4].4->0[0]);
    assert(declares_required(tool_catalog()[4]));
    assert(tool_kind_of(tool_catalog()[5].1) is Some);
    assert(tool_catalog()[5].3.map_values(|p: PropView| p.0) =~= seq!["url"@]);
    assert(tool_catalog()[5].3.map_values(|p: PropView| p.0)[0] == tool_catalog()[5].4->0[0]);
    assert(declares_required(tool_catalog()[5]));
    assert(tool_kind_of(tool_catalog()[6].1) is Some);
    assert(tool_catalog()[6].3.map_values(|p: PropView| p.0) =~= seq!["command"@, "cwd"@, "timeout"@, "env"@]);
    assert(tool_catalog()[6].3.map_values(|p: PropView| p.0)[0] == tool_catalog()[6].4->0[0]);
    assert(declares_required(tool_catalog()[6]));
    assert(tool_kind_of(tool_catalog()[7].1) is Some);
    assert(tool_kind_of(tool_catalog()[8].1) is Some);
    assert(tool_kind_of(tool_catalog()[9].1) is Some);
    assert(tool_catalog()[9].3.map_values(|p: PropView| p.0) =~= seq!["paths"@]);
    assert(tool_catalog()[9].3.map_values(|p: PropView| p.0)[0] == tool_catalog()[9].4->0[0]);
    assert(declares_required(tool_catalog()[9]));
    assert(tool_kind_of(tool_catalog()[10].1) is Some);
    assert(tool_catalog()[10].3.map_values(|p: PropView| p.0) =~= seq!["message"@]);
    assert(tool_catalog()[10].3.map_values(|p: PropView| p.0)[0] == tool_catalog()[10].4->0[0]);
    assert(declares_required(tool_catalog()[10]));
    assert(tool_kind_of(tool_catalog()[11].1) is Some);
    assert(tool_kind_of(tool_catalog()[12].1) is Some);
    assert(tool_kind_of(tool_catalog()[13].1) is Some);
    assert(tool_catalog()[13].3.map_values(|p: PropView| p.0) =~= seq!["pattern"@, "path"@]);
    assert(tool_catalog()[13].3.map_values(|p: PropView| p.0)[0] == tool_catalog()[13].4->0[0]);
    assert(declares_required(tool_catalog()[13]));
    assert(tool_kind_of(tool_catalog()[14].1) is Some);
    assert(tool_kind_of(tool_catalog()[15].1) is Some);
    assert(tool_kind_of(tool_catalog()[16].1) is Some);
    assert(tool_catalog()[16].3.map_values(|p: PropView| p.0) =~= seq!["file_path"@, "test_type"@, "framework"@]);
    assert(tool_catalog()[16].3.map_values(|p: PropView| p.0)[0] == tool_catalog()[16].4->0[0]);
    assert(declares_required(tool_catalog()[16]));
    assert(tool_kind_of(tool_catalog()[17].1) is Some);
    assert(tool_catalog()[17].3.map_values(|p: PropView| p.0) =~= seq!["file_path"@, "args"@, "timeout"@]);
    assert(tool_catalog()[17].3.map_values(|p: PropView| p.0)[0] == tool_catalog()[17].4->0[0]);
    assert(declares_required(tool_catalog()[17]));
    assert(tool_kind_of(tool_catalog()[18].1) is Some);
    assert(tool_catalog()[18].3.map_values(|p: PropView| p.0) =~= seq!["file_path"@, "instruction"@, "show_diff"@]);
    assert(tool_catalog()[18].3.map_values(|p: PropView| p.0)[0] == tool_catalog()[18].4->0[0]);
    assert(tool_catalog()[18].3.map_values(|p: PropView| p.0)[1] == tool_catalog()[18].4->0[1]);
    assert(declares_required(tool_catalog()[18]));
    assert(tool_kind_of(tool_catalog()[19].1) is Some);
    assert(tool_catalog()[19].3.map_values(|p: PropView| p.0) =~= seq!["name"@, "template_type"@, "output_path"@, "options"@]);
    assert(tool_catalog()[19].3.map_values(|p: PropView| p.0)[0] == tool_catalog()[19].4->0[0]);
    assert(tool_catalog()[19].3.map_values(|p: PropView| p.0)[2] == tool_catalog()[19].4->0[1]);
    assert(declares_required(tool_catalog()[19]));
    assert(tool_kind_of(tool_catalog()[20].1) is Some);
    assert(tool_catalog()[20].3.map_values(|p: PropView| p.0) =~= seq!["command"@, "explanation"@, "timeout"@]);
    assert(tool_catalog()[20].3.map_values(|p: PropView| p.0)[0] == tool_catalog()[20].4->0[0]);
    assert(tool_catalog()[20].3.map_values(|p: PropView| p.0)[1] == tool_catalog()[20].4->0[1]);
    assert(declares_required(tool_catalog()[20]));
    assert forall|i: int| 0 <= i < tool_catalog().len() implies tool_kind_of(#[trigger] tool_catalog()[i].1) is Some by {
        assert(0 <= i < 21);
    }
    assert forall|i: int| 0 <= i < tool_catalog().len() implies declares_required(#[trigger] tool_catalog()[i]) by {
        assert(0 <= i < 21);
    }
}

/// Output within the line limit is passed on unchanged.
pub proof fn lemma_truncate_short_output(output: Seq<char>, max: nat)
    requires
        lines(output).len() <= max,
    ensures
        truncated_output(output, max) == output,
{
}

/// Only a path starting with `~/` is changed by expansion, and then only
/// its `~`.
pub proof fn lemma_expand_path(path: Seq<char>, home: Option<Seq<char>>)
    ensures
        !starts_with(path, "~/"@) ==> expanded_path(path, home) == path,
        starts_with(path, "~/"@) && home is Some ==> expanded_path(path, home) == home->0 + path.skip(1),
{
}

/// Whether a command is dangerous does not depend on its case.
pub proof fn lemma_danger_ignores_case(a: Seq<char>, b: Seq<char>)
    requires
        lower(a) == lower(b),
    ensures
        is_dangerous(a) == is_dangerous(b),
{
}

/// Output over the line limit keeps its first and its last `max / 2` lines
/// around a note of how many lines beyond the limit it had.
pub proof fn lemma_truncate_long_output(output: Seq<char>, max: nat)
    requires
        lines(output).len() > max,
    ensures
        truncated_output(output, max) == join(lines(output).take((max / 2) as int), "\n"@) + "\n... ("@
            + decimal((lines(output).len() - max) as nat) + " lines truncated) ...\n"@ + join(
            lines(output).subrange(lines(output).len() - max / 2, lines(output).len() as int),
            "\n"@,
        ),
        lines(output).subrange(lines(output).len() - max / 2, lines(output).len() as int).len() == max / 2,
{
    let ls = lines(output);
    assert(ls.skip(ls.len() - max / 2) =~= ls.subrange(ls.len() - max / 2, ls.len() as int));
}

} // verus!
