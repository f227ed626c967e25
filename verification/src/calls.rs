//! What a tool call asks for: its JSON arguments read into a request, with
//! each tool's defaults and the checks that refuse a call before any work
//! is done.
use vstd::prelude::*;
use crate::ai::opt_view;
use crate::json::{
    json_bool, json_bool_field, json_str, json_str_entries, json_str_entries_field, json_str_field,
    json_str_items, json_str_items_field,
    json_u64, json_u64_field, str_field_or, str_or,
};
use crate::testgen::string_views;
use crate::text::{chars_of, trim, trim_exec};
use crate::tools::ToolKind;

verus! {

/// A tool call with its arguments read.
#[derive(Debug, Clone)]
pub enum ToolRequest {
    ReadFile { path: String },
    WriteFile { path: String, content: String },
    ListDirectory { path: String },
    GetFileTree { path: String, depth: u64 },
    WebSearch { query: String },
    ReadUrl { url: String },
    RunCommand { command: String, cwd: Option<String>, timeout: u64, env: Vec<(String, String)> },
    GitStatus,
    GitDiff { staged: bool },
    GitAdd { paths: Vec<String> },
    GitCommit { message: String },
    GitLog { limit: u64 },
    GitBranch { action: String, name: String },
    SearchCode { pattern: String, path: String },
    DetectProjectType { path: String },
    GetWorkspaceInfo { path: String },
    GenerateTests { file_path: String },
    ExecuteCode { file_path: String, args: String, timeout: u64 },
    PreviewEdit { file_path: String, instruction: String },
    ScaffoldTemplate { name: String, template_type: String, output_path: String },
    SecurityCommand { command: String, explanation: String, timeout: u64 },
}

/// A request as plain values.
pub enum RequestView {
    ReadFile(Seq<char>),
    WriteFile(Seq<char>, Seq<char>),
    ListDirectory(Seq<char>),
    GetFileTree(Seq<char>, u64),
    WebSearch(Seq<char>),
    ReadUrl(Seq<char>),
    RunCommand(Seq<char>, Option<Seq<char>>, u64, Seq<(Seq<char>, Seq<char>)>),
    GitStatus,
    GitDiff(bool),
    GitAdd(Seq<Seq<char>>),
    GitCommit(Seq<char>),
    GitLog(u64),
    GitBranch(Seq<char>, Seq<char>),
    SearchCode(Seq<char>, Seq<char>),
    DetectProjectType(Seq<char>),
    GetWorkspaceInfo(Seq<char>),
    GenerateTests(Seq<char>),
    ExecuteCode(Seq<char>, Seq<char>, u64),
    PreviewEdit(Seq<char>, Seq<char>),
    ScaffoldTemplate(Seq<char>, Seq<char>, Seq<char>),
    SecurityCommand(Seq<char>, Seq<char>, u64),
}

pub open spec fn request_view(r: ToolRequest) -> RequestView {
    match r {
        ToolRequest::ReadFile { path } => RequestView::ReadFile(path@),
        ToolRequest::WriteFile { path, content } => RequestView::WriteFile(path@, content@),
        ToolRequest::ListDirectory { path } => RequestView::ListDirectory(path@),
        ToolRequest::GetFileTree { path, depth } => RequestView::GetFileTree(path@, depth),
        ToolRequest::WebSearch { query } => RequestView::WebSearch(query@),
        ToolRequest::ReadUrl { url } => RequestView::ReadUrl(url@),
        ToolRequest::RunCommand { command, cwd, timeout, env } => RequestView::RunCommand(
            command@,
            opt_view(cwd),
            timeout,
            env@.map_values(|e: (String, String)| (e.0@, e.1@)),
        ),
        ToolRequest::GitStatus => RequestView::GitStatus,
        ToolRequest::GitDiff { staged } => RequestView::GitDiff(staged),
        ToolRequest::GitAdd { paths } => RequestView::GitAdd(string_views(paths@)),
        ToolRequest::GitCommit { message } => RequestView::GitCommit(message@),
        ToolRequest::GitLog { limit } => RequestView::GitLog(limit),
        ToolRequest::GitBranch { action, name } => RequestView::GitBranch(action@, name@),
        ToolRequest::SearchCode { pattern, path } => RequestView::SearchCode(pattern@, path@),
        ToolRequest::DetectProjectType { path } => RequestView::DetectProjectType(path@),
        ToolRequest::GetWorkspaceInfo { path } => RequestView::GetWorkspaceInfo(path@),
        ToolRequest::GenerateTests { file_path } => RequestView::GenerateTests(file_path@),
        ToolRequest::ExecuteCode { file_path, args, timeout } => RequestView::ExecuteCode(file_path@, args@, timeout),
        ToolRequest::PreviewEdit { file_path, instruction } => RequestView::PreviewEdit(file_path@, instruction@),
        ToolRequest::ScaffoldTemplate { name, template_type, output_path } => RequestView::ScaffoldTemplate(
            name@,
            template_type@,
            output_path@,
        ),
        ToolRequest::SecurityCommand { command, explanation, timeout } => RequestView::SecurityCommand(
            command@,
            explanation@,
            timeout,
        ),
    }
}

/// An integer field of JSON arguments, or `default` where it is missing.
pub open spec fn u64_or(text: Seq<char>, key: Seq<char>, default: u64) -> u64 {
    match json_u64(text, key) {
        Some(n) => n,
        None => default,
    }
}

/// A boolean field of JSON arguments, or `default` where it is missing.
pub open spec fn bool_or(text: Seq<char>, key: Seq<char>, default: bool) -> bool {
    match json_bool(text, key) {
        Some(b) => b,
        None => default,
    }
}

/// An integer field of JSON arguments, `default` where it is missing, and
/// at most `max`.
pub open spec fn capped(text: Seq<char>, key: Seq<char>, default: u64, max: u64) -> u64 {
    let t = u64_or(text, key, default);
    if t < max {
        t
    } else {
        max
    }
}

/// The entries with a string value, in order.
pub open spec fn string_entries(es: Seq<(Seq<char>, Option<Seq<char>>)>) -> Seq<(Seq<char>, Seq<char>)>
    decreases es.len(),
{
    if es.len() == 0 {
        seq![]
    } else {
        string_entries(es.drop_last()) + match es.last().1 {
            Some(v) => seq![(es.last().0, v)],
            None => seq![],
        }
    }
}

/// The environment variables a command call adds: the string entries of
/// its `env` object, none where there is no object.
pub open spec fn env_of(a: Seq<char>) -> Seq<(Seq<char>, Seq<char>)> {
    match json_str_entries(a, "env"@) {
        Some(es) => string_entries(es),
        None => seq![],
    }
}

/// The strings among the items of an array, in order.
pub open spec fn strings_among(items: Seq<Option<Seq<char>>>) -> Seq<Seq<char>>
    decreases items.len(),
{
    if items.len() == 0 {
        seq![]
    } else {
        strings_among(items.drop_last()) + match items.last() {
            Some(s) => seq![s],
            None => seq![],
        }
    }
}

/// What `execute_code` reads from its arguments: the file, its arguments
/// (empty by default), and the time limit in seconds (60 by default, 300
/// at most); a missing or empty file path is refused.
pub open spec fn execution_args(a: Seq<char>) -> Result<(Seq<char>, Seq<char>, u64), Seq<char>> {
    let file_path = str_or(a, "file_path"@, ""@);
    if file_path.len() == 0 {
        Err("Error: file_path is required"@)
    } else {
        Ok((file_path, str_or(a, "args"@, ""@), capped(a, "timeout"@, 60, 300)))
    }
}

/// The request a call of tool `kind` with JSON arguments `a` makes, or the
/// answer that refuses it.
pub open spec fn requested(kind: ToolKind, a: Seq<char>) -> Result<RequestView, Seq<char>> {
    match kind {
        ToolKind::ReadFile => Ok(RequestView::ReadFile(str_or(a, "path"@, ""@))),
        ToolKind::WriteFile => Ok(RequestView::WriteFile(str_or(a, "path"@, ""@), str_or(a, "content"@, ""@))),
        ToolKind::ListDirectory => Ok(RequestView::ListDirectory(str_or(a, "path"@, "."@))),
        ToolKind::GetFileTree => Ok(RequestView::GetFileTree(str_or(a, "path"@, "."@), u64_or(a, "depth"@, 3))),
        ToolKind::WebSearch => Ok(RequestView::WebSearch(str_or(a, "query"@, ""@))),
        ToolKind::ReadUrl => Ok(RequestView::ReadUrl(str_or(a, "url"@, ""@))),
        ToolKind::RunCommand => {
            let command = str_or(a, "command"@, ""@);
            if trim(command).len() == 0 {
                Err("Error: command is required."@)
            } else {
                Ok(RequestView::RunCommand(command, json_str(a, "cwd"@), capped(a, "timeout"@, 60, 300), env_of(a)))
            }
        },
        ToolKind::GitStatus => Ok(RequestView::GitStatus),
        ToolKind::GitDiff => Ok(RequestView::GitDiff(bool_or(a, "staged"@, false))),
        ToolKind::GitAdd => match json_str_items(a, "paths"@) {
            Some(items) => Ok(RequestView::GitAdd(strings_among(items))),
            None => Err("Error: paths argument missing or not an array."@),
        },
        ToolKind::GitCommit => Ok(RequestView::GitCommit(str_or(a, "message"@, ""@))),
        ToolKind::GitLog => Ok(RequestView::GitLog(u64_or(a, "limit"@, 5))),
        ToolKind::GitBranch => Ok(RequestView::GitBranch(str_or(a, "action"@, "list"@), str_or(a, "name"@, ""@))),
        ToolKind::SearchCode => Ok(RequestView::SearchCode(str_or(a, "pattern"@, ""@), str_or(a, "path"@, "."@))),
        ToolKind::DetectProjectType => Ok(RequestView::DetectProjectType(str_or(a, "path"@, "."@))),
        ToolKind::GetWorkspaceInfo => Ok(RequestView::GetWorkspaceInfo(str_or(a, "path"@, "."@))),
        ToolKind::GenerateTests => {
            let file_path = str_or(a, "file_path"@, ""@);
            if file_path.len() == 0 {
                Err("Error: file_path is required"@)
            } else {
                Ok(RequestView::GenerateTests(file_path))
            }
        },
        ToolKind::ExecuteCode => match execution_args(a) {
            Ok((f, g, t)) => Ok(RequestView::ExecuteCode(f, g, t)),
            Err(e) => Err(e),
        },
        ToolKind::PreviewEdit => {
            let file_path = str_or(a, "file_path"@, ""@);
            let instruction = str_or(a, "instruction"@, ""@);
            if file_path.len() == 0 {
                Err("Error: file_path is required"@)
            } else if instruction.len() == 0 {
                Err("Error: instruction is required"@)
            } else {
                Ok(RequestView::PreviewEdit(file_path, instruction))
            }
        },
        ToolKind::ScaffoldTemplate => {
            let name = str_or(a, "name"@, ""@);
            let output_path = str_or(a, "output_path"@, ""@);
            if name.len() == 0 {
                Err("Error: name is required"@)
            } else if output_path.len() == 0 {
                Err("Error: output_path is required"@)
            } else {
                Ok(RequestView::ScaffoldTemplate(name, str_or(a, "template_type"@, "component"@), output_path))
            }
        },
        ToolKind::SecurityCommand => {
            let command = str_or(a, "command"@, ""@);
            if command.len() == 0 {
                Err("Error: command is required"@)
            } else {
                Ok(
                    RequestView::SecurityCommand(
                        command,
                        str_or(a, "explanation"@, "Executing command"@),
                        capped(a, "timeout"@, 30, 120),
                    ),
                )
            }
        },
    }
}

fn u64_field_or(text: &str, key: &str, default: u64) -> (r: u64)
    ensures
        r == u64_or(text@, key@, default),
{
    match json_u64_field(text, key) {
        Some(n) => n,
        None => default,
    }
}

fn capped_field(text: &str, key: &str, default: u64, max: u64) -> (r: u64)
    ensures
        r == capped(text@, key@, default, max),
{
    let t = u64_field_or(text, key, default);
    if t < max {
        t
    } else {
        max
    }
}

fn env_entries(args: &str) -> (r: Vec<(String, String)>)
    ensures
        r@.map_values(|e: (String, String)| (e.0@, e.1@)) == env_of(args@),
{
    let es = match json_str_entries_field(args, "env") {
        Some(es) => es,
        None => {
            let out: Vec<(String, String)> = Vec::new();
            assert(out@.map_values(|e: (String, String)| (e.0@, e.1@)) =~= Seq::<(Seq<char>, Seq<char>)>::empty());
            return out;
        },
    };
    let ghost ev = es@.map_values(|e: (String, Option<String>)| (e.0@, opt_view(e.1)));
    let mut out: Vec<(String, String)> = Vec::new();
    let mut i: usize = 0;
    while i < es.len()
        invariant
            i <= es.len(),
            ev == es@.map_values(|e: (String, Option<String>)| (e.0@, opt_view(e.1))),
            Some(ev) == json_str_entries(args@, "env"@),
            out@.map_values(|e: (String, String)| (e.0@, e.1@)) == string_entries(ev.take(i as int)),
        decreases es.len() - i,
    {
        assert(ev.take(i as int + 1).drop_last() =~= ev.take(i as int));
        assert(ev.take(i as int + 1).last() == ev[i as int]);
        let ghost before = out@.map_values(|e: (String, String)| (e.0@, e.1@));
        match &es[i].1 {
            Some(v) => {
                out.push((es[i].0.clone(), v.clone()));
                assert(out@.map_values(|e: (String, String)| (e.0@, e.1@)) =~= before + seq![(ev[i as int].0, v@)]);
            },
            None => {
                assert(before + seq![] =~= before);
            },
        }
        assert(out@.map_values(|e: (String, String)| (e.0@, e.1@)) =~= string_entries(ev.take(i as int + 1)));
        i = i + 1;
    }
    assert(ev.take(es.len() as int) =~= ev);
    out
}

/// What `execute_code` reads from its JSON arguments (see `execution_args`).
pub fn execution_request(args: &str) -> (r: Result<(String, String, u64), String>)
    ensures
        match r {
            Ok((f, g, t)) => execution_args(args@) == Ok::<(Seq<char>, Seq<char>, u64), Seq<char>>((f@, g@, t)),
            Err(e) => execution_args(args@) == Err::<(Seq<char>, Seq<char>, u64), Seq<char>>(e@),
        },
{
    let file_path = str_field_or(args, "file_path", "");
    if file_path.as_str().is_empty() {
        return Err(String::from_str("Error: file_path is required"));
    }
    let run_args = str_field_or(args, "args", "");
    let timeout = capped_field(args, "timeout", 60, 300);
    Ok((file_path, run_args, timeout))
}

fn string_items(items: &Vec<Option<String>>) -> (r: Vec<String>)
    ensures
        string_views(r@) == strings_among(items@.map_values(|x: Option<String>| opt_view(x))),
{
    let ghost iv = items@.map_values(|x: Option<String>| opt_view(x));
    let mut out: Vec<String> = Vec::new();
    let mut i: usize = 0;
    while i < items.len()
        invariant
            i <= items.len(),
            iv == items@.map_values(|x: Option<String>| opt_view(x)),
            string_views(out@) == strings_among(iv.take(i as int)),
        decreases items.len() - i,
    {
        assert(iv.take(i as int + 1).drop_last() =~= iv.take(i as int));
        match &items[i] {
            Some(s) => {
                out.push(s.clone());
            },
            None => {},
        }
        assert(string_views(out@) =~= strings_among(iv.take(i as int + 1)));
        i = i + 1;
    }
    assert(iv.take(items.len() as int) =~= iv);
    out
}

/// Reads the JSON arguments of a call to tool `kind` (see `requested`).
pub fn tool_request(kind: ToolKind, args: &str) -> (r: Result<ToolRequest, String>)
    ensures
        match r {
            Ok(q) => requested(kind, args@) == Ok::<RequestView, Seq<char>>(request_view(q)),
            Err(e) => requested(kind, args@) == Err::<RequestView, Seq<char>>(e@),
        },
{
    match kind {
        ToolKind::ReadFile => Ok(ToolRequest::ReadFile { path: str_field_or(args, "path", "") }),
        ToolKind::WriteFile => Ok(
            ToolRequest::WriteFile {
                path: str_field_or(args, "path", ""),
                content: str_field_or(args, "content", ""),
            },
        ),
        ToolKind::ListDirectory => Ok(ToolRequest::ListDirectory { path: str_field_or(args, "path", ".") }),
        ToolKind::GetFileTree => Ok(
            ToolRequest::GetFileTree { path: str_field_or(args, "path", "."), depth: u64_field_or(args, "depth", 3) },
        ),
        ToolKind::WebSearch => Ok(ToolRequest::WebSearch { query: str_field_or(args, "query", "") }),
        ToolKind::ReadUrl => Ok(ToolRequest::ReadUrl { url: str_field_or(args, "url", "") }),
        ToolKind::RunCommand => {
            let command = str_field_or(args, "command", "");
            let t = trim_exec(&chars_of(command.as_str()));
            if t.len() == 0 {
                Err(String::from_str("Error: command is required."))
            } else {
                Ok(
                    ToolRequest::RunCommand {
                        command,
                        cwd: json_str_field(args, "cwd"),
                        timeout: capped_field(args, "timeout", 60, 300),
                        env: env_entries(args),
                    },
                )
            }
        },
        ToolKind::GitStatus => Ok(ToolRequest::GitStatus),
        ToolKind::GitDiff => {
            let staged = match json_bool_field(args, "staged") {
                Some(b) => b,
                None => false,
            };
            Ok(ToolRequest::GitDiff { staged })
        },
        ToolKind::GitAdd => match json_str_items_field(args, "paths") {
            Some(items) => Ok(ToolRequest::GitAdd { paths: string_items(&items) }),
            None => Err(String::from_str("Error: paths argument missing or not an array.")),
        },
        ToolKind::GitCommit => Ok(ToolRequest::GitCommit { message: str_field_or(args, "message", "") }),
        ToolKind::GitLog => Ok(ToolRequest::GitLog { limit: u64_field_or(args, "limit", 5) }),
        ToolKind::GitBranch => Ok(
            ToolRequest::GitBranch {
                action: str_field_or(args, "action", "list"),
                name: str_field_or(args, "name", ""),
            },
        ),
        ToolKind::SearchCode => Ok(
            ToolRequest::SearchCode {
                pattern: str_field_or(args, "pattern", ""),
                path: str_field_or(args, "path", "."),
            },
        ),
        ToolKind::DetectProjectType => Ok(ToolRequest::DetectProjectType { path: str_field_or(args, "path", ".") }),
        ToolKind::GetWorkspaceInfo => Ok(ToolRequest::GetWorkspaceInfo { path: str_field_or(args, "path", ".") }),
        ToolKind::GenerateTests => {
            let file_path = str_field_or(args, "file_path", "");
            if file_path.as_str().is_empty() {
                Err(String::from_str("Error: file_path is required"))
            } else {
                Ok(ToolRequest::GenerateTests { file_path })
            }
        },
        ToolKind::ExecuteCode => match execution_request(args) {
            Ok((file_path, run_args, timeout)) => Ok(
                ToolRequest::ExecuteCode { file_path, args: run_args, timeout },
            ),
            Err(e) => Err(e),
        },
        ToolKind::PreviewEdit => {
            let file_path = str_field_or(args, "file_path", "");
            let instruction = str_field_or(args, "instruction", "");
            if file_path.as_str().is_empty() {
                Err(String::from_str("Error: file_path is required"))
            } else if instruction.as_str().is_empty() {
                Err(String::from_str("Error: instruction is required"))
            } else {
                Ok(ToolRequest::PreviewEdit { file_path, instruction })
            }
        },
        ToolKind::ScaffoldTemplate => {
            let name = str_field_or(args, "name", "");
            let template_type = str_field_or(args, "template_type", "component");
            let output_path = str_field_or(args, "output_path", "");
            if name.as_str().is_empty() {
                Err(String::from_str("Error: name is required"))
            } else if output_path.as_str().is_empty() {
                Err(String::from_str("Error: output_path is required"))
            } else {
                Ok(ToolRequest::ScaffoldTemplate { name, template_type, output_path })
            }
        },
        ToolKind::SecurityCommand => {
            let command = str_field_or(args, "command", "");
            let explanation = str_field_or(args, "explanation", "Executing command");
            if command.as_str().is_empty() {
                Err(String::from_str("Error: command is required"))
            } else {
                Ok(
                    ToolRequest::SecurityCommand {
                        command,
                        explanation,
                        timeout: capped_field(args, "timeout", 30, 120),
                    },
                )
            }
        },
    }
}

/// A program run never gets more than 300 seconds, and gets 60 where the
/// call names no limit.
pub proof fn lemma_execution_time_limit(a: Seq<char>)
    ensures
        execution_args(a) matches Ok((_, _, t)) ==> t <= 300,
        execution_args(a) matches Ok((_, _, t)) ==> (json_u64(a, "timeout"@) is None ==> t == 60),
        execution_args(a) is Ok && json_u64(a, "timeout"@) is Some && json_u64(a, "timeout"@)->0 <= 300
            ==> execution_args(a)->Ok_0.2 == json_u64(a, "timeout"@)->0,
{
}

/// A time limit read from a call's arguments never exceeds its maximum; it
/// is the default where the call names none, and the named value where
/// that is within the maximum.
pub proof fn lemma_capped_limit(text: Seq<char>, key: Seq<char>, default: u64, max: u64)
    requires
        default <= max,
    ensures
        capped(text, key, default, max) <= max,
        json_u64(text, key) is None ==> capped(text, key, default, max) == default,
        json_u64(text, key) is Some && json_u64(text, key)->0 <= max ==> capped(text, key, default, max)
            == json_u64(text, key)->0,
{
}

} // verus!
