//! The decisions of the command-line workflows: cleaning the model's
//! replies, splitting a pull request into title and body, the commit
//! review loop, which branches are worth a staleness check, the menus, and
//! the prompts the commands send.
use vstd::prelude::*;
use crate::text::{chars_of, string_of, push_str, trim, trim_exec, lines, lines_exec, views, starts_with, starts_with_exec, ends_with, ends_with_exec, contains, contains_exec, join, join_exec, lower, lower_vec, eq_str, eq_vec, find, find_exec, lemma_find, strip_prefixes, strip_prefixes_exec, slice, lemma_views_push, decimal, decimal_exec, is_ws, trim_start, lemma_trim_end, trailing_ws};
use crate::testgen::string_views;

verus! {

/// Whether a reply is wrapped in a Markdown code fence.
pub open spec fn is_fenced(t: Seq<char>) -> bool {
    starts_with(trim(t), "```"@)
}

/// The lines of a fenced reply that are kept: all but fence lines.
pub open spec fn kept_lines(ls: Seq<Seq<char>>) -> Seq<Seq<char>>
    decreases ls.len(),
{
    if ls.len() == 0 {
        seq![]
    } else if starts_with(trim(ls.last()), "```"@) {
        kept_lines(ls.drop_last())
    } else {
        kept_lines(ls.drop_last()).push(ls.last())
    }
}

/// A fenced reply without its first line and its fence lines, trimmed.
pub open spec fn unfenced(t: Seq<char>) -> Seq<char> {
    let ls = lines(t);
    trim(join(kept_lines(if ls.len() > 0 { ls.skip(1) } else { ls }), "\n"@))
}

/// A reply as it is used: unfenced when fenced, else trimmed.
pub open spec fn cleaned(t: Seq<char>) -> Seq<char> {
    if is_fenced(t) {
        unfenced(t)
    } else {
        trim(t)
    }
}

/// A refactored file as it is written: unfenced when fenced, else as it
/// came.
pub open spec fn cleaned_file(t: Seq<char>) -> Seq<char> {
    if is_fenced(t) {
        unfenced(t)
    } else {
        t
    }
}

fn unfence_exec(t: &Vec<char>) -> (r: Vec<char>)
    ensures
        r@ == unfenced(t@),
{
    let ls = lines_exec(t);
    let ghost lv = views(ls@);
    let fence = chars_of("```");
    let mut kept: Vec<Vec<char>> = Vec::new();
    let mut i: usize = 1;
    if ls.len() == 0 {
        assert(views(kept@) =~= kept_lines(lv));
    } else {
        assert(lv.skip(1).take(0) =~= seq![]);
        assert(views(kept@) =~= kept_lines(lv.skip(1).take(0)));
        while i < ls.len()
            invariant
                1 <= i <= ls.len(),
                lv == views(ls@),
                fence@ == "```"@,
                views(kept@) == kept_lines(lv.skip(1).take(i - 1)),
            decreases ls.len() - i,
        {
            assert(lv.skip(1).take(i as int).drop_last() =~= lv.skip(1).take(i - 1));
            assert(lv.skip(1).take(i as int).last() == ls@[i as int]@);
            let l = &ls[i];
            if !starts_with_exec(&trim_exec(l), &fence) {
                let c = slice(l, 0, l.len());
                assert(c@ =~= l@);
                proof {
                    lemma_views_push(kept@, c);
                }
                kept.push(c);
            }
            i = i + 1;
        }
        assert(lv.skip(1).take(ls.len() - 1) =~= lv.skip(1));
    }
    let nl: Vec<char> = vec!['\n'];
    proof {
        reveal_strlit("\n");
    }
    assert(nl@ =~= "\n"@);
    trim_exec(&join_exec(&kept, &nl))
}

/// Cleans a reply of the model, as [`cleaned`] says.
pub fn clean_reply(text: &str) -> (r: String)
    ensures
        r@ == cleaned(text@),
{
    let t = chars_of(text);
    if starts_with_exec(&trim_exec(&t), &chars_of("```")) {
        string_of(&unfence_exec(&t))
    } else {
        string_of(&trim_exec(&t))
    }
}

/// Cleans a refactored file, as [`cleaned_file`] says.
pub fn clean_file_reply(text: &str) -> (r: String)
    ensures
        r@ == cleaned_file(text@),
{
    let t = chars_of(text);
    if starts_with_exec(&trim_exec(&t), &chars_of("```")) {
        string_of(&unfence_exec(&t))
    } else {
        string_of(&t)
    }
}

/// `str::split_once('\n')`.
pub open spec fn split_line(s: Seq<char>) -> Option<(Seq<char>, Seq<char>)> {
    match find(s, seq!['\n']) {
        Some(i) => Some((s.take(i), s.skip(i + 1))),
        None => None,
    }
}

fn split_line_exec(s: &Vec<char>) -> (r: Option<(Vec<char>, Vec<char>)>)
    ensures
        match r {
            Some((a, b)) => split_line(s@) == Some((a@, b@)),
            None => split_line(s@) is None,
        },
{
    let nl: Vec<char> = vec!['\n'];
    assert(nl@ =~= seq!['\n']);
    proof {
        lemma_find(s@, nl@);
    }
    match find_exec(s, &nl) {
        Some(i) => {
            assert(i < s.len());
            let a = slice(s, 0, i);
            let b = slice(s, i + 1, s.len());
            assert(a@ =~= s@.take(i as int));
            assert(b@ =~= s@.skip(i + 1));
            Some((a, b))
        },
        None => None,
    }
}

/// The title and body of a pull request created through the API: a
/// leading `# ` heading line is the title; else the first line; a message
/// of one line without a heading becomes the body of an `Automated PR`.
pub open spec fn pr_parts(msg: Seq<char>) -> (Seq<char>, Seq<char>) {
    if starts_with(msg, "# "@) {
        match split_line(msg) {
            Some((t, b)) => (trim(strip_prefixes(t, "# "@)), trim(b)),
            None => (trim(strip_prefixes(msg, "# "@)), seq![]),
        }
    } else {
        match split_line(msg) {
            Some((t, b)) => (trim(t), trim(b)),
            None => ("Automated PR"@, msg),
        }
    }
}

/// The title and body of a pull request created with the GitHub CLI: the
/// first line, trimmed and without a `# ` heading mark, and the rest.
pub open spec fn pr_parts_cli(msg: Seq<char>) -> (Seq<char>, Seq<char>) {
    match split_line(msg) {
        Some((t, b)) => (strip_prefixes(trim(t), "# "@), trim(b)),
        None => ("Automated PR"@, msg),
    }
}

pub fn pr_title_body(msg: &str) -> (r: (String, String))
    ensures
        (r.0@, r.1@) == pr_parts(msg@),
{
    let m = chars_of(msg);
    let mark = chars_of("# ");
    if starts_with_exec(&m, &mark) {
        match split_line_exec(&m) {
            Some((t, b)) => (string_of(&trim_exec(&strip_prefixes_exec(&t, &mark))), string_of(&trim_exec(&b))),
            None => (string_of(&trim_exec(&strip_prefixes_exec(&m, &mark))), String::new()),
        }
    } else {
        match split_line_exec(&m) {
            Some((t, b)) => (string_of(&trim_exec(&t)), string_of(&trim_exec(&b))),
            None => (String::from_str("Automated PR"), string_of(&m)),
        }
    }
}

pub fn pr_title_body_cli(msg: &str) -> (r: (String, String))
    ensures
        (r.0@, r.1@) == pr_parts_cli(msg@),
{
    let m = chars_of(msg);
    match split_line_exec(&m) {
        Some((t, b)) => (string_of(&strip_prefixes_exec(&trim_exec(&t), &chars_of("# "))), string_of(&trim_exec(&b))),
        None => (String::from_str("Automated PR"), string_of(&m)),
    }
}

/// `gh pr create --title <title> --body <body> --base <base> --head <head>`.
pub fn gh_pr_create_args(title: &str, body: &str, base: &str, head: &str) -> (r: Vec<String>)
    ensures
        string_views(r@) == seq![
            "pr"@,
            "create"@,
            "--title"@,
            title@,
            "--body"@,
            body@,
            "--base"@,
            base@,
            "--head"@,
            head@,
        ],
{
    let parts: Vec<&str> = vec!["pr", "create", "--title", title, "--body", body, "--base", base, "--head", head];
    let mut r: Vec<String> = Vec::new();
    let mut i: usize = 0;
    while i < parts.len()
        invariant
            i <= parts.len(),
            string_views(r@) == parts@.take(i as int).map_values(|x: &str| x@),
        decreases parts.len() - i,
    {
        let ghost before = string_views(r@);
        r.push(String::from_str(parts[i]));
        assert(string_views(r@) =~= before.push(parts@[i as int]@));
        assert(parts@.take(i + 1).map_values(|x: &str| x@) =~= parts@.take(i as int).map_values(|x: &str| x@).push(
            parts@[i as int]@,
        ));
        i = i + 1;
    }
    assert(string_views(r@) =~= seq![
        "pr"@,
        "create"@,
        "--title"@,
        title@,
        "--body"@,
        body@,
        "--base"@,
        base@,
        "--head"@,
        head@,
    ]);
    r
}

/// The default system instruction of a commit message request.
pub const COMMIT_SYSTEM_PROMPT: &'static str = "You are an expert developer. Generate a concise, conventionally formatted git commit message for the provided diff. Output ONLY the commit message. Thinking Level: MEDIUM (Analyze the code logic deeply before summarizing).";

/// The default system instruction of a pull-request description request.
pub const PR_SYSTEM_PROMPT: &'static str = "You are an expert developer. Generate a minimalist Pull Request description in Markdown format. Focus on the COHESIVE PURPOSE of the changes at an executive level. Do not list every single commit as a checklist item. Base your description STRICTLY on the provided commits. Structure: \n# [A concise, descriptive PR title]\n\n## Summary\n(One paragraph summary)\n\n## Key Changes\n- (High level bullet)\n\n## Checklist\n- [x] (Max 5 technical milestones)";

/// The system prompt of the chat agent.
pub const AGENT_SYSTEM_PROMPT: &'static str = "You are an AI-powered git companion and coding agent. You help developers manage their projects, solve bugs, and find information. You have tools to read/write files, list directories, search the web, and run shell commands. Always focus on code quality and security. Be concise and helpful.";

/// The entries of the main menu, in order.
pub open spec fn main_menu_labels() -> Seq<Seq<char>> {
    seq!["✨ AI Commit      - Generate & commit smart messages"@, "🚀 Create PR      - Effortless pull request creation"@, "🕵️ Code Review    - Find bugs and security issues"@, "🛠️ AI Fix         - Let AI refactor or fix files"@, "🔍 Search History - Natural language commit search"@, "📑 Generate Doc    - Update your project README"@, "⚔️ Check Conflicts - Dry-run merge check"@, "🌱 Smart Branch   - AI-suggested branch name"@, "🏷️ NL Alias       - Translate English to Git command"@, "📋 Release Notes  - AI Categorized changelog"@, "🗺️ Repo Navigator - AI answers about the code"@, "🧹 Stale Branches - Intelligent branch cleanup"@, "🎯 Choose Model   - Browse free AI models"@, "🤖 AI Agent Chat  - Chat with tools (web, files)"@, "🪝 Install Hook   - Auto-run on every commit"@, "🗑️ Remove Hook    - Restore native git behavior"@, "🚪 Exit"@]
}

pub fn main_menu_items() -> (r: Vec<&'static str>)
    ensures
        r@.map_values(|x: &str| x@) == main_menu_labels(),
{
    let r: Vec<&'static str> = vec!["✨ AI Commit      - Generate & commit smart messages", "🚀 Create PR      - Effortless pull request creation", "🕵️ Code Review    - Find bugs and security issues", "🛠️ AI Fix         - Let AI refactor or fix files", "🔍 Search History - Natural language commit search", "📑 Generate Doc    - Update your project README", "⚔️ Check Conflicts - Dry-run merge check", "🌱 Smart Branch   - AI-suggested branch name", "🏷️ NL Alias       - Translate English to Git command", "📋 Release Notes  - AI Categorized changelog", "🗺️ Repo Navigator - AI answers about the code", "🧹 Stale Branches - Intelligent branch cleanup", "🎯 Choose Model   - Browse free AI models", "🤖 AI Agent Chat  - Chat with tools (web, files)", "🪝 Install Hook   - Auto-run on every commit", "🗑️ Remove Hook    - Restore native git behavior", "🚪 Exit"];
    assert(r@.map_values(|x: &str| x@) =~= main_menu_labels());
    r
}

/// The commands of the main menu.
#[derive(Debug, Clone, Copy, PartialEq, Eq, Structural)]
pub enum MenuCommand {
    Commit,
    Pr,
    Review,
    Fix,
    Search,
    Doc,
    Check,
    Branch,
    Alias,
    Release,
    Explain,
    Stale,
    Models,
    Chat,
    InstallHook,
    RemoveHook,
    Exit,
}

/// The command of a main-menu entry; anything past the last command (and
/// a failed selection, taken as the last entry) exits.
pub open spec fn menu_command_of(index: nat) -> MenuCommand {
    if index == 0 {
        MenuCommand::Commit
    } else if index == 1 {
        MenuCommand::Pr
    } else if index == 2 {
        MenuCommand::Review
    } else if index == 3 {
        MenuCommand::Fix
    } else if index == 4 {
        MenuCommand::Search
    } else if index == 5 {
        MenuCommand::Doc
    } else if index == 6 {
        MenuCommand::Check
    } else if index == 7 {
        MenuCommand::Branch
    } else if index == 8 {
        MenuCommand::Alias
    } else if index == 9 {
        MenuCommand::Release
    } else if index == 10 {
        MenuCommand::Explain
    } else if index == 11 {
        MenuCommand::Stale
    } else if index == 12 {
        MenuCommand::Models
    } else if index == 13 {
        MenuCommand::Chat
    } else if index == 14 {
        MenuCommand::InstallHook
    } else if index == 15 {
        MenuCommand::RemoveHook
    } else {
        MenuCommand::Exit
    }
}

pub fn menu_command(index: usize) -> (r: MenuCommand)
    ensures
        r == menu_command_of(index as nat),
{
    match index {
        0 => MenuCommand::Commit,
        1 => MenuCommand::Pr,
        2 => MenuCommand::Review,
        3 => MenuCommand::Fix,
        4 => MenuCommand::Search,
        5 => MenuCommand::Doc,
        6 => MenuCommand::Check,
        7 => MenuCommand::Branch,
        8 => MenuCommand::Alias,
        9 => MenuCommand::Release,
        10 => MenuCommand::Explain,
        11 => MenuCommand::Stale,
        12 => MenuCommand::Models,
        13 => MenuCommand::Chat,
        14 => MenuCommand::InstallHook,
        15 => MenuCommand::RemoveHook,
        _ => MenuCommand::Exit,
    }
}

/// The system instruction of a commit or pull-request request: the one the
/// configuration gives, else the default.
pub fn system_prompt_or<'a>(custom: Option<&'a str>, default: &'a str) -> (r: &'a str)
    ensures
        r@ == match custom {
            Some(c) => c@,
            None => default@,
        },
{
    match custom {
        Some(c) => c,
        None => default,
    }
}

/// The prompt that asks for a commit message for a diff (or its summary).
pub fn commit_prompt(diff: &str) -> (r: String)
    ensures
        r@ == "Here is the git diff (or summary):\n\n"@ + diff@,
{
    let mut t: Vec<char> = Vec::new();
    push_str(&mut t, "Here is the git diff (or summary):\n\n");
    push_str(&mut t, diff);
    string_of(&t)
}

/// The prompt that asks for a pull-request description of these commits.
pub fn pr_prompt(commits: &str) -> (r: String)
    ensures
        r@ == "STRICT INSTRUCTION: Only use the following commits to generate the PR. Ignore any external context or previous knowledge. COMMITS:\n\n"@ + commits@,
{
    let mut t: Vec<char> = Vec::new();
    push_str(&mut t, "STRICT INSTRUCTION: Only use the following commits to generate the PR. Ignore any external context or previous knowledge. COMMITS:\n\n");
    push_str(&mut t, commits);
    string_of(&t)
}

/// Whether the commit command offers to stage files first: run by hand,
/// with nothing staged (the staged diff is blank).
pub fn commit_needs_staging(hook_args: &Vec<String>, staged_diff: &str) -> (r: bool)
    ensures
        r == (hook_args@.len() == 0 && trim(staged_diff@).len() == 0),
{
    hook_args.len() == 0 && nothing_to_commit(staged_diff)
}

/// Whether a staged diff leaves nothing to commit: it is blank.
pub fn nothing_to_commit(staged_diff: &str) -> (r: bool)
    ensures
        r == (trim(staged_diff@).len() == 0),
{
    trim_exec(&chars_of(staged_diff)).len() == 0
}

/// The key the user pressed on a proposed commit message: Enter keeps it
/// (as shown), `e` edits it, `r` asks for another one, Esc or `q` gives up.
#[derive(Debug, Clone)]
pub enum Action {
    Confirm(String),
    Reject,
    Regenerate,
    Edit,
}

/// What the user decided about a proposed commit message.
#[derive(Debug, Clone)]
pub enum ReviewChoice {
    /// Keep the message.
    Confirm(String),
    /// Use the message as edited.
    Edit(String),
    /// Ask for another one.
    Regenerate,
    /// Give up.
    Reject,
}

/// The decision an action makes; `edited` is the text the editor gave,
/// used for `Edit` alone.
pub fn review_choice(action: Action, edited: String) -> (r: ReviewChoice)
    ensures
        match action {
            Action::Confirm(m) => r matches ReviewChoice::Confirm(x) && x@ == m@,
            Action::Edit => r matches ReviewChoice::Edit(x) && x@ == edited@,
            Action::Regenerate => r is Regenerate,
            Action::Reject => r is Reject,
        },
{
    match action {
        Action::Confirm(m) => ReviewChoice::Confirm(m),
        Action::Edit => ReviewChoice::Edit(edited),
        Action::Regenerate => ReviewChoice::Regenerate,
        Action::Reject => ReviewChoice::Reject,
    }
}

/// What the commit command does next.
#[derive(Debug, Clone)]
pub enum CommitAction {
    /// Run from the hook: write the message to the file git gave.
    WriteMessage { path: String, message: String },
    /// Run by hand: commit with the message, then push.
    CommitAndPush(String),
    /// Generate another message.
    Regenerate,
    /// Stop; from the hook, with exit status 1 so that git aborts.
    Abort { exit_code: Option<i32> },
}

/// The commit command's step after the user's choice: from the hook
/// (`hook_args`, git's arguments, not empty) the message goes to the file
/// named first; by hand it is committed and pushed.
pub fn commit_step(hook_args: &Vec<String>, choice: ReviewChoice) -> (r: CommitAction)
    ensures
        match choice {
            ReviewChoice::Confirm(m) | ReviewChoice::Edit(m) => if hook_args@.len() > 0 {
                r matches CommitAction::WriteMessage { path, message } && path@ == hook_args@[0]@ && message@ == m@
            } else {
                r matches CommitAction::CommitAndPush(x) && x@ == m@
            },
            ReviewChoice::Regenerate => r is Regenerate,
            ReviewChoice::Reject => r matches CommitAction::Abort { exit_code } && exit_code == if hook_args@.len()
                > 0 {
                Some(1i32)
            } else {
                None
            },
        },
{
    match choice {
        ReviewChoice::Confirm(m) | ReviewChoice::Edit(m) => {
            if hook_args.len() > 0 {
                CommitAction::WriteMessage { path: string_of(&chars_of(hook_args[0].as_str())), message: m }
            } else {
                CommitAction::CommitAndPush(m)
            }
        },
        ReviewChoice::Regenerate => CommitAction::Regenerate,
        ReviewChoice::Reject => CommitAction::Abort {
            exit_code: if hook_args.len() > 0 {
                Some(1)
            } else {
                None
            },
        },
    }
}

/// Whether what the user typed in the chat ends it.
pub fn is_exit_command(input: &str) -> (r: bool)
    ensures
        r == (lower(input@) == "exit"@ || lower(input@) == "quit"@),
{
    let l = lower_vec(&chars_of(input));
    eq_str(&l, "exit") || eq_str(&l, "quit")
}

/// How many branches a staleness check looks at.
pub const MAX_STALE_BRANCHES: usize = 20;

/// A main line of development, also as a remote branch (`origin/main`).
pub open spec fn is_main_ref(b: Seq<char>) -> bool {
    ||| b == "main"@ || ends_with(b, "/main"@)
    ||| b == "master"@ || ends_with(b, "/master"@)
    ||| b == "develop"@ || ends_with(b, "/develop"@)
}

/// A branch worth a staleness check: not the current one, not a main line,
/// and not a `HEAD` reference (compared ignoring case).
pub open spec fn is_stale_candidate(b: Seq<char>, current: Seq<char>) -> bool {
    b != current && !is_main_ref(lower(b)) && !contains(lower(b), "head"@)
}

/// The first `max` candidates among the branches, in order.
pub open spec fn stale_candidates_of(bs: Seq<Seq<char>>, current: Seq<char>, max: nat) -> Seq<Seq<char>>
    decreases bs.len(),
{
    if bs.len() == 0 {
        seq![]
    } else {
        let prev = stale_candidates_of(bs.drop_last(), current, max);
        if is_stale_candidate(bs.last(), current) && prev.len() < max {
            prev.push(bs.last())
        } else {
            prev
        }
    }
}

fn is_stale_candidate_exec(b: &Vec<char>, current: &Vec<char>) -> (r: bool)
    ensures
        r == is_stale_candidate(b@, current@),
{
    if eq_vec(b, current) {
        return false;
    }
    let l = lower_vec(b);
    let main_ref = eq_str(&l, "main") || ends_with_exec(&l, &chars_of("/main")) || eq_str(&l, "master")
        || ends_with_exec(&l, &chars_of("/master")) || eq_str(&l, "develop") || ends_with_exec(
        &l,
        &chars_of("/develop"),
    );
    !main_ref && !contains_exec(&l, &chars_of("head"))
}

/// The branches a staleness check looks at, as [`stale_candidates_of`]
/// picks them with [`MAX_STALE_BRANCHES`].
pub fn stale_candidates(branches: &Vec<String>, current: &str) -> (r: Vec<String>)
    ensures
        string_views(r@) == stale_candidates_of(string_views(branches@), current@, MAX_STALE_BRANCHES as nat),
{
    let ghost bv = string_views(branches@);
    let cur = chars_of(current);
    let mut out: Vec<String> = Vec::new();
    let mut i: usize = 0;
    while i < branches.len()
        invariant
            i <= branches.len(),
            bv == string_views(branches@),
            cur@ == current@,
            string_views(out@) == stale_candidates_of(bv.take(i as int), current@, MAX_STALE_BRANCHES as nat),
        decreases branches.len() - i,
    {
        assert(bv.take(i + 1).drop_last() =~= bv.take(i as int));
        assert(bv.take(i + 1).last() == branches@[i as int]@);
        let b = chars_of(branches[i].as_str());
        if is_stale_candidate_exec(&b, &cur) && out.len() < MAX_STALE_BRANCHES {
            let ghost before = string_views(out@);
            out.push(string_of(&b));
            assert(string_views(out@) =~= before.push(b@));
        }
        i = i + 1;
    }
    assert(bv.take(branches.len() as int) =~= bv);
    out
}

/// A staleness check looks at no more than [`MAX_STALE_BRANCHES`]
/// branches, each a candidate from the list given.
pub proof fn lemma_stale_candidates(bs: Seq<Seq<char>>, current: Seq<char>, max: nat)
    ensures
        stale_candidates_of(bs, current, max).len() <= max,
        forall|k: int| 0 <= k < stale_candidates_of(bs, current, max).len() ==> is_stale_candidate(
            #[trigger] stale_candidates_of(bs, current, max)[k],
            current,
        ) && bs.contains(stale_candidates_of(bs, current, max)[k]),
    decreases bs.len(),
{
    if bs.len() > 0 {
        lemma_stale_candidates(bs.drop_last(), current, max);
        let prev = stale_candidates_of(bs.drop_last(), current, max);
        let cur = stale_candidates_of(bs, current, max);
        assert forall|k: int| 0 <= k < cur.len() implies is_stale_candidate(#[trigger] cur[k], current) && bs.contains(
            cur[k],
        ) by {
            if k < prev.len() {
                assert(cur[k] == prev[k]);
                let j = choose|j: int| 0 <= j < bs.drop_last().len() && bs.drop_last()[j] == prev[k];
                assert(bs[j] == prev[k]);
            } else {
                assert(bs[bs.len() - 1] == cur[k]);
            }
        }
    }
}

/// What the staleness analysis is told of a branch: its name and its
/// latest commits.
pub fn stale_branch_entry(branch: &str, summary: &str) -> (r: String)
    ensures
        r@ == "Branch: "@ + branch@ + "\nRecent Commits:\n"@ + summary@ + "\n"@,
{
    let mut t: Vec<char> = Vec::new();
    push_str(&mut t, "Branch: ");
    push_str(&mut t, branch);
    push_str(&mut t, "\nRecent Commits:\n");
    push_str(&mut t, summary);
    push_str(&mut t, "\n");
    string_of(&t)
}

/// `git config --global alias.<name> <command>`, the command without its
/// leading `git ` and trimmed.
pub fn alias_args(name: &str, command: &str) -> (r: Vec<String>)
    ensures
        string_views(r@) == seq!["config"@, "--global"@, "alias."@ + name@, trim(strip_prefixes(command@, "git "@))],
{
    let mut a: Vec<char> = Vec::new();
    push_str(&mut a, "alias.");
    push_str(&mut a, name);
    let c = trim_exec(&strip_prefixes_exec(&chars_of(command), &chars_of("git ")));
    let mut r: Vec<String> = Vec::new();
    r.push(String::from_str("config"));
    r.push(String::from_str("--global"));
    r.push(string_of(&a));
    r.push(string_of(&c));
    assert(string_views(r@) =~= seq!["config"@, "--global"@, "alias."@ + name@, trim(strip_prefixes(command@, "git "@))]);
    r
}

/// `git checkout -b <branch>`.
pub fn checkout_new_branch_args(branch: &str) -> (r: Vec<String>)
    ensures
        string_views(r@) == seq!["checkout"@, "-b"@, branch@],
{
    let mut r: Vec<String> = Vec::new();
    r.push(String::from_str("checkout"));
    r.push(String::from_str("-b"));
    r.push(String::from_str(branch));
    assert(string_views(r@) =~= seq!["checkout"@, "-b"@, branch@]);
    r
}

/// How the starting point of release notes is named: the reference, or the
/// beginning of history.
pub fn release_base_label(base: Option<&str>) -> (r: String)
    ensures
        r@ == match base {
            Some(b) => b@,
            None => "the beginning"@,
        },
{
    match base {
        Some(b) => String::from_str(b),
        None => String::from_str("the beginning"),
    }
}

/// The files whose contents help answer questions about a repository.
pub open spec fn explain_files() -> Seq<Seq<char>> {
    seq!["README.md"@, "Cargo.toml"@, "package.json"@, "go.mod"@]
}

pub fn explain_file_names() -> (r: Vec<&'static str>)
    ensures
        r@.map_values(|x: &str| x@) == explain_files(),
{
    let r: Vec<&'static str> = vec!["README.md", "Cargo.toml", "package.json", "go.mod"];
    assert(r@.map_values(|x: &str| x@) =~= explain_files());
    r
}

/// One file of the context of a question about the repository.
pub open spec fn context_entry(name: Seq<char>, content: Seq<char>) -> Seq<char> {
    "File: "@ + name + "\n---\n"@ + content + "\n---"@
}

/// The context of a question: the files that could be read, with their
/// contents, one after the other.
pub fn explain_context(files: &Vec<(String, String)>) -> (r: String)
    ensures
        r@ == join(files@.map_values(|f: (String, String)| context_entry(f.0@, f.1@)), "\n\n"@),
{
    let mut pieces: Vec<Vec<char>> = Vec::new();
    let mut i: usize = 0;
    while i < files.len()
        invariant
            i <= files.len(),
            views(pieces@) == files@.take(i as int).map_values(|f: (String, String)| context_entry(f.0@, f.1@)),
        decreases files.len() - i,
    {
        let mut t: Vec<char> = Vec::new();
        push_str(&mut t, "File: ");
        push_str(&mut t, files[i].0.as_str());
        push_str(&mut t, "\n---\n");
        push_str(&mut t, files[i].1.as_str());
        push_str(&mut t, "\n---");
        proof {
            lemma_views_push(pieces@, t);
        }
        pieces.push(t);
        assert(files@.take(i + 1).map_values(|f: (String, String)| context_entry(f.0@, f.1@)) =~= files@.take(
            i as int,
        ).map_values(|f: (String, String)| context_entry(f.0@, f.1@)).push(context_entry(files@[i as int].0@, files@[i as int].1@)));
        i = i + 1;
    }
    assert(files@.take(files.len() as int) =~= files@);
    let sep = chars_of("\n\n");
    string_of(&join_exec(&pieces, &sep))
}

/// How a model's context window is shown: in units of 1024 tokens, or `?`.
pub fn context_label(context_length: Option<u32>) -> (r: String)
    ensures
        r@ == match context_length {
            Some(c) => decimal((c / 1024) as nat) + "k"@,
            None => "?"@,
        },
{
    match context_length {
        Some(c) => {
            let mut t = decimal_exec((c / 1024) as u64);
            push_str(&mut t, "k");
            string_of(&t)
        },
        None => String::from_str("?"),
    }
}

/// What an entry of the model menu stands for.
#[derive(Debug, Clone, Copy, PartialEq, Eq, Structural)]
pub enum ModelMenuChoice {
    /// The first entry: switch the provider.
    SwitchProvider,
    /// The separator line.
    Separator,
    /// A model of the list, by its index there.
    Model(usize),
}

pub fn model_menu_choice(index: usize) -> (r: ModelMenuChoice)
    ensures
        r == if index == 0 {
            ModelMenuChoice::SwitchProvider
        } else if index == 1 {
            ModelMenuChoice::Separator
        } else {
            ModelMenuChoice::Model((index - 2) as usize)
        },
{
    if index == 0 {
        ModelMenuChoice::SwitchProvider
    } else if index == 1 {
        ModelMenuChoice::Separator
    } else {
        ModelMenuChoice::Model(index - 2)
    }
}

/// The provider a switch preselects: Native Gemini unless OpenRouter is in
/// use.
pub fn provider_menu_default(provider: &str) -> (r: usize)
    ensures
        r == if provider@ == "openrouter"@ {
            0usize
        } else {
            1usize
        },
{
    if eq_str(&chars_of(provider), "openrouter") {
        0
    } else {
        1
    }
}

/// The provider and default model that a provider switch saves.
pub fn provider_switch(choice: usize) -> (r: (String, String))
    ensures
        (r.0@, r.1@) == if choice == 0 {
            ("openrouter"@, "openai/gpt-4o-mini"@)
        } else {
            ("gemini"@, "gemini-2.0-flash-exp"@)
        },
{
    if choice == 0 {
        (String::from_str("openrouter"), String::from_str("openai/gpt-4o-mini"))
    } else {
        (String::from_str("gemini"), String::from_str("gemini-2.0-flash-exp"))
    }
}

/// Whether text, once its leading whitespace is gone, opens a code fence.
pub open spec fn opens_fence(x: Seq<char>) -> bool {
    starts_with(trim_start(x), "```"@)
}

proof fn lemma_trim_start_concat(x: Seq<char>, y: Seq<char>)
    ensures
        trim_start(x + y) == if trim_start(x).len() > 0 {
            trim_start(x) + y
        } else {
            trim_start(y)
        },
    decreases x.len(),
{
    if x.len() == 0 {
        assert(x + y =~= y);
    } else if is_ws(x[0]) {
        assert((x + y).drop_first() =~= x.drop_first() + y);
        lemma_trim_start_concat(x.drop_first(), y);
    } else {
        assert((x + y)[0] == x[0]);
    }
}

/// Text that opens a fence once trimmed at the start still does once
/// trimmed at both ends, and the other way round.
proof fn lemma_trim_keeps_fence(x: Seq<char>)
    ensures
        starts_with(trim(x), "```"@) <==> opens_fence(x),
{
    reveal_strlit("```");
    let y = trim_start(x);
    lemma_trim_end(y);
    let tw = trailing_ws(y);
    if opens_fence(x) {
        assert(y.take(3)[2] == y[2]);
        assert(y[2] == '`');
        assert(tw <= y.len() - 3) by {
            if tw > y.len() - 3 {
                assert(is_ws(y[2]));
            }
        }
        assert(trim(x).take(3) =~= y.take(3));
    }
    if starts_with(trim(x), "```"@) {
        assert(trim(x) == y.take(y.len() - tw));
        assert(y.take(3) =~= trim(x).take(3));
    }
}

/// Joined lines, none of which opens a fence, do not open one.
proof fn lemma_join_without_fence(ls: Seq<Seq<char>>)
    requires
        forall|i: int| 0 <= i < ls.len() ==> !opens_fence(#[trigger] ls[i]),
    ensures
        !opens_fence(join(ls, "\n"@)),
    decreases ls.len(),
{
    reveal_strlit("```");
    reveal_strlit("\n");
    if ls.len() == 0 {
        assert(trim_start(seq![]) =~= seq![]);
    } else if ls.len() == 1 {
        assert(!opens_fence(ls[0]));
    } else {
        let a = join(ls.drop_last(), "\n"@);
        assert forall|i: int| 0 <= i < ls.drop_last().len() implies !opens_fence(#[trigger] ls.drop_last()[i]) by {
            assert(ls.drop_last()[i] == ls[i]);
        }
        lemma_join_without_fence(ls.drop_last());
        let b = ls.last();
        assert(!opens_fence(b)) by {
            assert(ls[ls.len() - 1] == b);
        }
        let j = join(ls, "\n"@);
        assert(j == a + ("\n"@ + b)) by {
            assert(a + "\n"@ + b =~= a + ("\n"@ + b));
        }
        lemma_trim_start_concat(a, "\n"@ + b);
        if trim_start(a).len() > 0 {
            let ta = trim_start(a);
            let tj = trim_start(j);
            assert(tj == ta + ("\n"@ + b));
            if starts_with(tj, "```"@) {
                if ta.len() >= 3 {
                    assert(ta.take(3) =~= tj.take(3));
                    assert(opens_fence(a));
                } else {
                    assert(tj[ta.len() as int] == '\n');
                    assert(tj.take(3)[ta.len() as int] == tj[ta.len() as int]);
                    assert("```"@[ta.len() as int] == '`');
                }
            }
            assert(!opens_fence(j));
        } else {
            lemma_trim_start_concat("\n"@, b);
            assert(trim_start("\n"@).len() == 0) by {
                assert("\n"@.drop_first() =~= seq![]);
                reveal_with_fuel(trim_start, 2);
            }
            assert(trim_start(j) == trim_start(b));
            assert(!opens_fence(j));
        }
    }
}

proof fn lemma_kept_lines_without_fence(ls: Seq<Seq<char>>)
    ensures
        forall|i: int| 0 <= i < kept_lines(ls).len() ==> !opens_fence(#[trigger] kept_lines(ls)[i]),
    decreases ls.len(),
{
    if ls.len() > 0 {
        lemma_kept_lines_without_fence(ls.drop_last());
        let prev = kept_lines(ls.drop_last());
        let cur = kept_lines(ls);
        assert forall|i: int| 0 <= i < cur.len() implies !opens_fence(#[trigger] cur[i]) by {
            if i < prev.len() {
                assert(cur[i] == prev[i]);
            } else {
                lemma_trim_keeps_fence(ls.last());
            }
        }
    }
}

/// A commit message, pull-request description, or file taken from a
/// fenced reply never starts with a code fence: the fences are gone.
pub proof fn lemma_cleaned_reply_unfenced(t: Seq<char>)
    ensures
        is_fenced(t) ==> !starts_with(cleaned(t), "```"@),
        is_fenced(t) ==> !starts_with(cleaned_file(t), "```"@),
{
    let ls = lines(t);
    let rest = if ls.len() > 0 {
        ls.skip(1)
    } else {
        ls
    };
    lemma_kept_lines_without_fence(rest);
    lemma_join_without_fence(kept_lines(rest));
    lemma_trim_keeps_fence(join(kept_lines(rest), "\n"@));
}

/// A reply that does not open with a code fence is only trimmed: every line
/// of it, subject and body alike, is kept.
pub proof fn lemma_unfenced_reply_kept(t: Seq<char>)
    requires
        !starts_with(trim(t), "```"@),
    ensures
        cleaned(t) == trim(t),
{
}

} // verus!
