//! The documentation command: how a README is drafted or updated and how
//! doc comments are added to a file.
use vstd::prelude::*;
use crate::text::{chars_of, string_of, push_str, push_all, lines, lines_exec, views, join, join_exec, eq_str};
use crate::cli::{cleaned, clean_reply};

verus! {

/// The documentation command.
pub struct DocGenerator;

/// The system instruction for a README drafted from the project's sources.
pub const README_NEW_SYSTEM_PROMPT: &'static str = "You are a technical writer. Based on the provided project context, generate a professional, comprehensive README.md. Include Intro, Features, Installation, and Usage. Output ONLY the raw Markdown. GROUND TRUTH CLI COMMANDS: - gogit commit [--force]: Generate AI commit message for staged changes. - gogit pr [--base <branch>]: Generate AI PR description. - gogit review: AI code review of staged changes for bugs/security. - gogit fix <file> <instruction>: AI-assisted refactoring of a file. - gogit search <query>: Semantic search in git history using natural language. - gogit doc: Manage documentation (README updates or doc-comments). - gogit hook <install|uninstall>: Install/Uninstall git hooks.";

/// The system instruction for a README updated with staged changes.
pub const README_UPDATE_SYSTEM_PROMPT: &'static str = "You are a technical writer. An existing README.md and STAGED CHANGES are provided. Update the README to reflect these changes. Integrate new features/changes without removing existing unrelated content. Output the FULL updated README.md. Output ONLY raw Markdown. GROUND TRUTH CLI COMMANDS: - gogit commit [--force]: Generate AI commit message for staged changes. - gogit pr [--base <branch>]: Generate AI PR description. - gogit review: AI code review of staged changes for bugs/security. - gogit fix <file> <instruction>: AI-assisted refactoring of a file. - gogit search <query>: Semantic search in git history using natural language. - gogit doc: Manage documentation (README updates or doc-comments). - gogit hook <install|uninstall>: Install/Uninstall git hooks.";

/// The system instruction for adding doc comments to a file.
pub const DOC_COMMENTS_SYSTEM_PROMPT: &'static str = "You are an expert documentation tool. Add professional triple-slash (///) doc comments to all public functions and structs in the provided Rust code. Include 'Arguments' and 'Returns' sections if applicable. Output ONLY the raw content of the entire file after adding comments. Do not include markdown code blocks. Note: This tool is part of 'gogit doc', an AI-powered git companion.";

/// How many source files go into the project context.
pub const MAX_CONTEXT_FILES: usize = 10;

/// How many lines of each source file go into the project context.
pub const CONTEXT_SNIPPET_LINES: usize = 40;

/// How a README is produced.
#[derive(Debug, Clone, Copy, PartialEq, Eq, Structural)]
pub enum ReadmeMode {
    /// Drafted from the project's sources.
    General,
    /// The existing README updated with the staged changes.
    Update,
}

/// The first `n` lines of a text, joined again.
pub open spec fn first_lines(t: Seq<char>, n: nat) -> Seq<char> {
    let ls = lines(t);
    join(if ls.len() > n { ls.take(n as int) } else { ls }, "\n"@)
}

fn first_lines_exec(t: &Vec<char>, n: usize) -> (r: Vec<char>)
    ensures
        r@ == first_lines(t@, n as nat),
{
    let mut ls = lines_exec(t);
    let ghost all = views(ls@);
    if ls.len() > n {
        ls.truncate(n);
        assert(views(ls@) =~= all.take(n as int));
    }
    let nl: Vec<char> = vec!['\n'];
    proof {
        reveal_strlit("\n");
    }
    assert(nl@ =~= "\n"@);
    join_exec(&ls, &nl)
}

impl DocGenerator {
    /// A README is drafted anew when there is none, or when the user asked
    /// for a general update; otherwise it is updated with staged changes.
    pub fn readme_mode(readme_exists: bool, force_general: bool) -> (r: ReadmeMode)
        ensures
            r == if !readme_exists || force_general {
                ReadmeMode::General
            } else {
                ReadmeMode::Update
            },
    {
        if !readme_exists || force_general {
            ReadmeMode::General
        } else {
            ReadmeMode::Update
        }
    }

    /// What the model gets to update a README: the README and the changes.
    pub fn update_context(existing: &str, diff: &str) -> (r: String)
        ensures
            r@ == "EXISTING README:\n"@ + existing@ + "\n\nSTAGED CHANGES:\n"@ + diff@,
    {
        let mut t: Vec<char> = Vec::new();
        push_str(&mut t, "EXISTING README:\n");
        push_str(&mut t, existing);
        push_str(&mut t, "\n\nSTAGED CHANGES:\n");
        push_str(&mut t, diff);
        string_of(&t)
    }

    /// Whether a directory entry of `src` goes into the project context: a
    /// file with the `rs` extension.
    pub fn is_context_source(is_file: bool, extension: Option<&str>) -> (r: bool)
        ensures
            r == (is_file && (extension matches Some(e) && e@ == "rs"@)),
    {
        is_file && match extension {
            Some(e) => eq_str(&chars_of(e), "rs"),
            None => false,
        }
    }

    /// One source file in the project context: its name and first lines.
    pub fn context_file_entry(name: &str, content: &str) -> (r: String)
        ensures
            r@ == "\nFILE: "@ + name@ + "\nCONTENT SNIPPET (First 40 lines):\n"@ + first_lines(content@, 40) + "\n"@,
    {
        let mut t: Vec<char> = Vec::new();
        push_str(&mut t, "\nFILE: ");
        push_str(&mut t, name);
        push_str(&mut t, "\nCONTENT SNIPPET (First 40 lines):\n");
        let snippet = first_lines_exec(&chars_of(content), CONTEXT_SNIPPET_LINES);
        push_all(&mut t, &snippet);
        push_str(&mut t, "\n");
        string_of(&t)
    }

    /// The README a reply gives: without a code fence, trimmed; a reply
    /// with nothing in it is an error.
    pub fn readme_from_reply(reply: &str) -> (r: Result<String, String>)
        ensures
            match r {
                Ok(c) => c@ == cleaned(reply@) && cleaned(reply@).len() > 0,
                Err(e) => cleaned(reply@).len() == 0 && e@ == "Failed to parse AI response into valid Markdown."@,
            },
    {
        let c = clean_reply(reply);
        if c.as_str().is_empty() {
            Err(String::from_str("Failed to parse AI response into valid Markdown."))
        } else {
            Ok(c)
        }
    }

    /// The first 15 lines of a proposed README, shown before saving.
    pub fn preview(readme: &str) -> (r: String)
        ensures
            r@ == first_lines(readme@, 15),
    {
        string_of(&first_lines_exec(&chars_of(readme), 15))
    }
}

} // verus!
