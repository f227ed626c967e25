//! The history search command: the log it reads, what it asks the model,
//! and how the answer is read.
use vstd::prelude::*;
use crate::text::{chars_of, string_of, push_str, trim, trim_exec, eq_str};
use crate::testgen::string_views;

verus! {

/// The history search command.
pub struct HistorySearcher;

/// The system instruction of a history search.
pub const SEARCH_SYSTEM_PROMPT: &'static str = "You are a git search assistant. Given a list of commit hashes and messages, find the most relevant commit to the user's query. Output ONLY the commit hash of the best match. If nothing is relevant, output 'NONE'.";

impl HistorySearcher {
    /// `git log -n 30 --pretty=format:%h|%s`: the recent commits searched.
    pub fn log_args() -> (r: Vec<String>)
        ensures
            string_views(r@) == seq!["log"@, "-n"@, "30"@, "--pretty=format:%h|%s"@],
    {
        let mut r: Vec<String> = Vec::new();
        r.push(String::from_str("log"));
        r.push(String::from_str("-n"));
        r.push(String::from_str("30"));
        r.push(String::from_str("--pretty=format:%h|%s"));
        assert(string_views(r@) =~= seq!["log"@, "-n"@, "30"@, "--pretty=format:%h|%s"@]);
        r
    }

    /// The prompt that asks which commit matches a query.
    pub fn search_prompt(query: &str, history: &str) -> (r: String)
        ensures
            r@ == "QUERY: "@ + query@ + "\n\nHISTORY:\n"@ + history@,
    {
        let mut t: Vec<char> = Vec::new();
        push_str(&mut t, "QUERY: ");
        push_str(&mut t, query);
        push_str(&mut t, "\n\nHISTORY:\n");
        push_str(&mut t, history);
        string_of(&t)
    }

    /// The commit the model picked, or none when it answered `NONE`.
    pub fn best_match(reply: &str) -> (r: Option<String>)
        ensures
            match r {
                Some(h) => trim(reply@) != "NONE"@ && h@ == trim(reply@),
                None => trim(reply@) == "NONE"@,
            },
    {
        let h = trim_exec(&chars_of(reply));
        if eq_str(&h, "NONE") {
            None
        } else {
            Some(string_of(&h))
        }
    }

    /// `git show --stat <hash>`.
    pub fn show_args(hash: &str) -> (r: Vec<String>)
        ensures
            string_views(r@) == seq!["show"@, "--stat"@, hash@],
    {
        let mut r: Vec<String> = Vec::new();
        r.push(String::from_str("show"));
        r.push(String::from_str("--stat"));
        r.push(String::from_str(hash));
        assert(string_views(r@) =~= seq!["show"@, "--stat"@, hash@]);
        r
    }
}

} // verus!
