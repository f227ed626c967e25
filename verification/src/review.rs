//! The code review command: what it asks the model about staged changes.
use vstd::prelude::*;
use crate::text::{chars_of, string_of, push_str, trim, trim_exec};

verus! {

/// The code review command.
pub struct Reviewer;

/// The system instruction of a code review.
pub const REVIEW_SYSTEM_PROMPT: &'static str = "You are a Senior Software Engineer doing a Code Review. Analyze the provided git diff. Focus on: 1. Logic Bugs 2. Security Vulnerabilities 3. Performance Issues 4. Idiomatic Code/Best Practices Output a concise list of issues in Markdown format. Use emojis to indicate severity: 🔴 (Critical), 🟡 (Warning), 🟢 (Nitpick). If the code looks good, say '✅ No issues found.'";

impl Reviewer {
    /// Whether there are staged changes to review.
    pub fn has_changes(diff: &str) -> (r: bool)
        ensures
            r == (trim(diff@).len() > 0),
    {
        trim_exec(&chars_of(diff)).len() > 0
    }

    /// The prompt that asks for a review of a diff.
    pub fn review_prompt(diff: &str) -> (r: String)
        ensures
            r@ == "Code to review:\n\n"@ + diff@,
    {
        let mut t: Vec<char> = Vec::new();
        push_str(&mut t, "Code to review:\n\n");
        push_str(&mut t, diff);
        string_of(&t)
    }
}

} // verus!
