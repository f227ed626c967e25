//! The refactoring command: the request for a changed file and what is
//! written back.
use vstd::prelude::*;
use crate::text::{chars_of, string_of, push_str, trim, trim_exec, utf8_len, utf8_len_exec};
use crate::cli::{cleaned_file, clean_file_reply};

verus! {

/// The refactoring command.
pub struct Refactorer;

/// The system instruction of a refactoring.
pub const REFACTOR_SYSTEM_PROMPT: &'static str = "You are an expert refactoring tool. Your goal is to apply the requested changes to the provided code. Output ONLY the raw content of the entire file after the changes. Do not include markdown code blocks, explanations, or preamble.";

/// Files larger than this many bytes are only sent after the user agrees.
pub const LARGE_FILE_BYTES: u128 = 100000;

impl Refactorer {
    /// Whether a file is large enough to ask before sending it.
    pub fn is_large(content: &str) -> (r: bool)
        ensures
            r == (utf8_len(content@) > LARGE_FILE_BYTES),
    {
        utf8_len_exec(&chars_of(content)) > LARGE_FILE_BYTES
    }

    /// The prompt that asks for a file with a change applied.
    pub fn refactor_prompt(instruction: &str, content: &str) -> (r: String)
        ensures
            r@ == "REQUESTED CHANGE: "@ + instruction@ + "\n\nFILE CONTENT:\n\n"@ + content@,
    {
        let mut t: Vec<char> = Vec::new();
        push_str(&mut t, "REQUESTED CHANGE: ");
        push_str(&mut t, instruction);
        push_str(&mut t, "\n\nFILE CONTENT:\n\n");
        push_str(&mut t, content);
        string_of(&t)
    }

    /// The file content a reply gives: the reply without a code fence; a
    /// reply with nothing in it aborts the refactoring.
    pub fn refactored_content(reply: &str) -> (r: Result<String, String>)
        ensures
            match r {
                Ok(c) => c@ == cleaned_file(reply@) && trim(cleaned_file(reply@)).len() > 0,
                Err(e) => trim(cleaned_file(reply@)).len() == 0 && e@ == "AI returned empty content. Refactoring aborted."@,
            },
    {
        let c = clean_file_reply(reply);
        if trim_exec(&chars_of(c.as_str())).len() == 0 {
            Err(String::from_str("AI returned empty content. Refactoring aborted."))
        } else {
            Ok(c)
        }
    }
}

} // verus!
