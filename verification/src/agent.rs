//! The chat agent's conversation: what it remembers, what it does with each
//! reply of the model, and how it treats tool calls. The application sends
//! the requests, asks the user, and runs the tools.
use vstd::prelude::*;
use crate::ai::{AiError, Message, Role, ai_error_text, opt_view};
use crate::text::{chars_of, string_of, push_str, push_all, contains, contains_exec, trim, trim_exec, eq_str, utf8_len, utf8_len_exec, on_boundary, char_at_byte, cut_at_byte_exec, replace_all, replace_exec, decimal, decimal_exec};

verus! {

/// A conversation with the model, and whether tools are offered in it.
pub struct Agent {
    history: Vec<Message>,
    tools_enabled: bool,
}

/// What follows a reply of the model.
#[derive(Debug)]
pub enum AgentStep {
    /// The model cannot use tools; ask whether to go on without them.
    AskDisableTools(String),
    /// The service's rate limit was reached; the turn ends.
    RateLimited,
    /// The request failed with this message; the turn ends.
    Failed(String),
    /// The model answered; the turn ends with its last message.
    Answer,
    /// The model asked for the tool calls of its last message; their
    /// results go back to it.
    CallTools,
}

pub open spec fn is_message(m: Message, role: Role, content: Option<Seq<char>>, call_id: Option<Seq<char>>) -> bool {
    &&& m.role == role
    &&& opt_view(m.content) == content
    &&& m.tool_calls is None
    &&& opt_view(m.tool_call_id) == call_id
}

/// Whether a message asks for at least one tool call.
pub open spec fn asks_for_tools(m: Message) -> bool {
    m.tool_calls matches Some(v) && v@.len() > 0
}

impl Agent {
    /// The messages of the conversation so far.
    pub closed spec fn conversation(&self) -> Seq<Message> {
        self.history@
    }

    /// Whether the model is offered tools.
    pub closed spec fn uses_tools(&self) -> bool {
        self.tools_enabled
    }

    /// A conversation that starts with the system prompt, with tools on.
    pub fn new(system_prompt: &str) -> (r: Agent)
        ensures
            r.conversation().len() == 1,
            is_message(r.conversation()[0], Role::System, Some(system_prompt@), None),
            r.uses_tools(),
    {
        let mut history: Vec<Message> = Vec::new();
        history.push(
            Message {
                role: Role::System,
                content: Some(String::from_str(system_prompt)),
                tool_calls: None,
                tool_call_id: None,
            },
        );
        Agent { history, tools_enabled: true }
    }

    /// The messages sent with the next request.
    pub fn history(&self) -> (r: &Vec<Message>)
        ensures
            r@ == self.conversation(),
    {
        &self.history
    }

    /// Whether the next request offers tools.
    pub fn tools_enabled(&self) -> (r: bool)
        ensures
            r == self.uses_tools(),
    {
        self.tools_enabled
    }

    /// The last message of the conversation.
    pub fn last_message(&self) -> (r: Option<&Message>)
        ensures
            match r {
                Some(m) => self.conversation().len() > 0 && *m == self.conversation().last(),
                None => self.conversation().len() == 0,
            },
    {
        if self.history.len() == 0 {
            None
        } else {
            Some(&self.history[self.history.len() - 1])
        }
    }

    /// Adds what the user typed.
    pub fn add_user_input(&mut self, input: &str)
        ensures
            final(self).uses_tools() == old(self).uses_tools(),
            final(self).conversation().len() == old(self).conversation().len() + 1,
            final(self).conversation().drop_last() == old(self).conversation(),
            is_message(final(self).conversation().last(), Role::User, Some(input@), None),
    {
        self.history.push(
            Message { role: Role::User, content: Some(String::from_str(input)), tool_calls: None, tool_call_id: None },
        );
        assert(self.history@.drop_last() =~= old(self).history@);
    }

    /// Goes on without tools.
    pub fn disable_tools(&mut self)
        ensures
            !final(self).uses_tools(),
            final(self).conversation() == old(self).conversation(),
    {
        self.tools_enabled = false;
    }

    /// Adds the result of a tool call, answering the call with this id.
    pub fn record_tool_result(&mut self, call_id: &str, result: String)
        ensures
            final(self).uses_tools() == old(self).uses_tools(),
            final(self).conversation().len() == old(self).conversation().len() + 1,
            final(self).conversation().drop_last() == old(self).conversation(),
            is_message(final(self).conversation().last(), Role::Tool, Some(result@), Some(call_id@)),
    {
        self.history.push(
            Message { role: Role::Tool, content: Some(result), tool_calls: None, tool_call_id: Some(String::from_str(call_id)) },
        );
        assert(self.history@.drop_last() =~= old(self).history@);
    }

    /// Takes the model's reply: a message joins the conversation, and the
    /// turn goes on while it asks for tools; a refusal of tools is put to
    /// the user; any other error ends the turn, as a rate limit when its
    /// text says so.
    pub fn on_reply(&mut self, reply: Result<Message, AiError>) -> (step: AgentStep)
        ensures
            final(self).uses_tools() == old(self).uses_tools(),
            match reply {
                Ok(m) => final(self).conversation() == old(self).conversation().push(m) && if asks_for_tools(m) {
                    step is CallTools
                } else {
                    step is Answer
                },
                Err(e) => final(self).conversation() == old(self).conversation() && match e {
                    AiError::ToolIncompatibility(t) => step matches AgentStep::AskDisableTools(x) && x@ == t@,
                    _ => if contains(ai_error_text(e), "Rate limit"@) {
                        step is RateLimited
                    } else {
                        step matches AgentStep::Failed(x) && x@ == "AI Error: "@ + ai_error_text(e)
                    },
                },
            },
    {
        match reply {
            Ok(m) => {
                let calls = match &m.tool_calls {
                    Some(v) => v.len() > 0,
                    None => false,
                };
                self.history.push(m);
                if calls {
                    AgentStep::CallTools
                } else {
                    AgentStep::Answer
                }
            },
            Err(e) => {
                match e {
                    AiError::ToolIncompatibility(t) => AgentStep::AskDisableTools(t),
                    _ => {
                        let text = e.message();
                        let tv = chars_of(text.as_str());
                        if contains_exec(&tv, &chars_of("Rate limit")) {
                            AgentStep::RateLimited
                        } else {
                            let mut x: Vec<char> = Vec::new();
                            push_str(&mut x, "AI Error: ");
                            push_all(&mut x, &tv);
                            AgentStep::Failed(string_of(&x))
                        }
                    },
                }
            },
        }
    }
}

/// Tools that change files, run commands, or commit, which run only with
/// the user's leave.
pub open spec fn needs_approval_spec(name: Seq<char>) -> bool {
    name == "write_file"@ || name == "run_command"@ || name == "git_commit"@
}

pub fn needs_approval(name: &str) -> (r: bool)
    ensures
        r == needs_approval_spec(name@),
{
    let n = chars_of(name);
    eq_str(&n, "write_file") || eq_str(&n, "run_command") || eq_str(&n, "git_commit")
}

/// Whether a tool call came without arguments, though its tool takes some
/// (all but `git_status`).
pub fn has_missing_arguments(name: &str, args: &str) -> (r: bool)
    ensures
        r == (trim(args@).len() == 0 && name@ != "git_status"@),
{
    trim_exec(&chars_of(args)).len() == 0 && !eq_str(&chars_of(name), "git_status")
}

/// The result a tool call gets when the user does not allow it.
pub fn denied_result() -> (r: String)
    ensures
        r@ == "Error: User denied permission to run this tool."@,
{
    String::from_str("Error: User denied permission to run this tool.")
}

/// A tool result as the user sees it: on one line, and cut to its first 200
/// bytes with its full length noted when longer.
pub open spec fn result_summary_of(r: Seq<char>) -> Seq<char> {
    if utf8_len(r) > 200 {
        replace_all(r.take(char_at_byte(r, 200)), seq!['\n'], seq![' ']) + "... (total "@ + decimal(
            utf8_len(r),
        ) + " chars)"@
    } else {
        replace_all(r, seq!['\n'], seq![' '])
    }
}

/// The one-line summary of a tool result. Byte 200 must start a character
/// when the result is longer (its byte length is a `usize`, as any
/// string's).
pub fn result_summary(result: &str) -> (r: String)
    requires
        utf8_len(result@) <= usize::MAX,
        utf8_len(result@) > 200 ==> on_boundary(result@, 200),
    ensures
        r@ == result_summary_of(result@),
{
    let cs = chars_of(result);
    let nl: Vec<char> = vec!['\n'];
    let sp: Vec<char> = vec![' '];
    assert(nl@ =~= seq!['\n']);
    assert(sp@ =~= seq![' ']);
    let total = utf8_len_exec(&cs);
    if total > 200 {
        let head = cut_at_byte_exec(&cs, 200, "");
        proof {
            reveal_strlit("");
        }
        assert(head@ =~= cs@.take(char_at_byte(cs@, 200)));
        let mut t = replace_exec(&head, &nl, &sp);
        push_str(&mut t, "... (total ");
        let digits = decimal_exec(total as u64);
        push_all(&mut t, &digits);
        push_str(&mut t, " chars)");
        string_of(&t)
    } else {
        string_of(&replace_exec(&cs, &nl, &sp))
    }
}

} // verus!
