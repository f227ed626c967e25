//! What the AI client asks and how it reads the answers: the model lists,
//! the tools and replies in Gemini's format, endpoints and headers, the
//! retry rule for rate limits, the errors a reply turns into, and the
//! prompts of the git helpers.
use vstd::prelude::*;
use crate::text::{
    chars_of, string_of, push_str, push_all, contains, contains_exec, lines, lines_exec, views,
    starts_with, starts_with_exec, slice, trim, trim_exec, utf8_len, utf8_len_exec, split, split_exec,
    join, join_exec, lemma_views_push,
};
use crate::tools::{PropView, ToolView, prop_view, tool_view};
use crate::testgen::string_views;
use crate::ai::{AiError, AiProvider, ModelInfo, ModelPricing, ParamProperty, ToolParameters, ToolDefinition, ToolCall, ToolFunction, ExtraContent, Message, Role, GeminiPart, GeminiFunctionDeclaration, GeminiTool, opt_view, PartView, part_view};
use crate::json::{
    json_candidate_text, json_candidate_text_field, json_choice_delta, json_choice_delta_field,
    json_completion_content, json_completion_content_field, json_error_message, json_error_message_field,
    json_first_choice_present, json_has_first_choice, json_message_content, json_message_content_field,
    json_normalize, json_normalized, json_syntax_error, json_syntax_error_of,
};

verus! {

pub type PricingView = (Seq<char>, Seq<char>);

pub type ModelView = (Seq<char>, Option<Seq<char>>, Option<Seq<char>>, Option<u32>, Option<PricingView>);

pub open spec fn model_view(m: ModelInfo) -> ModelView {
    (
        m.id@,
        opt_view(m.name),
        opt_view(m.description),
        m.context_length,
        match m.pricing {
            Some(p) => Some((p.prompt@, p.completion@)),
            None => None,
        },
    )
}

pub open spec fn model_views(ms: Seq<ModelInfo>) -> Seq<ModelView> {
    ms.map_values(|m: ModelInfo| model_view(m))
}

pub open spec fn free_pricing() -> Option<PricingView> {
    Some(("0"@, "0"@))
}

/// The models offered for Gemini's native API.
pub open spec fn gemini_model_list() -> Seq<ModelView> {
    seq![
        ("gemini-3-flash-preview"@, Some("Gemini 3 Flash Preview (Native)"@), None, Some(250000u32), free_pricing()),
        ("gemma-3-27b"@, Some("gemma-3-27b"@), None, Some(15000u32), free_pricing()),
        ("gemini-2.5-flash-lite"@, Some("Gemini 2.5 Flash LITE (Native)"@), None, Some(250000u32), free_pricing()),
        ("gemini-2.5-flash-native-audio-dialog"@, Some("gemini-2.5-flash-native-audio-dialog"@), None, Some(15000u32), free_pricing()),
    ]
}

fn free_model(id: &str, name: &str, context: u32) -> (r: ModelInfo)
    ensures
        model_view(r) == (id@, Some(name@), None::<Seq<char>>, Some(context), free_pricing()),
{
    ModelInfo {
        id: String::from_str(id),
        name: Some(String::from_str(name)),
        description: None,
        context_length: Some(context),
        pricing: Some(ModelPricing { prompt: String::from_str("0"), completion: String::from_str("0") }),
    }
}

/// The fixed list of models for Gemini's native API.
pub fn gemini_models() -> (r: Vec<ModelInfo>)
    ensures
        model_views(r@) == gemini_model_list(),
{
    let mut r: Vec<ModelInfo> = Vec::new();
    r.push(free_model("gemini-3-flash-preview", "Gemini 3 Flash Preview (Native)", 250000));
    r.push(free_model("gemma-3-27b", "gemma-3-27b", 15000));
    r.push(free_model("gemini-2.5-flash-lite", "Gemini 2.5 Flash LITE (Native)", 250000));
    r.push(free_model("gemini-2.5-flash-native-audio-dialog", "gemini-2.5-flash-native-audio-dialog", 15000));
    assert(model_views(r@) =~= gemini_model_list());
    r
}

/// The entry for a model an Ollama server has: named by its name, described
/// by when it was modified, and free.
pub fn ollama_model_info(name: String, modified_at: Option<String>) -> (r: ModelInfo)
    ensures
        model_view(r) == (
            name@,
            Some(name@),
            match modified_at {
                Some(d) => Some("Modified: "@ + d@),
                None => None::<Seq<char>>,
            },
            None::<u32>,
            free_pricing(),
        ),
{
    let description = match modified_at {
        Some(d) => {
            let mut t: Vec<char> = Vec::new();
            push_str(&mut t, "Modified: ");
            push_str(&mut t, d.as_str());
            Some(string_of(&t))
        },
        None => None,
    };
    let id = string_of(&chars_of(name.as_str()));
    ModelInfo {
        id,
        name: Some(name),
        description,
        context_length: None,
        pricing: Some(ModelPricing { prompt: String::from_str("0"), completion: String::from_str("0") }),
    }
}

/// Whether a model costs nothing: both its prices are `"0"`.
pub open spec fn is_free(m: ModelInfo) -> bool {
    match m.pricing {
        Some(p) => p.prompt@ == "0"@ && p.completion@ == "0"@,
        None => false,
    }
}

/// The models of `ms` that are free, in order.
pub open spec fn free_only(ms: Seq<ModelInfo>) -> Seq<ModelInfo>
    decreases ms.len(),
{
    if ms.len() == 0 {
        seq![]
    } else if is_free(ms.last()) {
        free_only(ms.drop_last()).push(ms.last())
    } else {
        free_only(ms.drop_last())
    }
}

/// The models a provider lists as free: OpenRouter's free ones; for Gemini
/// and Ollama every model.
pub open spec fn free_models_of(p: AiProvider, ms: Seq<ModelInfo>) -> Seq<ModelInfo> {
    if p == AiProvider::OpenRouter {
        free_only(ms)
    } else {
        ms
    }
}

fn is_free_exec(m: &ModelInfo) -> (r: bool)
    ensures
        r == is_free(*m),
{
    match &m.pricing {
        Some(p) => crate::text::eq_str(&chars_of(p.prompt.as_str()), "0") && crate::text::eq_str(
            &chars_of(p.completion.as_str()),
            "0",
        ),
        None => false,
    }
}

/// Keeps the models that [`free_models_of`] keeps.
pub fn free_models(provider: AiProvider, models: Vec<ModelInfo>) -> (r: Vec<ModelInfo>)
    ensures
        r@ == free_models_of(provider, models@),
{
    if provider != AiProvider::OpenRouter {
        return models;
    }
    let ghost all = models@;
    let mut rest = models;
    let total: usize = rest.len();
    let mut out: Vec<ModelInfo> = Vec::new();
    let mut i: usize = 0;
    while rest.len() > 0
        invariant
            i + rest@.len() == all.len(),
            all.len() == total,
            rest@ == all.skip(i as int),
            out@ == free_only(all.take(i as int)),
        decreases rest.len(),
    {
        let m = rest.remove(0);
        assert(all.take(i + 1).drop_last() =~= all.take(i as int));
        assert(all.take(i + 1).last() == m);
        assert(rest@ =~= all.skip(i + 1));
        if is_free_exec(&m) {
            out.push(m);
        }
        i = i + 1;
    }
    assert(all.take(all.len() as int) =~= all);
    out
}

/// A Gemini function declaration as plain values: name, description, the
/// parameters' properties, and the required names.
pub type DeclView = (Seq<char>, Seq<char>, Seq<PropView>, Option<Seq<Seq<char>>>);

pub open spec fn decl_view(d: GeminiFunctionDeclaration) -> DeclView {
    (
        d.name@,
        d.description@,
        d.parameters.properties@.map_values(|p: ParamProperty| prop_view(p)),
        match d.parameters.required {
            Some(v) => Some(string_views(v@)),
            None => None,
        },
    )
}

/// A property as Gemini accepts it: without a schema for additional
/// properties.
pub open spec fn sanitized(p: PropView) -> PropView {
    (p.0, p.1, p.2, p.3, p.4, None)
}

/// The declaration Gemini gets for a tool: its name, description, and
/// sanitized parameters.
pub open spec fn declaration_of(t: ToolView) -> DeclView {
    (t.1, t.2, t.3.map_values(|p: PropView| sanitized(p)), t.4)
}

fn sanitize_property(p: ParamProperty) -> (r: ParamProperty)
    ensures
        prop_view(r) == sanitized(prop_view(p)),
{
    ParamProperty {
        name: p.name,
        kind: p.kind,
        description: p.description,
        enum_values: p.enum_values,
        items_kind: p.items_kind,
        additional_kind: None,
    }
}

fn sanitize_parameters(params: ToolParameters) -> (r: ToolParameters)
    ensures
        r.properties@.map_values(|p: ParamProperty| prop_view(p))
            == params.properties@.map_values(|p: ParamProperty| prop_view(p)).map_values(
            |p: PropView| sanitized(p),
        ),
        r.required == params.required,
{
    let ghost all = params.properties@;
    let mut rest = params.properties;
    let total: usize = rest.len();
    let mut out: Vec<ParamProperty> = Vec::new();
    let mut i: usize = 0;
    while rest.len() > 0
        invariant
            i + rest@.len() == all.len(),
            all.len() == total,
            rest@ == all.skip(i as int),
            out@.map_values(|p: ParamProperty| prop_view(p)) == all.take(i as int).map_values(
                |p: ParamProperty| prop_view(p),
            ).map_values(|p: PropView| sanitized(p)),
        decreases rest.len(),
    {
        let ghost before = out@.map_values(|p: ParamProperty| prop_view(p));
        let p = rest.remove(0);
        assert(rest@ =~= all.skip(i + 1));
        let q = sanitize_property(p);
        out.push(q);
        assert(out@.map_values(|p: ParamProperty| prop_view(p)) =~= before.push(prop_view(q)));
        assert(all.take(i + 1).map_values(|p: ParamProperty| prop_view(p)).map_values(
            |p: PropView| sanitized(p),
        ) =~= all.take(i as int).map_values(|p: ParamProperty| prop_view(p)).map_values(
            |p: PropView| sanitized(p),
        ).push(sanitized(prop_view(p))));
        i = i + 1;
    }
    assert(all.take(all.len() as int) =~= all);
    ToolParameters { properties: out, required: params.required }
}

/// The tool list of a Gemini request: one declaration per tool, in order,
/// with the properties' additional-property schemas removed.
pub fn map_tools_to_gemini(tools: Vec<ToolDefinition>) -> (r: GeminiTool)
    ensures
        r.function_declarations@.map_values(|d: GeminiFunctionDeclaration| decl_view(d))
            == tools@.map_values(|t: ToolDefinition| tool_view(t)).map_values(
            |t: ToolView| declaration_of(t),
        ),
{
    let ghost all = tools@;
    let mut rest = tools;
    let total: usize = rest.len();
    let mut out: Vec<GeminiFunctionDeclaration> = Vec::new();
    let mut i: usize = 0;
    while rest.len() > 0
        invariant
            i + rest@.len() == all.len(),
            all.len() == total,
            rest@ == all.skip(i as int),
            out@.map_values(|d: GeminiFunctionDeclaration| decl_view(d)) == all.take(
                i as int,
            ).map_values(|t: ToolDefinition| tool_view(t)).map_values(|t: ToolView| declaration_of(t)),
        decreases rest.len(),
    {
        let ghost before = out@.map_values(|d: GeminiFunctionDeclaration| decl_view(d));
        let t = rest.remove(0);
        assert(rest@ =~= all.skip(i + 1));
        let ghost tv = tool_view(t);
        let parameters = sanitize_parameters(t.function.parameters);
        let d = GeminiFunctionDeclaration {
            name: t.function.name,
            description: t.function.description,
            parameters,
        };
        assert(decl_view(d) =~~= declaration_of(tv));
        out.push(d);
        assert(out@.map_values(|d: GeminiFunctionDeclaration| decl_view(d)) =~= before.push(decl_view(d)));
        assert(all.take(i + 1).map_values(|t: ToolDefinition| tool_view(t)).map_values(
            |t: ToolView| declaration_of(t),
        ) =~= all.take(i as int).map_values(|t: ToolDefinition| tool_view(t)).map_values(
            |t: ToolView| declaration_of(t),
        ).push(declaration_of(tv)));
        i = i + 1;
    }
    assert(all.take(all.len() as int) =~= all);
    GeminiTool { function_declarations: out }
}

/// Provider data of a tool call as plain values: whether it is a thought
/// signature (or else other JSON), and its text.
pub type ExtraView = (bool, Seq<char>);

pub open spec fn extra_view(e: Option<ExtraContent>) -> Option<ExtraView> {
    match e {
        Some(ExtraContent::ThoughtSignature(s)) => Some((true, s@)),
        Some(ExtraContent::Json(t)) => Some((false, t@)),
        None => None,
    }
}

/// A tool call as plain values: id, type, function name, arguments, and
/// the provider data it carries, if any.
pub type CallRecord = (Seq<char>, Seq<char>, Seq<char>, Seq<char>, Option<ExtraView>);

pub open spec fn call_record(c: ToolCall) -> CallRecord {
    (c.id@, c.tool_type@, c.function.name@, c.function.arguments@, extra_view(c.extra_content))
}

/// The provider data of a Gemini function call: its thought signature.
pub open spec fn signature_extra(sig: Option<Seq<char>>) -> Option<ExtraView> {
    match sig {
        Some(s) => Some((true, s)),
        None => None,
    }
}

/// The text of a Gemini reply: that of the last part with text.
pub open spec fn last_text(parts: Seq<PartView>) -> Option<Seq<char>>
    decreases parts.len(),
{
    if parts.len() == 0 {
        None
    } else if parts.last().0 is Some {
        parts.last().0
    } else {
        last_text(parts.drop_last())
    }
}

/// The tool calls of a Gemini reply: one per function call, in order, named
/// and identified by the function's name, carrying its thought signature.
pub open spec fn reply_calls(parts: Seq<PartView>) -> Seq<CallRecord>
    decreases parts.len(),
{
    if parts.len() == 0 {
        seq![]
    } else {
        match parts.last().1 {
            Some(c) => reply_calls(parts.drop_last()).push((c.0, "function"@, c.0, c.1, signature_extra(c.2))),
            None => reply_calls(parts.drop_last()),
        }
    }
}

fn copy_text(s: &String) -> (r: String)
    ensures
        r@ == s@,
{
    string_of(&chars_of(s.as_str()))
}

/// The assistant message of a Gemini reply: the last text as its content,
/// and its function calls as tool calls (none when there are none).
pub fn message_from_gemini_parts(parts: &Vec<GeminiPart>) -> (r: Message)
    ensures
        r.role == Role::Assistant,
        r.tool_call_id is None,
        opt_view(r.content) == last_text(parts@.map_values(|p: GeminiPart| part_view(p))),
        match r.tool_calls {
            Some(v) => v@.len() > 0 && v@.map_values(|c: ToolCall| call_record(c)) == reply_calls(
                parts@.map_values(|p: GeminiPart| part_view(p)),
            ),
            None => reply_calls(parts@.map_values(|p: GeminiPart| part_view(p))).len() == 0,
        },
{
    let ghost pv = parts@.map_values(|p: GeminiPart| part_view(p));
    let mut content: Option<String> = None;
    let mut calls: Vec<ToolCall> = Vec::new();
    let mut i: usize = 0;
    while i < parts.len()
        invariant
            i <= parts.len(),
            pv == parts@.map_values(|p: GeminiPart| part_view(p)),
            opt_view(content) == last_text(pv.take(i as int)),
            calls@.map_values(|c: ToolCall| call_record(c)) == reply_calls(pv.take(i as int)),
        decreases parts.len() - i,
    {
        let part = &parts[i];
        assert(pv.take(i + 1).drop_last() =~= pv.take(i as int));
        assert(pv.take(i + 1).last() == part_view(*part));
        match &part.text {
            Some(t) => {
                content = Some(copy_text(t));
            },
            None => {},
        }
        let ghost before = calls@.map_values(|c: ToolCall| call_record(c));
        match &part.function_call {
            Some(fc) => {
                let extra = match &fc.thought_signature {
                    Some(sig) => Some(ExtraContent::ThoughtSignature(copy_text(sig))),
                    None => None,
                };
                let call = ToolCall {
                    id: copy_text(&fc.name),
                    tool_type: String::from_str("function"),
                    function: ToolFunction { name: copy_text(&fc.name), arguments: copy_text(&fc.args) },
                    extra_content: extra,
                };
                calls.push(call);
                assert(calls@.map_values(|c: ToolCall| call_record(c)) =~= before.push(call_record(call)));
            },
            None => {},
        }
        i = i + 1;
    }
    assert(pv.take(parts.len() as int) =~= pv);
    let tool_calls = if calls.len() == 0 {
        None
    } else {
        Some(calls)
    };
    Message { role: Role::Assistant, content, tool_calls, tool_call_id: None }
}

/// The requests the client makes.
#[derive(Debug, Clone, Copy, PartialEq, Eq, Structural)]
pub enum Call {
    /// A streamed completion of one prompt.
    Stream,
    /// A completion of one prompt.
    Completion,
    /// A chat, possibly with tools.
    Chat,
    /// The list of models.
    Models,
}

/// The URL a request goes to: Gemini's `generateContent` (streamed as
/// server-sent events) with the key in the query, Ollama's `/api/chat`, or
/// OpenRouter's `/chat/completions`; the model list at `/models` or Ollama's
/// `/api/tags`. Gemini's models are not asked for.
pub open spec fn endpoint_url(call: Call, p: AiProvider, base: Seq<char>, model: Seq<char>, key: Seq<char>) -> Option<Seq<char>> {
    match call {
        Call::Models => match p {
            AiProvider::Gemini => None,
            AiProvider::Ollama => Some(base + "/api/tags"@),
            AiProvider::OpenRouter => Some(base + "/models"@),
        },
        _ => match p {
            AiProvider::Gemini => if call == Call::Stream {
                Some(base + "/models/"@ + model + ":streamGenerateContent?alt=sse&key="@ + key)
            } else {
                Some(base + "/models/"@ + model + ":generateContent?key="@ + key)
            },
            AiProvider::Ollama => Some(base + "/api/chat"@),
            AiProvider::OpenRouter => Some(base + "/chat/completions"@),
        },
    }
}

/// The headers a request carries besides its JSON body: OpenRouter's bearer
/// key and identification, and for a streamed Gemini request its key.
pub open spec fn request_headers(call: Call, p: AiProvider, key: Seq<char>) -> Seq<(Seq<char>, Seq<char>)> {
    match p {
        AiProvider::OpenRouter => match call {
            Call::Models => seq![("Authorization"@, "Bearer "@ + key), ("User-Agent"@, "gogit/0.1.0"@)],
            Call::Stream => seq![
                ("Authorization"@, "Bearer "@ + key),
                ("User-Agent"@, "gogit/0.1.0"@),
                ("HTTP-Referer"@, "gogit"@),
                ("X-Title"@, "gogit"@),
            ],
            _ => seq![
                ("Authorization"@, "Bearer "@ + key),
                ("User-Agent"@, "gogit/0.1.0"@),
                ("HTTP-Referer"@, "https://github.com/buka-pitch/gogit"@),
                ("X-Title"@, "gogit"@),
            ],
        },
        AiProvider::Gemini => if call == Call::Stream {
            seq![("x-goog-api-key"@, key)]
        } else {
            seq![]
        },
        AiProvider::Ollama => seq![],
    }
}

pub open spec fn header_views(h: Seq<(String, String)>) -> Seq<(Seq<char>, Seq<char>)> {
    h.map_values(|x: (String, String)| (x.0@, x.1@))
}

fn header(name: &str, value: &str) -> (r: (String, String))
    ensures
        r.0@ == name@,
        r.1@ == value@,
{
    (String::from_str(name), String::from_str(value))
}

impl crate::ai::AiClient {
    /// The URL of a request, as [`endpoint_url`] gives it for this client.
    pub fn endpoint(&self, call: Call) -> (r: Option<String>)
        ensures
            opt_view(r) == endpoint_url(
                call,
                self.the_provider(),
                crate::ai::base_url(self.the_provider(), self.ollama_url()),
                self.the_model(),
                self.key(),
            ),
    {
        let base = self.get_base_url();
        let provider = self.provider();
        let mut t: Vec<char> = chars_of(base.as_str());
        match call {
            Call::Models => match provider {
                AiProvider::Gemini => {
                    return None;
                },
                AiProvider::Ollama => push_str(&mut t, "/api/tags"),
                AiProvider::OpenRouter => push_str(&mut t, "/models"),
            },
            _ => match provider {
                AiProvider::Gemini => {
                    push_str(&mut t, "/models/");
                    push_str(&mut t, self.model());
                    if call == Call::Stream {
                        push_str(&mut t, ":streamGenerateContent?alt=sse&key=");
                    } else {
                        push_str(&mut t, ":generateContent?key=");
                    }
                    push_str(&mut t, self.api_key());
                },
                AiProvider::Ollama => push_str(&mut t, "/api/chat"),
                AiProvider::OpenRouter => push_str(&mut t, "/chat/completions"),
            },
        }
        Some(string_of(&t))
    }

    /// The headers of a request, as [`request_headers`] gives them.
    pub fn headers(&self, call: Call) -> (r: Vec<(String, String)>)
        ensures
            header_views(r@) == request_headers(call, self.the_provider(), self.key()),
    {
        let key = self.api_key();
        let mut bearer: Vec<char> = Vec::new();
        push_str(&mut bearer, "Bearer ");
        push_str(&mut bearer, key);
        let mut r: Vec<(String, String)> = Vec::new();
        match self.provider() {
            AiProvider::OpenRouter => {
                r.push((String::from_str("Authorization"), string_of(&bearer)));
                r.push(header("User-Agent", "gogit/0.1.0"));
                match call {
                    Call::Models => {},
                    Call::Stream => {
                        r.push(header("HTTP-Referer", "gogit"));
                        r.push(header("X-Title", "gogit"));
                    },
                    _ => {
                        r.push(header("HTTP-Referer", "https://github.com/buka-pitch/gogit"));
                        r.push(header("X-Title", "gogit"));
                    },
                }
            },
            AiProvider::Gemini => {
                if call == Call::Stream {
                    r.push(header("x-goog-api-key", key));
                }
            },
            AiProvider::Ollama => {},
        }
        assert(header_views(r@) =~= request_headers(call, self.the_provider(), self.key()));
        r
    }
}

/// How many times a rate-limited request is retried.
pub const MAX_RETRIES: u32 = 3;

/// Whether a request is retried when the service answers 429: streamed
/// completions always, completions except on Ollama, chats on OpenRouter.
pub open spec fn retries_when_limited(call: Call, p: AiProvider) -> bool {
    match call {
        Call::Stream => true,
        Call::Completion => p != AiProvider::Ollama,
        Call::Chat => p == AiProvider::OpenRouter,
        Call::Models => false,
    }
}

pub open spec fn doubling(n: nat) -> nat
    decreases n,
{
    if n == 0 {
        1
    } else {
        2 * doubling((n - 1) as nat)
    }
}

/// The seconds waited before the `attempt`-th retry: 10, doubling each time.
pub open spec fn backoff_seconds(attempt: nat) -> nat {
    10 * doubling((attempt - 1) as nat)
}

pub open spec fn is_success(status: u16) -> bool {
    200 <= status < 300
}

pub open spec fn rate_limit_message(call: Call) -> Seq<char> {
    if call == Call::Completion {
        "Rate limit exceeded"@
    } else {
        "Rate limit exceeded after retries"@
    }
}

pub open spec fn model_list_error(p: AiProvider, status_line: Seq<char>) -> Seq<char> {
    if p == AiProvider::Ollama {
        "Ollama API Error: "@ + status_line
    } else {
        "API Error: "@ + status_line
    }
}

/// What the client does with the status of a reply.
#[derive(Debug)]
pub enum ReplyStep {
    /// Wait this long, then send the request again as this attempt.
    Retry { attempt: u32, wait_seconds: u64 },
    /// Give up with this error.
    Fail(AiError),
    /// Read the body as text and turn it into an error ([`failure_error`]).
    ReadFailure,
    /// Read the body as the reply.
    Read,
}

/// Decides what follows a reply with `status` (`status_line` is how it is
/// shown, e.g. `404 Not Found`) after `attempts` retries: a rate-limited
/// request that retries waits 10, 20, then 40 seconds and gives up after
/// [`MAX_RETRIES`]; a success is read; so is any reply to an OpenRouter
/// completion, whose body carries its error; a failed model listing fails
/// with its status; any other failure is read for its message.
pub fn reply_step(call: Call, provider: AiProvider, status: u16, status_line: &str, attempts: u32) -> (r: ReplyStep)
    ensures
        (status == 429 && retries_when_limited(call, provider)) ==> if attempts < MAX_RETRIES {
            r == (ReplyStep::Retry {
                attempt: (attempts + 1) as u32,
                wait_seconds: backoff_seconds((attempts + 1) as nat) as u64,
            })
        } else {
            r matches ReplyStep::Fail(AiError::Stream(m)) && m@ == rate_limit_message(call)
        },
        !(status == 429 && retries_when_limited(call, provider)) ==> if is_success(status) || (call
            == Call::Completion && provider == AiProvider::OpenRouter) {
            r is Read
        } else if call == Call::Models {
            r matches ReplyStep::Fail(AiError::Stream(m)) && m@ == model_list_error(provider, status_line@)
        } else {
            r is ReadFailure
        },
{
    let retries = match call {
        Call::Stream => true,
        Call::Completion => provider != AiProvider::Ollama,
        Call::Chat => provider == AiProvider::OpenRouter,
        Call::Models => false,
    };
    if status == 429 && retries {
        if attempts < MAX_RETRIES {
            let wait: u64 = if attempts == 0 {
                10
            } else if attempts == 1 {
                20
            } else {
                40
            };
            assert(doubling(0) == 1);
            assert(doubling(1) == 2);
            assert(doubling(2) == 4);
            return ReplyStep::Retry { attempt: attempts + 1, wait_seconds: wait };
        }
        if call == Call::Completion {
            return ReplyStep::Fail(AiError::Stream(String::from_str("Rate limit exceeded")));
        }
        return ReplyStep::Fail(AiError::Stream(String::from_str("Rate limit exceeded after retries")));
    }
    if (200 <= status && status < 300) || (call == Call::Completion && provider == AiProvider::OpenRouter) {
        return ReplyStep::Read;
    }
    if call == Call::Models {
        let mut m: Vec<char> = Vec::new();
        if provider == AiProvider::Ollama {
            push_str(&mut m, "Ollama API Error: ");
        } else {
            push_str(&mut m, "API Error: ");
        }
        push_str(&mut m, status_line);
        return ReplyStep::Fail(AiError::Stream(string_of(&m)));
    }
    ReplyStep::ReadFailure
}

/// The error a failed reply turns into, from its status and body: a chat
/// with tools that OpenRouter answers 404 mentioning tool use or the
/// endpoint means the model cannot use tools; otherwise the status and
/// body are reported, named by provider for Gemini and Ollama.
pub open spec fn failure_of(call: Call, p: AiProvider, status: u16, line: Seq<char>, has_tools: bool, body: Seq<char>) -> (bool, Seq<char>) {
    if call == Call::Models {
        (false, model_list_error(p, line))
    } else if call != Call::Stream && p == AiProvider::Gemini {
        (false, "Gemini API Error "@ + line + ": "@ + body)
    } else if call != Call::Stream && p == AiProvider::Ollama {
        (false, "Ollama API Error "@ + line + ": "@ + body)
    } else if call == Call::Chat && status == 404 && has_tools {
        if contains(body, "tool use"@) || contains(body, "endpoint"@) {
            (true, "This model/provider does not support tool use."@)
        } else {
            (false, "API Error 404: "@ + body)
        }
    } else {
        (false, "API Error "@ + line + ": "@ + body)
    }
}

pub fn failure_error(call: Call, provider: AiProvider, status: u16, status_line: &str, has_tools: bool, body: &str) -> (r: AiError)
    ensures
        ({
            let f = failure_of(call, provider, status, status_line@, has_tools, body@);
            match r {
                AiError::ToolIncompatibility(m) => f.0 && m@ == f.1,
                AiError::Stream(m) => !f.0 && m@ == f.1,
                _ => false,
            }
        }),
{
    let mut m: Vec<char> = Vec::new();
    if call == Call::Models {
        if provider == AiProvider::Ollama {
            push_str(&mut m, "Ollama API Error: ");
        } else {
            push_str(&mut m, "API Error: ");
        }
        push_str(&mut m, status_line);
        return AiError::Stream(string_of(&m));
    }
    if call != Call::Stream && provider == AiProvider::Gemini {
        push_str(&mut m, "Gemini API Error ");
    } else if call != Call::Stream && provider == AiProvider::Ollama {
        push_str(&mut m, "Ollama API Error ");
    } else if call == Call::Chat && status == 404 && has_tools {
        let b = chars_of(body);
        if contains_exec(&b, &chars_of("tool use")) || contains_exec(&b, &chars_of("endpoint")) {
            return AiError::ToolIncompatibility(String::from_str("This model/provider does not support tool use."));
        }
        push_str(&mut m, "API Error 404: ");
        push_str(&mut m, body);
        return AiError::Stream(string_of(&m));
    } else {
        push_str(&mut m, "API Error ");
    }
    push_str(&mut m, status_line);
    push_str(&mut m, ": ");
    push_str(&mut m, body);
    AiError::Stream(string_of(&m))
}

/// What an OpenRouter completion's JSON reply gives: the first choice's
/// text; else the error's message (or `Unknown API error`); else the reply
/// itself is unexpected.
pub fn completion_outcome(content: Option<String>, error: Option<Option<String>>, reply_json: &str) -> (r: Result<String, AiError>)
    ensures
        match content {
            Some(t) => r matches Ok(x) && x@ == t@,
            None => match error {
                Some(m) => r matches Err(AiError::Stream(e)) && e@ == "API Error: "@ + match m {
                    Some(t) => t@,
                    None => "Unknown API error"@,
                },
                None => r matches Err(AiError::Stream(e)) && e@ == "Unexpected JSON response: "@ + reply_json@,
            },
        },
{
    match content {
        Some(t) => Ok(t),
        None => {
            let mut e: Vec<char> = Vec::new();
            match error {
                Some(m) => {
                    push_str(&mut e, "API Error: ");
                    match m {
                        Some(t) => push_str(&mut e, t.as_str()),
                        None => push_str(&mut e, "Unknown API error"),
                    }
                },
                None => {
                    push_str(&mut e, "Unexpected JSON response: ");
                    push_str(&mut e, reply_json);
                },
            }
            Err(AiError::Stream(string_of(&e)))
        },
    }
}

/// What an OpenRouter chat reply gives: the first choice's message; else
/// its error, which means no tool support when tools were offered and the
/// message speaks of tools or support; else no choices.
pub fn chat_outcome(choice: Option<Message>, error: Option<Option<String>>, has_tools: bool) -> (r: Result<Message, AiError>)
    ensures
        match choice {
            Some(m) => r == Ok::<Message, AiError>(m),
            None => match error {
                Some(em) => {
                    let msg = match em {
                        Some(t) => t@,
                        None => "Unknown error"@,
                    };
                    if has_tools && (contains(msg, "tool"@) || contains(msg, "support"@)) {
                        r matches Err(AiError::ToolIncompatibility(e)) && e@ == msg
                    } else {
                        r matches Err(AiError::Stream(e)) && e@ == "API Error: "@ + msg
                    }
                },
                None => r matches Err(AiError::Stream(e)) && e@ == "No response choices found"@,
            },
        },
{
    match choice {
        Some(m) => Ok(m),
        None => match error {
            Some(em) => {
                let msg: Vec<char> = match em {
                    Some(t) => chars_of(t.as_str()),
                    None => chars_of("Unknown error"),
                };
                if has_tools && (contains_exec(&msg, &chars_of("tool")) || contains_exec(&msg, &chars_of("support"))) {
                    Err(AiError::ToolIncompatibility(string_of(&msg)))
                } else {
                    let mut e: Vec<char> = Vec::new();
                    push_str(&mut e, "API Error: ");
                    push_all(&mut e, &msg);
                    Err(AiError::Stream(string_of(&e)))
                }
            },
            None => Err(AiError::Stream(String::from_str("No response choices found"))),
        },
    }
}

/// What an OpenRouter completion's reply body gives: where it is not JSON,
/// the parser's error; else as [`completion_outcome`] reads the parts, with
/// the reply in normal form (or `null`).
pub fn completion_reply(body: &str) -> (r: Result<String, AiError>)
    ensures
        match json_syntax_error(body@) {
            Some(e) => r matches Err(AiError::Json(x)) && x@ == e,
            None => match json_completion_content(body@) {
                Some(t) => r matches Ok(x) && x@ == t,
                None => match json_error_message(body@) {
                    Some(m) => r matches Err(AiError::Stream(e)) && e@ == "API Error: "@ + match m {
                        Some(t) => t,
                        None => "Unknown API error"@,
                    },
                    None => r matches Err(AiError::Stream(e)) && e@ == "Unexpected JSON response: "@
                        + match json_normalized(body@) {
                        Some(n) => n,
                        None => "null"@,
                    },
                },
            },
        },
{
    match json_syntax_error_of(body) {
        Some(e) => {
            return Err(AiError::Json(e));
        },
        None => {},
    }
    let content = json_completion_content_field(body);
    let error = json_error_message_field(body);
    let shown = match json_normalize(body) {
        Some(n) => n,
        None => String::from_str("null"),
    };
    completion_outcome(content, error, shown.as_str())
}

/// The next step on an OpenRouter chat reply's body.
#[derive(Debug, Clone)]
pub enum ChatStep {
    /// Read the message of the first choice.
    ReadChoice,
    /// The reply is an error.
    Fail(AiError),
}

/// What to do with an OpenRouter chat reply's body: where it is not JSON,
/// fail with the parser's error; with a first choice, read its message;
/// else fail as [`chat_outcome`] says for a reply without one.
pub fn chat_step(body: &str, has_tools: bool) -> (r: ChatStep)
    ensures
        match json_syntax_error(body@) {
            Some(e) => r matches ChatStep::Fail(AiError::Json(x)) && x@ == e,
            None => if json_has_first_choice(body@) {
                r is ReadChoice
            } else {
                match json_error_message(body@) {
                    Some(em) => {
                        let msg = match em {
                            Some(t) => t,
                            None => "Unknown error"@,
                        };
                        if has_tools && (contains(msg, "tool"@) || contains(msg, "support"@)) {
                            r matches ChatStep::Fail(AiError::ToolIncompatibility(e)) && e@ == msg
                        } else {
                            r matches ChatStep::Fail(AiError::Stream(e)) && e@ == "API Error: "@ + msg
                        }
                    },
                    None => r matches ChatStep::Fail(AiError::Stream(e)) && e@ == "No response choices found"@,
                }
            },
        },
{
    match json_syntax_error_of(body) {
        Some(e) => {
            return ChatStep::Fail(AiError::Json(e));
        },
        None => {},
    }
    if json_first_choice_present(body) {
        return ChatStep::ReadChoice;
    }
    match chat_outcome(None, json_error_message_field(body), has_tools) {
        Ok(_) => ChatStep::ReadChoice,
        Err(e) => ChatStep::Fail(e),
    }
}

/// The message of a Gemini chat reply: that of its first candidate, whose
/// parts are given; a reply without candidates is an error.
pub fn gemini_chat_reply(first_candidate: Option<Vec<GeminiPart>>) -> (r: Result<Message, AiError>)
    ensures
        match first_candidate {
            None => r matches Err(AiError::Stream(e)) && e@ == "No candidates in Gemini response"@,
            Some(parts) => (r matches Ok(m) && m.role == Role::Assistant && m.tool_call_id is None
                && opt_view(m.content) == last_text(parts@.map_values(|p: GeminiPart| part_view(p)))
                && match m.tool_calls {
                Some(v) => v@.len() > 0 && v@.map_values(|c: ToolCall| call_record(c)) == reply_calls(
                    parts@.map_values(|p: GeminiPart| part_view(p)),
                ),
                None => reply_calls(parts@.map_values(|p: GeminiPart| part_view(p))).len() == 0,
            }),
        },
{
    match first_candidate {
        None => Err(AiError::Stream(String::from_str("No candidates in Gemini response"))),
        Some(parts) => Ok(message_from_gemini_parts(&parts)),
    }
}

/// Whether an OpenRouter chat offers tools: a list was given and it is not
/// empty.
pub fn offers_tools(tools: &Option<Vec<ToolDefinition>>) -> (r: bool)
    ensures
        r == (tools matches Some(t) && t@.len() > 0),
{
    match tools {
        Some(t) => t.len() > 0,
        None => false,
    }
}

/// A chat with tools that cannot be sent: Ollama models are not asked to use
/// tools.
pub fn chat_precheck(provider: AiProvider, tools_given: bool) -> (r: Option<AiError>)
    ensures
        match r {
            Some(e) => provider == AiProvider::Ollama && tools_given && (e matches AiError::ToolIncompatibility(m)
                && m@ == "Ollama models typically do not support tool calling. Please use a model with tool support (e.g., OpenAI, Gemini) or disable tools."@),
            None => !(provider == AiProvider::Ollama && tools_given),
        },
{
    if provider == AiProvider::Ollama && tools_given {
        Some(AiError::ToolIncompatibility(String::from_str(
            "Ollama models typically do not support tool calling. Please use a model with tool support (e.g., OpenAI, Gemini) or disable tools.",
        )))
    } else {
        None
    }
}

/// The role names of Ollama's chat API.
pub open spec fn role_name(r: Role) -> Seq<char> {
    match r {
        Role::System => "system"@,
        Role::User => "user"@,
        Role::Assistant => "assistant"@,
        Role::Tool => "tool"@,
    }
}

pub fn role_name_exec(r: Role) -> (s: &'static str)
    ensures
        s@ == role_name(r),
{
    match r {
        Role::System => "system",
        Role::User => "user",
        Role::Assistant => "assistant",
        Role::Tool => "tool",
    }
}

/// The body of a one-prompt request, as plain values.
#[derive(Debug, Clone)]
pub enum PromptBody {
    /// Gemini's: one user content holding the prompt, and the system
    /// instruction.
    Gemini { prompt: String, system_instruction: String },
    /// Ollama's and OpenRouter's: the model, the messages as (role,
    /// content), the `stream` flag where one is sent, the token limit
    /// where one is sent, and whether the sampling temperature (0.7) is
    /// sent.
    Chat {
        model: String,
        messages: Vec<(String, String)>,
        stream: Option<bool>,
        max_tokens: Option<u32>,
        with_temperature: bool,
    },
}

pub open spec fn pair_views(v: Seq<(String, String)>) -> Seq<(Seq<char>, Seq<char>)> {
    v.map_values(|p: (String, String)| (p.0@, p.1@))
}

/// The body of a completion of `prompt` under `system_instruction`,
/// streamed or not: Gemini's contents and system instruction; Ollama's
/// model, system and user messages, and `stream`; OpenRouter's model and
/// messages with temperature, a limit of 8192 tokens, and `stream` only
/// when streaming.
pub fn prompt_body(provider: AiProvider, model: &str, prompt: &str, system_instruction: &str, stream: bool) -> (r: PromptBody)
    ensures
        match provider {
            AiProvider::Gemini => r matches PromptBody::Gemini { prompt: p, system_instruction: s } && p@ == prompt@
                && s@ == system_instruction@,
            AiProvider::Ollama => r matches PromptBody::Chat { model: m, messages, stream: st, max_tokens, with_temperature }
                && m@ == model@ && pair_views(messages@) == seq![("system"@, system_instruction@), ("user"@, prompt@)]
                && st == Some(stream) && max_tokens is None && !with_temperature,
            AiProvider::OpenRouter => r matches PromptBody::Chat { model: m, messages, stream: st, max_tokens, with_temperature }
                && m@ == model@ && pair_views(messages@) == seq![("system"@, system_instruction@), ("user"@, prompt@)]
                && st == (if stream { Some(true) } else { None::<bool> }) && max_tokens == Some(8192u32)
                && with_temperature,
        },
{
    match provider {
        AiProvider::Gemini => PromptBody::Gemini {
            prompt: String::from_str(prompt),
            system_instruction: String::from_str(system_instruction),
        },
        _ => {
            let messages = vec![
                (String::from_str("system"), String::from_str(system_instruction)),
                (String::from_str("user"), String::from_str(prompt)),
            ];
            proof {
                reveal_strlit("system");
                reveal_strlit("user");
            }
            assert(pair_views(messages@) =~= seq![("system"@, system_instruction@), ("user"@, prompt@)]);
            let open_router = match provider {
                AiProvider::OpenRouter => true,
                _ => false,
            };
            PromptBody::Chat {
                model: String::from_str(model),
                messages,
                stream: if open_router {
                    if stream {
                        Some(true)
                    } else {
                        None
                    }
                } else {
                    Some(stream)
                },
                max_tokens: if open_router {
                    Some(8192)
                } else {
                    None
                },
                with_temperature: open_router,
            }
        },
    }
}

/// The payloads of the server-sent events in a chunk of a streamed reply:
/// of each line that starts with `data: `, the rest, up to a `[DONE]`.
pub open spec fn sse_payloads_of(ls: Seq<Seq<char>>) -> Seq<Seq<char>>
    decreases ls.len(),
{
    if ls.len() == 0 {
        seq![]
    } else if starts_with(ls[0], "data: "@) {
        let p = ls[0].skip("data: "@.len() as int);
        if p == "[DONE]"@ {
            seq![]
        } else {
            seq![p] + sse_payloads_of(ls.skip(1))
        }
    } else {
        sse_payloads_of(ls.skip(1))
    }
}

pub open spec fn sse_payloads(chunk: Seq<char>) -> Seq<Seq<char>> {
    sse_payloads_of(lines(chunk))
}

/// The event payloads of a chunk, as [`sse_payloads`] gives them.
pub fn stream_payloads(chunk: &str) -> (r: Vec<String>)
    ensures
        string_views(r@) == sse_payloads(chunk@),
{
    let ls = lines_exec(&chars_of(chunk));
    let ghost lv = views(ls@);
    let prefix = chars_of("data: ");
    let done = chars_of("[DONE]");
    let mut out: Vec<String> = Vec::new();
    let mut i: usize = 0;
    assert(lv.skip(0) =~= lv);
    while i < ls.len()
        invariant
            i <= ls.len(),
            lv == views(ls@),
            lv == lines(chunk@),
            prefix@ == "data: "@,
            done@ == "[DONE]"@,
            sse_payloads_of(lv) == string_views(out@) + sse_payloads_of(lv.skip(i as int)),
        decreases ls.len() - i,
    {
        let l = &ls[i];
        assert(lv.skip(i as int)[0] == l@);
        assert(lv.skip(i as int).skip(1) =~= lv.skip(i + 1));
        if starts_with_exec(l, &prefix) {
            let p = slice(l, prefix.len(), l.len());
            assert(p@ =~= l@.skip("data: "@.len() as int));
            if crate::text::eq_vec(&p, &done) {
                assert(string_views(out@) =~= string_views(out@) + seq![]);
                return out;
            }
            let ghost before = string_views(out@);
            out.push(string_of(&p));
            assert(string_views(out@) =~= before.push(p@));
            assert(before + (seq![p@] + sse_payloads_of(lv.skip(i + 1))) =~= before.push(p@) + sse_payloads_of(lv.skip(i + 1)));
        }
        i = i + 1;
    }
    assert(lv.skip(ls.len() as int) =~= seq![]);
    assert(string_views(out@) + seq![] =~= string_views(out@));
    out
}

/// The text a streamed event carries, by provider: Gemini's first part of
/// the first candidate, Ollama's message content, or the first choice's
/// delta content for OpenRouter.
pub open spec fn delta_of(p: AiProvider, payload: Seq<char>) -> Option<Seq<char>> {
    match p {
        AiProvider::Gemini => json_candidate_text(payload),
        AiProvider::Ollama => json_message_content(payload),
        AiProvider::OpenRouter => json_choice_delta(payload),
    }
}

/// The texts the events of a chunk carry, in order; events that carry none
/// (or are not JSON) add nothing.
pub open spec fn deltas_of(p: AiProvider, payloads: Seq<Seq<char>>) -> Seq<Seq<char>>
    decreases payloads.len(),
{
    if payloads.len() == 0 {
        seq![]
    } else {
        deltas_of(p, payloads.drop_last()) + match delta_of(p, payloads.last()) {
            Some(d) => seq![d],
            None => seq![],
        }
    }
}

fn delta_exec(p: AiProvider, payload: &str) -> (r: Option<String>)
    ensures
        opt_view(r) == delta_of(p, payload@),
{
    match p {
        AiProvider::Gemini => json_candidate_text_field(payload),
        AiProvider::Ollama => json_message_content_field(payload),
        AiProvider::OpenRouter => json_choice_delta_field(payload),
    }
}

/// The texts a chunk of a streamed reply delivers, in order.
pub fn stream_deltas(provider: AiProvider, chunk: &str) -> (r: Vec<String>)
    ensures
        string_views(r@) == deltas_of(provider, sse_payloads(chunk@)),
{
    let payloads = stream_payloads(chunk);
    let ghost pv = string_views(payloads@);
    let mut out: Vec<String> = Vec::new();
    let mut i: usize = 0;
    while i < payloads.len()
        invariant
            i <= payloads.len(),
            pv == string_views(payloads@),
            pv == sse_payloads(chunk@),
            string_views(out@) == deltas_of(provider, pv.take(i as int)),
        decreases payloads.len() - i,
    {
        assert(pv.take(i as int + 1).drop_last() =~= pv.take(i as int));
        assert(pv.take(i as int + 1).last() == payloads@[i as int]@);
        let ghost before = string_views(out@);
        match delta_exec(provider, payloads[i].as_str()) {
            Some(d) => {
                out.push(d);
                assert(string_views(out@) =~= before + seq![out@[out@.len() - 1]@]);
            },
            None => {},
        }
        assert(string_views(out@) =~= deltas_of(provider, pv.take(i as int + 1)));
        i = i + 1;
    }
    assert(pv.take(payloads.len() as int) =~= pv);
    out
}

/// A diff of this many bytes or more is summarized chunk by chunk.
pub const SUMMARY_THRESHOLD: u128 = 500000;

/// The chunks of a diff that are summarized: the pieces between the
/// `diff --git` markers that are not blank, each with its marker again.
pub open spec fn diff_chunks_of(pieces: Seq<Seq<char>>) -> Seq<Seq<char>>
    decreases pieces.len(),
{
    if pieces.len() == 0 {
        seq![]
    } else if trim(pieces.last()).len() == 0 {
        diff_chunks_of(pieces.drop_last())
    } else {
        diff_chunks_of(pieces.drop_last()).push("diff --git"@ + pieces.last())
    }
}

/// How a diff is summarized: a short one is kept whole (`None`); a long one
/// is cut into the chunks that are summarized one by one.
pub open spec fn summary_chunks(diff: Seq<char>) -> Option<Seq<Seq<char>>> {
    if utf8_len(diff) < SUMMARY_THRESHOLD {
        None
    } else {
        Some(diff_chunks_of(split(diff, "diff --git"@)))
    }
}

pub fn diff_chunks(diff: &str) -> (r: Option<Vec<String>>)
    ensures
        match r {
            None => summary_chunks(diff@) is None,
            Some(v) => summary_chunks(diff@) == Some(string_views(v@)),
        },
{
    let d = chars_of(diff);
    if utf8_len_exec(&d) < SUMMARY_THRESHOLD {
        return None;
    }
    let marker = chars_of("diff --git");
    proof {
        reveal_strlit("diff --git");
    }
    let pieces = split_exec(&d, &marker);
    let ghost pv = views(pieces@);
    let mut out: Vec<String> = Vec::new();
    let mut i: usize = 0;
    while i < pieces.len()
        invariant
            i <= pieces.len(),
            pv == views(pieces@),
            marker@ == "diff --git"@,
            string_views(out@) == diff_chunks_of(pv.take(i as int)),
        decreases pieces.len() - i,
    {
        assert(pv.take(i + 1).drop_last() =~= pv.take(i as int));
        assert(pv.take(i + 1).last() == pieces[i as int]@);
        let piece = &pieces[i];
        let t = trim_exec(piece);
        if t.len() > 0 {
            let mut c: Vec<char> = Vec::new();
            push_all(&mut c, &marker);
            push_all(&mut c, piece);
            let ghost before = string_views(out@);
            out.push(string_of(&c));
            assert(string_views(out@) =~= before.push(c@));
        }
        i = i + 1;
    }
    assert(pv.take(pieces.len() as int) =~= pv);
    Some(out)
}

/// The prompt and system instruction that summarize one chunk of a diff.
pub fn chunk_summary_prompt(chunk: &str) -> (r: (String, String))
    ensures
        r.0@ == "Summarize the code changes in this git diff chunk:\n\n"@ + chunk@,
        r.1@ == "You are a code summarizer. Output a concise summary of changes."@,
{
    let mut t: Vec<char> = Vec::new();
    push_str(&mut t, "Summarize the code changes in this git diff chunk:\n\n");
    push_str(&mut t, chunk);
    (string_of(&t), String::from_str("You are a code summarizer. Output a concise summary of changes."))
}

/// The summaries of a diff's chunks, one paragraph each.
pub fn join_summaries(summaries: &Vec<String>) -> (r: String)
    ensures
        r@ == join(string_views(summaries@), "\n\n"@),
{
    let mut pieces: Vec<Vec<char>> = Vec::new();
    let mut i: usize = 0;
    while i < summaries.len()
        invariant
            i <= summaries.len(),
            views(pieces@) == string_views(summaries@.take(i as int)),
        decreases summaries.len() - i,
    {
        let ghost before = views(pieces@);
        let c = chars_of(summaries[i].as_str());
        proof {
            lemma_views_push(pieces@, c);
        }
        pieces.push(c);
        assert(string_views(summaries@.take(i + 1)) =~= string_views(summaries@.take(i as int)).push(summaries@[i as int]@));
        i = i + 1;
    }
    assert(summaries@.take(summaries.len() as int) =~= summaries@);
    string_of(&join_exec(&pieces, &chars_of("\n\n")))
}

/// The prompt and system instruction of a request that translates a description into a git command.
pub fn git_command_prompt(description: &str) -> (r: (String, String))
    ensures
        r.0@ == "Translate this natural language request into a valid git command:\n\n\""@ + description@ + "\"\n\nOutput ONLY the command itself, no explanation, no backticks. Example: git log --author=\"John\""@,
        r.1@ == "You are a Git expert. You translate natural language descriptions into precise git commands."@,
{
    let mut t: Vec<char> = Vec::new();
    push_str(&mut t, "Translate this natural language request into a valid git command:\n\n\"");
    push_str(&mut t, description);
    push_str(&mut t, "\"\n\nOutput ONLY the command itself, no explanation, no backticks. Example: git log --author=\"John\"");
    (string_of(&t), String::from_str("You are a Git expert. You translate natural language descriptions into precise git commands."))
}

/// The prompt and system instruction of a request that suggests a branch name for a task.
pub fn branch_name_prompt(description: &str) -> (r: (String, String))
    ensures
        r.0@ == "Suggest a concise and descriptive git branch name for the following task:\n\n\""@ + description@ + "\"\n\nRules:\n- Use kebab-case.\n- Include a prefix like feat/, fix/, chore/, or docs/ if appropriate.\n- Output ONLY the branch name, no explanation, no backticks."@,
        r.1@ == "You are a Git expert. You suggest clean and standard branch names based on task descriptions."@,
{
    let mut t: Vec<char> = Vec::new();
    push_str(&mut t, "Suggest a concise and descriptive git branch name for the following task:\n\n\"");
    push_str(&mut t, description);
    push_str(&mut t, "\"\n\nRules:\n- Use kebab-case.\n- Include a prefix like feat/, fix/, chore/, or docs/ if appropriate.\n- Output ONLY the branch name, no explanation, no backticks.");
    (string_of(&t), String::from_str("You are a Git expert. You suggest clean and standard branch names based on task descriptions."))
}

/// The prompt and system instruction of a request that resolves the merge conflicts in a file.
pub fn conflict_prompt(file_content: &str, file_name: &str) -> (r: (String, String))
    ensures
        r.0@ == "Resolve the merge conflicts in the following file: "@ + file_name@ + "\n\nContent:\n"@ + file_content@ + "\n\nRules:\n- Maintain the intended logic from both sides where possible.\n- Remove all conflict markers (<<<<<<<, =======, >>>>>>>).\n- Output ONLY the resolved file content, no explanation, no backticks."@,
        r.1@ == "You are a Senior Software Engineer. You resolve merge conflicts precisely, ensuring code integrity and following project conventions."@,
{
    let mut t: Vec<char> = Vec::new();
    push_str(&mut t, "Resolve the merge conflicts in the following file: ");
    push_str(&mut t, file_name);
    push_str(&mut t, "\n\nContent:\n");
    push_str(&mut t, file_content);
    push_str(&mut t, "\n\nRules:\n- Maintain the intended logic from both sides where possible.\n- Remove all conflict markers (<<<<<<<, =======, >>>>>>>).\n- Output ONLY the resolved file content, no explanation, no backticks.");
    (string_of(&t), String::from_str("You are a Senior Software Engineer. You resolve merge conflicts precisely, ensuring code integrity and following project conventions."))
}

/// The prompt and system instruction of a request that writes release notes from a list of commits.
pub fn release_notes_prompt(commits: &str) -> (r: (String, String))
    ensures
        r.0@ == "Generate a professional and concise RELEASE_NOTES.md content based on these commits:\n\n"@ + commits@ + "\n\nStructure:\n- # [Version/Date]\n- ## 🚀 New Features\n- ## 🛠️ Bug Fixes\n- ## 🔒 Security\n- ## 📦 Internal Changes\n\n- Focus on the impact and value for stakeholders.\n- Output ONLY the Markdown content, no extra explanation."@,
        r.1@ == "You are a Project Manager and Senior Engineer. You write clear, impactful, and categorized release notes from raw commit logs."@,
{
    let mut t: Vec<char> = Vec::new();
    push_str(&mut t, "Generate a professional and concise RELEASE_NOTES.md content based on these commits:\n\n");
    push_str(&mut t, commits);
    push_str(&mut t, "\n\nStructure:\n- # [Version/Date]\n- ## 🚀 New Features\n- ## 🛠️ Bug Fixes\n- ## 🔒 Security\n- ## 📦 Internal Changes\n\n- Focus on the impact and value for stakeholders.\n- Output ONLY the Markdown content, no extra explanation.");
    (string_of(&t), String::from_str("You are a Project Manager and Senior Engineer. You write clear, impactful, and categorized release notes from raw commit logs."))
}

/// The prompt and system instruction of a request that answers a question about the repository from its structure and files.
pub fn repo_question_prompt(question: &str, files: &str, context: &str) -> (r: (String, String))
    ensures
        r.0@ == "Question about the repository:\n\""@ + question@ + "\"\n\nProject Structure:\n"@ + files@ + "\n\nRelevant Context/File Contents:\n"@ + context@ + "\n\nInstructions:\n- Answer the question accurately based on the provided files and structure.\n- Explain 'where things are' and 'how things work'.\n- Be concise and helpful for a new developer onboarding."@,
        r.1@ == "You are a Senior Architect. You act as a technical guide for the codebase, helping developers navigate and understand the repository."@,
{
    let mut t: Vec<char> = Vec::new();
    push_str(&mut t, "Question about the repository:\n\"");
    push_str(&mut t, question);
    push_str(&mut t, "\"\n\nProject Structure:\n");
    push_str(&mut t, files);
    push_str(&mut t, "\n\nRelevant Context/File Contents:\n");
    push_str(&mut t, context);
    push_str(&mut t, "\n\nInstructions:\n- Answer the question accurately based on the provided files and structure.\n- Explain 'where things are' and 'how things work'.\n- Be concise and helpful for a new developer onboarding.");
    (string_of(&t), String::from_str("You are a Senior Architect. You act as a technical guide for the codebase, helping developers navigate and understand the repository."))
}

/// The prompt and system instruction of a request that judges which branches are stale.
pub fn staleness_prompt(branch_info: &str) -> (r: (String, String))
    ensures
        r.0@ == "Analyze these Git branches for staleness/redundancy:\n\n"@ + branch_info@ + "\n\nInstructions:\n- Identify which branches are safe to delete.\n- A branch is safe if its changes are likely already in the base branch or if it was a temporary fix.\n- Be conservative but helpful.\n- Output a clear, bulleted list with 'Safe to Delete' or 'Keep' for each branch, with a one-sentence reason."@,
        r.1@ == "You are a DevOps Engineer specializing in repository maintenance. You help teams keep their branches tidy and secure."@,
{
    let mut t: Vec<char> = Vec::new();
    push_str(&mut t, "Analyze these Git branches for staleness/redundancy:\n\n");
    push_str(&mut t, branch_info);
    push_str(&mut t, "\n\nInstructions:\n- Identify which branches are safe to delete.\n- A branch is safe if its changes are likely already in the base branch or if it was a temporary fix.\n- Be conservative but helpful.\n- Output a clear, bulleted list with 'Safe to Delete' or 'Keep' for each branch, with a one-sentence reason.");
    (string_of(&t), String::from_str("You are a DevOps Engineer specializing in repository maintenance. You help teams keep their branches tidy and secure."))
}

/// A rate-limited request waits 10, 20, then 40 seconds: each wait twice
/// the one before.
pub proof fn lemma_backoff_doubles(attempt: nat)
    requires
        attempt >= 1,
    ensures
        backoff_seconds(attempt + 1) == 2 * backoff_seconds(attempt),
        backoff_seconds(1) == 10,
        backoff_seconds(2) == 20,
        backoff_seconds(3) == 40,
{
    assert(doubling(0) == 1);
    assert(doubling(1) == 2);
    assert(doubling(2) == 4);
    assert(doubling(attempt) == 2 * doubling((attempt - 1) as nat));
}

/// The free models of OpenRouter are all free, none is added, and their
/// order is kept; other providers' lists are kept whole.
pub proof fn lemma_free_models(p: AiProvider, ms: Seq<ModelInfo>)
    ensures
        p != AiProvider::OpenRouter ==> free_models_of(p, ms) == ms,
        free_only(ms).len() <= ms.len(),
        forall|k: int| 0 <= k < free_only(ms).len() ==> is_free(#[trigger] free_only(ms)[k]) && ms.contains(free_only(ms)[k]),
    decreases ms.len(),
{
    if ms.len() > 0 {
        lemma_free_models(p, ms.drop_last());
        let prev = free_only(ms.drop_last());
        let cur = free_only(ms);
        assert forall|k: int| 0 <= k < cur.len() implies is_free(#[trigger] cur[k]) && ms.contains(cur[k]) by {
            if k < prev.len() {
                assert(cur[k] == prev[k]);
                let j = choose|j: int| 0 <= j < ms.drop_last().len() && ms.drop_last()[j] == prev[k];
                assert(ms[j] == prev[k]);
            } else {
                assert(ms[ms.len() - 1] == cur[k]);
            }
        }
    }
}

/// A chunk of a stream never hands on the `[DONE]` marker.
pub proof fn lemma_payloads_stop_at_done(ls: Seq<Seq<char>>)
    ensures
        forall|k: int| 0 <= k < sse_payloads_of(ls).len() ==> #[trigger] sse_payloads_of(ls)[k] != "[DONE]"@,
    decreases ls.len(),
{
    if ls.len() > 0 {
        lemma_payloads_stop_at_done(ls.skip(1));
        let rest = sse_payloads_of(ls.skip(1));
        let cur = sse_payloads_of(ls);
        assert forall|k: int| 0 <= k < cur.len() implies #[trigger] cur[k] != "[DONE]"@ by {
            if starts_with(ls[0], "data: "@) && ls[0].skip("data: "@.len() as int) != "[DONE]"@ {
                if k > 0 {
                    assert(cur[k] == rest[k - 1]);
                }
            } else if !starts_with(ls[0], "data: "@) {
                assert(cur[k] == rest[k]);
            }
        }
    }
}

/// Every chunk summarized on its own is one whole file diff: it starts
/// with its `diff --git` marker.
pub proof fn lemma_chunks_start_with_marker(pieces: Seq<Seq<char>>)
    ensures
        forall|k: int| 0 <= k < diff_chunks_of(pieces).len() ==> starts_with(
            #[trigger] diff_chunks_of(pieces)[k],
            "diff --git"@,
        ),
    decreases pieces.len(),
{
    if pieces.len() > 0 {
        lemma_chunks_start_with_marker(pieces.drop_last());
        let prev = diff_chunks_of(pieces.drop_last());
        let cur = diff_chunks_of(pieces);
        let m = "diff --git"@;
        assert forall|k: int| 0 <= k < cur.len() implies starts_with(#[trigger] cur[k], "diff --git"@) by {
            if k < prev.len() {
                assert(cur[k] == prev[k]);
            } else {
                assert((m + pieces.last()).take(m.len() as int) =~= m);
            }
        }
    }
}

} // verus!
