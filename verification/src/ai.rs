//! The AI client's model: providers, models, chat messages and tool calls,
//! the mapping to Gemini's native format, and the decisions the client makes
//! about keys, endpoints, retries, errors, and streamed replies. The network
//! requests themselves are made by the application.
use vstd::prelude::*;
use crate::text::{chars_of, eq_str, lower, lower_vec, push_str, string_of, trim, trim_exec};
use crate::json::{json_normalize, json_normalized};

verus! {

#[verifier::external_type_specification]
#[verifier::external_body]
pub struct ExHttpClient(reqwest::Client);

/// Trusted: `reqwest::Client`'s `Clone` hands out another handle to the same
/// connection pool; nothing about the result is stated.
pub assume_specification[ <reqwest::Client as Clone>::clone ](c: &reqwest::Client) -> reqwest::Client;

/// An error of an AI operation, with the message of its cause.
#[derive(Debug, Clone)]
pub enum AiError {
    /// An API request failed.
    Request(String),
    /// An environment variable was missing.
    Env(String),
    /// The reply or its stream went wrong.
    Stream(String),
    /// A reply was not the JSON expected.
    Json(String),
    /// The model or provider does not support tools.
    ToolIncompatibility(String),
}

pub open spec fn ai_error_text(e: AiError) -> Seq<char> {
    match e {
        AiError::Request(m) => "API Request failed: "@ + m@,
        AiError::Env(m) => "Environment variable missing: "@ + m@,
        AiError::Stream(m) => "Stream error: "@ + m@,
        AiError::Json(m) => "JSON error: "@ + m@,
        AiError::ToolIncompatibility(m) => "Tool-use incompatibility: "@ + m@,
    }
}

impl AiError {
    /// The error as it is shown to the user.
    pub fn message(&self) -> (r: String)
        ensures
            r@ == ai_error_text(*self),
    {
        let mut t: Vec<char> = Vec::new();
        match self {
            AiError::Request(m) => {
                push_str(&mut t, "API Request failed: ");
                push_str(&mut t, m.as_str());
            },
            AiError::Env(m) => {
                push_str(&mut t, "Environment variable missing: ");
                push_str(&mut t, m.as_str());
            },
            AiError::Stream(m) => {
                push_str(&mut t, "Stream error: ");
                push_str(&mut t, m.as_str());
            },
            AiError::Json(m) => {
                push_str(&mut t, "JSON error: ");
                push_str(&mut t, m.as_str());
            },
            AiError::ToolIncompatibility(m) => {
                push_str(&mut t, "Tool-use incompatibility: ");
                push_str(&mut t, m.as_str());
            },
        }
        string_of(&t)
    }
}

/// The price of a model per token, as the API reports it.
#[derive(Debug, Clone)]
pub struct ModelPricing {
    pub prompt: String,
    pub completion: String,
}

/// A model an AI provider offers.
#[derive(Debug, Clone)]
pub struct ModelInfo {
    pub id: String,
    pub name: Option<String>,
    pub description: Option<String>,
    pub context_length: Option<u32>,
    pub pricing: Option<ModelPricing>,
}

/// Who wrote a chat message.
#[derive(Debug, Clone, Copy, PartialEq, Eq, Structural)]
pub enum Role {
    System,
    User,
    Assistant,
    Tool,
}

/// Provider data attached to a tool call, passed back unchanged.
#[derive(Debug, Clone)]
pub enum ExtraContent {
    /// Gemini's thought signature of a function call.
    ThoughtSignature(String),
    /// Any other JSON value, as its text.
    Json(String),
}

/// The function a tool call invokes, with its arguments as JSON text.
#[derive(Debug, Clone)]
pub struct ToolFunction {
    pub name: String,
    pub arguments: String,
}

/// A tool call the model asked for.
#[derive(Debug, Clone)]
pub struct ToolCall {
    pub id: String,
    pub tool_type: String,
    pub function: ToolFunction,
    pub extra_content: Option<ExtraContent>,
}

/// A chat message.
#[derive(Debug, Clone)]
pub struct Message {
    pub role: Role,
    pub content: Option<String>,
    pub tool_calls: Option<Vec<ToolCall>>,
    pub tool_call_id: Option<String>,
}

/// One parameter of a tool, in JSON-schema terms: its name, type, and
/// description, the values it may take (`enum`, when not empty), the type of
/// its items (arrays) and of its additional properties (objects).
#[derive(Debug, Clone)]
pub struct ParamProperty {
    pub name: String,
    pub kind: String,
    pub description: String,
    pub enum_values: Vec<String>,
    pub items_kind: Option<String>,
    pub additional_kind: Option<String>,
}

/// The parameters of a tool: an object schema with these properties, and the
/// names it requires when a `required` list is given.
#[derive(Debug, Clone)]
pub struct ToolParameters {
    pub properties: Vec<ParamProperty>,
    pub required: Option<Vec<String>>,
}

/// A tool's name, description, and parameters.
#[derive(Debug, Clone)]
pub struct ToolFunctionDefinition {
    pub name: String,
    pub description: String,
    pub parameters: ToolParameters,
}

/// A tool offered to the model.
#[derive(Debug, Clone)]
pub struct ToolDefinition {
    pub tool_type: String,
    pub function: ToolFunctionDefinition,
}

/// The AI services the client can talk to.
#[derive(Debug, Clone, Copy, PartialEq, Eq, Structural)]
pub enum AiProvider {
    OpenRouter,
    Gemini,
    Ollama,
}

/// The provider a configuration names, ignoring case; anything but `gemini`
/// and `ollama` means OpenRouter.
pub open spec fn provider_of_name(n: Seq<char>) -> AiProvider {
    if n == "gemini"@ {
        AiProvider::Gemini
    } else if n == "ollama"@ {
        AiProvider::Ollama
    } else {
        AiProvider::OpenRouter
    }
}

pub fn provider_from_name(name: &str) -> (r: AiProvider)
    ensures
        r == provider_of_name(lower(name@)),
{
    let n = lower_vec(&chars_of(name));
    if eq_str(&n, "gemini") {
        AiProvider::Gemini
    } else if eq_str(&n, "ollama") {
        AiProvider::Ollama
    } else {
        AiProvider::OpenRouter
    }
}

/// The environment variable that holds a provider's API key.
pub open spec fn key_variable(p: AiProvider) -> Seq<char> {
    if p == AiProvider::Gemini {
        "GEMINI_API_KEY"@
    } else {
        "OPENROUTER_API_KEY"@
    }
}

/// The API key the client uses: the provider's environment variable when it
/// is set, else the key from the configuration, trimmed. Ollama needs none.
pub open spec fn resolved_key(
    p: AiProvider,
    env_openrouter: Option<Seq<char>>,
    env_gemini: Option<Seq<char>>,
    config_openrouter: Option<Seq<char>>,
    config_gemini: Option<Seq<char>>,
) -> Result<Seq<char>, Seq<char>> {
    let raw: Option<Seq<char>> = match p {
        AiProvider::OpenRouter => if env_openrouter is Some {
            env_openrouter
        } else {
            config_openrouter
        },
        AiProvider::Gemini => if env_gemini is Some {
            env_gemini
        } else {
            config_gemini
        },
        AiProvider::Ollama => Some(seq![]),
    };
    match raw {
        None => Err("No API key found. Set "@ + key_variable(p) + " or add it to config.toml"@),
        Some(k) => if p != AiProvider::Ollama && trim(k).len() == 0 {
            Err("API Key is empty"@)
        } else {
            Ok(trim(k))
        },
    }
}

pub open spec fn opt_view(o: Option<String>) -> Option<Seq<char>> {
    match o {
        Some(s) => Some(s@),
        None => None,
    }
}

/// A client for an AI provider: which one, with which key and model.
#[derive(Clone)]
pub struct AiClient {
    client: reqwest::Client,
    api_key: String,
    provider: AiProvider,
    /// The name of the model to use (e.g. `openai/gpt-4o-mini`).
    model: String,
    /// The base URL of an Ollama server (e.g. `http://localhost:11434`).
    ollama_base_url: Option<String>,
}

/// The base URL of a provider's API.
pub open spec fn base_url(p: AiProvider, ollama: Option<Seq<char>>) -> Seq<char> {
    match p {
        AiProvider::OpenRouter => "https://openrouter.ai/api/v1"@,
        AiProvider::Gemini => "https://generativelanguage.googleapis.com/v1beta"@,
        AiProvider::Ollama => match ollama {
            Some(u) => u,
            None => "http://localhost:11434"@,
        },
    }
}

impl AiClient {
    pub closed spec fn key(&self) -> Seq<char> {
        self.api_key@
    }

    pub closed spec fn ollama_url(&self) -> Option<Seq<char>> {
        opt_view(self.ollama_base_url)
    }

    pub closed spec fn the_provider(&self) -> AiProvider {
        self.provider
    }

    pub closed spec fn the_model(&self) -> Seq<char> {
        self.model@
    }

    /// The HTTP client the requests go through.
    pub closed spec fn the_http_client(&self) -> reqwest::Client {
        self.client
    }

    /// The provider the client talks to.
    pub fn provider(&self) -> (r: AiProvider)
        ensures
            r == self.the_provider(),
    {
        self.provider
    }

    /// The model the client asks for.
    pub fn model(&self) -> (r: &str)
        ensures
            r@ == self.the_model(),
    {
        self.model.as_str()
    }

    /// A client for the provider a configuration names. The key comes from
    /// the provider's environment variable (`env_*`, as read by the caller)
    /// or else from the configuration; it is trimmed and must not be empty,
    /// except for Ollama, which needs none.
    pub fn new(
        client: reqwest::Client,
        model: String,
        provider_str: &str,
        env_openrouter_key: Option<String>,
        env_gemini_key: Option<String>,
        config_openrouter_key: Option<String>,
        config_gemini_key: Option<String>,
        config_ollama_url: Option<String>,
    ) -> (r: Result<AiClient, AiError>)
        ensures
            ({
                let p = provider_of_name(lower(provider_str@));
                let k = resolved_key(
                    p,
                    opt_view(env_openrouter_key),
                    opt_view(env_gemini_key),
                    opt_view(config_openrouter_key),
                    opt_view(config_gemini_key),
                );
                match r {
                    Ok(c) => k == Ok::<Seq<char>, Seq<char>>(c.key()) && c.the_provider() == p && c.the_model()
                        == model@ && c.ollama_url() == opt_view(config_ollama_url) && c.the_http_client() == client,
                    Err(e) => k matches Err(m) && e matches AiError::Stream(em) && em@ == m,
                }
            }),
    {
        let provider = provider_from_name(provider_str);
        let raw: Option<String> = match provider {
            AiProvider::OpenRouter => if env_openrouter_key.is_some() {
                env_openrouter_key
            } else {
                config_openrouter_key
            },
            AiProvider::Gemini => if env_gemini_key.is_some() {
                env_gemini_key
            } else {
                config_gemini_key
            },
            AiProvider::Ollama => Some(String::new()),
        };
        let raw = match raw {
            Some(k) => k,
            None => {
                let mut m: Vec<char> = Vec::new();
                push_str(&mut m, "No API key found. Set ");
                if provider == AiProvider::Gemini {
                    push_str(&mut m, "GEMINI_API_KEY");
                } else {
                    push_str(&mut m, "OPENROUTER_API_KEY");
                }
                push_str(&mut m, " or add it to config.toml");
                return Err(AiError::Stream(string_of(&m)));
            },
        };
        let key = trim_exec(&chars_of(raw.as_str()));
        if provider != AiProvider::Ollama && key.len() == 0 {
            return Err(AiError::Stream(String::from_str("API Key is empty")));
        }
        Ok(AiClient {
            client,
            api_key: string_of(&key),
            provider,
            model,
            ollama_base_url: config_ollama_url,
        })
    }

    /// The base URL of the client's API.
    pub fn get_base_url(&self) -> (r: String)
        ensures
            r@ == base_url(self.the_provider(), self.ollama_url()),
    {
        match self.provider {
            AiProvider::OpenRouter => String::from_str("https://openrouter.ai/api/v1"),
            AiProvider::Gemini => String::from_str("https://generativelanguage.googleapis.com/v1beta"),
            AiProvider::Ollama => match &self.ollama_base_url {
                Some(u) => u.clone(),
                None => String::from_str("http://localhost:11434"),
            },
        }
    }

    /// The HTTP client requests go through.
    pub fn http(&self) -> (r: &reqwest::Client)
        ensures
            *r == self.the_http_client(),
    {
        &self.client
    }

    /// The API key requests carry.
    pub fn api_key(&self) -> (r: &str)
        ensures
            r@ == self.key(),
    {
        self.api_key.as_str()
    }
}


/// A function call in Gemini's format, its arguments as JSON text.
#[derive(Debug, Clone)]
pub struct GeminiFunctionCall {
    pub name: String,
    pub args: String,
    pub thought_signature: Option<String>,
}

/// A function result in Gemini's format: `{"result": ...}` with this text.
#[derive(Debug, Clone)]
pub struct GeminiFunctionResponse {
    pub name: String,
    pub result: String,
}

/// One part of a Gemini message.
#[derive(Debug, Clone)]
pub struct GeminiPart {
    pub text: Option<String>,
    pub function_call: Option<GeminiFunctionCall>,
    pub function_response: Option<GeminiFunctionResponse>,
}

/// A Gemini message.
#[derive(Debug, Clone)]
pub struct GeminiContent {
    pub role: Option<String>,
    pub parts: Vec<GeminiPart>,
}

/// A tool in Gemini's format.
#[derive(Debug, Clone)]
pub struct GeminiFunctionDeclaration {
    pub name: String,
    pub description: String,
    pub parameters: ToolParameters,
}

/// The tool list of a Gemini request.
#[derive(Debug, Clone)]
pub struct GeminiTool {
    pub function_declarations: Vec<GeminiFunctionDeclaration>,
}

pub type CallView = (Seq<char>, Seq<char>, Option<Seq<char>>);

pub type PartView = (Option<Seq<char>>, Option<CallView>, Option<(Seq<char>, Seq<char>)>);

pub type ContentView = (Option<Seq<char>>, Seq<PartView>);

pub open spec fn part_view(p: GeminiPart) -> PartView {
    (
        opt_view(p.text),
        match p.function_call {
            Some(c) => Some((c.name@, c.args@, opt_view(c.thought_signature))),
            None => None,
        },
        match p.function_response {
            Some(r) => Some((r.name@, r.result@)),
            None => None,
        },
    )
}

pub open spec fn content_view(c: GeminiContent) -> ContentView {
    (opt_view(c.role), c.parts@.map_values(|p: GeminiPart| part_view(p)))
}

pub open spec fn text_part(t: Option<Seq<char>>) -> PartView {
    (t, None, None)
}

/// The arguments a function call carries to Gemini: the call's JSON text
/// in normal form, or the empty object `{}` where it is not JSON.
pub open spec fn call_args(arguments: Seq<char>) -> Seq<char> {
    match json_normalized(arguments) {
        Some(n) => n,
        None => "{}"@,
    }
}

fn call_args_exec(arguments: &String) -> (r: String)
    ensures
        r@ == call_args(arguments@),
{
    match json_normalize(arguments.as_str()) {
        Some(n) => n,
        None => String::from_str("{}"),
    }
}

/// The parts of an assistant message: its text (if any), then one function
/// call per tool call.
pub open spec fn call_parts(calls: Seq<ToolCall>) -> Seq<PartView>
    decreases calls.len(),
{
    if calls.len() == 0 {
        seq![]
    } else {
        call_parts(calls.drop_last()).push(
            (None, Some((calls.last().function.name@, call_args(calls.last().function.arguments@), None)), None),
        )
    }
}

pub open spec fn unwrap_or_empty(o: Option<String>) -> Seq<char> {
    match o {
        Some(s) => s@,
        None => seq![],
    }
}

/// The Gemini conversation for `messages`: the last system message with
/// content becomes the system instruction, and every other message a
/// content entry (`user` for user and tool messages, `model` for the
/// assistant's).
pub open spec fn gemini_conversation(messages: Seq<Message>) -> (Option<ContentView>, Seq<ContentView>)
    decreases messages.len(),
{
    if messages.len() == 0 {
        (None, seq![])
    } else {
        let (sys, cs) = gemini_conversation(messages.drop_last());
        let m = messages.last();
        match m.role {
            Role::System => match m.content {
                Some(c) => (Some((None, seq![text_part(Some(c@))])), cs),
                None => (sys, cs),
            },
            Role::User => (sys, cs.push((Some("user"@), seq![text_part(opt_view(m.content))]))),
            Role::Assistant => (sys, cs.push((Some("model"@), (match m.content {
                Some(c) => seq![text_part(Some(c@))],
                None => seq![],
            }) + match m.tool_calls {
                Some(calls) => call_parts(calls@),
                None => seq![],
            }))),
            Role::Tool => (sys, cs.push((Some("user"@), seq![(None, None, Some((unwrap_or_empty(m.tool_call_id), unwrap_or_empty(m.content))))]))),
        }
    }
}

fn text_part_exec(t: Option<String>) -> (r: GeminiPart)
    ensures
        part_view(r) == text_part(opt_view(t)),
{
    GeminiPart { text: t, function_call: None, function_response: None }
}

fn clone_opt(o: &Option<String>) -> (r: Option<String>)
    ensures
        opt_view(r) == opt_view(*o),
{
    match o {
        Some(s) => Some(string_of(&chars_of(s.as_str()))),
        None => None,
    }
}

fn copy_string(s: &String) -> (r: String)
    ensures
        r@ == s@,
{
    string_of(&chars_of(s.as_str()))
}

/// Maps chat messages to Gemini's native format (system instruction and
/// conversation contents).
pub fn map_messages_to_gemini(messages: &Vec<Message>) -> (r: (Option<GeminiContent>, Vec<GeminiContent>))
    ensures
        ({
            let (sys, cs) = gemini_conversation(messages@);
            &&& match r.0 {
                Some(c) => sys == Some(content_view(c)),
                None => sys is None,
            }
            &&& r.1@.map_values(|c: GeminiContent| content_view(c)) == cs
        }),
{
    let mut sys: Option<GeminiContent> = None;
    let mut contents: Vec<GeminiContent> = Vec::new();
    let mut i: usize = 0;
    while i < messages.len()
        invariant
            i <= messages.len(),
            ({
                let (s0, c0) = gemini_conversation(messages@.take(i as int));
                &&& match sys {
                    Some(c) => s0 == Some(content_view(c)),
                    None => s0 is None,
                }
                &&& contents@.map_values(|c: GeminiContent| content_view(c)) == c0
            }),
        decreases messages.len() - i,
    {
        assert(messages@.take(i + 1).drop_last() =~= messages@.take(i as int));
        let m = &messages[i];
        let ghost cv0 = contents@.map_values(|c: GeminiContent| content_view(c));
        match m.role {
            Role::System => {
                match &m.content {
                    Some(c) => {
                        let part = text_part_exec(Some(copy_string(c)));
                        let parts = vec![part];
                        let g = GeminiContent { role: None, parts };
                        assert(content_view(g) =~~= (None, seq![text_part(Some(c@))]));
                        sys = Some(g);
                    },
                    None => {},
                }
            },
            Role::User => {
                let part = text_part_exec(clone_opt(&m.content));
                let parts = vec![part];
                let g = GeminiContent { role: Some(String::from_str("user")), parts };
                assert(content_view(g) =~~= (Some("user"@), seq![text_part(opt_view(m.content))]));
                contents.push(g);
                assert(contents@.map_values(|c: GeminiContent| content_view(c)) =~= cv0.push(content_view(g)));
            },
            Role::Assistant => {
                let mut parts: Vec<GeminiPart> = Vec::new();
                match &m.content {
                    Some(c) => {
                        parts.push(text_part_exec(Some(copy_string(c))));
                    },
                    None => {},
                }
                let ghost p0 = parts@.map_values(|p: GeminiPart| part_view(p));
                match &m.tool_calls {
                    Some(calls) => {
                        let mut k: usize = 0;
                        while k < calls.len()
                            invariant
                                k <= calls.len(),
                                parts@.map_values(|p: GeminiPart| part_view(p)) == p0 + call_parts(calls@.take(k as int)),
                            decreases calls.len() - k,
                        {
                            let call = &calls[k];
                            let fc = GeminiFunctionCall {
                                name: copy_string(&call.function.name),
                                args: call_args_exec(&call.function.arguments),
                                thought_signature: None,
                            };
                            let part = GeminiPart { text: None, function_call: Some(fc), function_response: None };
                            let ghost pb = parts@.map_values(|p: GeminiPart| part_view(p));
                            parts.push(part);
                            assert(calls@.take(k + 1).drop_last() =~= calls@.take(k as int));
                            assert(parts@.map_values(|p: GeminiPart| part_view(p)) =~= pb.push(part_view(part)));
                            k = k + 1;
                        }
                        assert(calls@.take(calls.len() as int) =~= calls@);
                    },
                    None => {
                        assert(parts@.map_values(|p: GeminiPart| part_view(p)) =~= p0 + seq![]);
                    },
                }
                let g = GeminiContent { role: Some(String::from_str("model")), parts };
                proof {
                    let mc = m.content;
                    let mt = m.tool_calls;
                    let expected: ContentView = (Some("model"@), (match mc {
                        Some(c) => seq![text_part(Some(c@))],
                        None => seq![],
                    }) + match mt {
                        Some(calls) => call_parts(calls@),
                        None => seq![],
                    });
                    assert(p0 =~= match mc {
                        Some(c) => seq![text_part(Some(c@))],
                        None => seq![],
                    });
                    assert(content_view(g) =~~= expected);
                }
                contents.push(g);
                assert(contents@.map_values(|c: GeminiContent| content_view(c)) =~= cv0.push(content_view(g)));
            },
            Role::Tool => {
                let name = match &m.tool_call_id {
                    Some(s) => copy_string(s),
                    None => String::new(),
                };
                let result = match &m.content {
                    Some(s) => copy_string(s),
                    None => String::new(),
                };
                let part = GeminiPart {
                    text: None,
                    function_call: None,
                    function_response: Some(GeminiFunctionResponse { name, result }),
                };
                let g = GeminiContent { role: Some(String::from_str("user")), parts: vec![part] };
                assert(content_view(g) =~~= (Some("user"@), seq![(None::<Seq<char>>, None::<CallView>, Some((unwrap_or_empty(m.tool_call_id), unwrap_or_empty(m.content))))]));
                contents.push(g);
                assert(contents@.map_values(|c: GeminiContent| content_view(c)) =~= cv0.push(content_view(g)));
            },
        }
        i = i + 1;
    }
    assert(messages@.take(messages.len() as int) =~= messages@);
    (sys, contents)
}

/// How many messages are not system messages.
pub open spec fn turn_count(ms: Seq<Message>) -> nat
    decreases ms.len(),
{
    if ms.len() == 0 {
        0
    } else {
        turn_count(ms.drop_last()) + if ms.last().role == Role::System {
            0nat
        } else {
            1nat
        }
    }
}

/// Mapped to Gemini's format, a conversation keeps one entry per message
/// that is not a system message, each from the user or the model.
pub proof fn lemma_gemini_keeps_turns(ms: Seq<Message>)
    ensures
        gemini_conversation(ms).1.len() == turn_count(ms),
        forall|k: int| 0 <= k < gemini_conversation(ms).1.len() ==> (#[trigger] gemini_conversation(ms).1[k]).0
            == Some("user"@) || gemini_conversation(ms).1[k].0 == Some("model"@),
    decreases ms.len(),
{
    if ms.len() > 0 {
        lemma_gemini_keeps_turns(ms.drop_last());
        let prev = gemini_conversation(ms.drop_last()).1;
        let cur = gemini_conversation(ms).1;
        assert forall|k: int| 0 <= k < cur.len() implies (#[trigger] cur[k]).0 == Some("user"@) || cur[k].0 == Some(
            "model"@,
        ) by {
            if k < prev.len() {
                assert(cur[k] == prev[k]);
            }
        }
    }
}

} // verus!
