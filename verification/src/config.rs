//! The user's configuration: which provider and model to use, keys, custom
//! prompts, and where the file lives.
use vstd::prelude::*;
use crate::text::{chars_of, string_of};
use crate::paths::{join_path, join_path_exec};
use crate::ai::opt_view;

verus! {

/// The settings read from `config.toml`.
#[derive(Debug, Clone)]
pub struct Config {
    pub model: String,
    pub provider: String,
    pub api_key: Option<String>,
    pub gemini_api_key: Option<String>,
    pub ollama_base_url: Option<String>,
    pub commit_prompt: Option<String>,
    pub pr_prompt: Option<String>,
    pub max_stale_branches: Option<usize>,
}

impl Default for Config {
    /// Gemini's flash model on the native API, a local Ollama server, no
    /// keys or custom prompts, and 20 branches for a staleness check.
    fn default() -> (r: Config)
        ensures
            r.model@ == "gemini-3-flash-preview"@,
            r.provider@ == "gemini"@,
            r.api_key is None,
            r.gemini_api_key is None,
            opt_view(r.ollama_base_url) == Some("http://localhost:11434"@),
            r.commit_prompt is None,
            r.pr_prompt is None,
            r.max_stale_branches == Some(20usize),
    {
        Config {
            model: String::from_str("gemini-3-flash-preview"),
            provider: String::from_str("gemini"),
            api_key: None,
            gemini_api_key: None,
            ollama_base_url: Some(String::from_str("http://localhost:11434")),
            commit_prompt: None,
            pr_prompt: None,
            max_stale_branches: Some(20),
        }
    }
}

impl Config {
    /// The configuration file in the user's configuration directory:
    /// `<dir>/gogit/config.toml`.
    pub fn config_file_path(config_dir: &str) -> (r: String)
        ensures
            r@ == join_path(join_path(config_dir@, "gogit"@), "config.toml"@),
    {
        let d = join_path_exec(&chars_of(config_dir), &chars_of("gogit"));
        string_of(&join_path_exec(&d, &chars_of("config.toml")))
    }

    /// The configuration with another model.
    pub fn with_model(self, model: String) -> (r: Config)
        ensures
            r == (Config { model, ..self }),
    {
        Config { model, ..self }
    }

    /// The configuration with another provider and its default model.
    pub fn with_provider(self, provider: String, model: String) -> (r: Config)
        ensures
            r == (Config { provider, model, ..self }),
    {
        Config { provider, model, ..self }
    }
}

} // verus!
