//! Configuration: the provider and agent settings, their defaults, how
//! environment overrides apply, and where the configuration file lives.
//!
//! The front end reads the environment and the file; it hands the values
//! here. The temperature is an `f32`; it is held here by its IEEE-754 bit
//! pattern, which the front end parses.

use vstd::prelude::*;

use crate::llm::{trim_end_slashes, OpenAiCompatibleProvider};
use crate::text::{chars_of, parse_unsigned, parse_unsigned_chars};
use crate::tools::{contains_text, first_match, resolve_path, resolved_path};

verus! {

/// The provider name used unless configured otherwise.
pub fn default_provider_name() -> (s: String)
    ensures
        s@ == "openai"@,
{
    String::from_str("openai")
}

/// The endpoint used unless configured otherwise.
pub fn default_base_url() -> (s: String)
    ensures
        s@ == "https://api.openai.com/v1"@,
{
    String::from_str("https://api.openai.com/v1")
}

/// The model used unless configured otherwise.
pub fn default_model() -> (s: String)
    ensures
        s@ == "gpt-4o-mini"@,
{
    String::from_str("gpt-4o-mini")
}

/// The sampling temperature used unless configured otherwise: 0.0, as the
/// bits of an `f32`.
pub fn default_temperature_bits() -> (b: u32)
    ensures
        b == 0,
{
    0
}

/// The completion token limit used unless configured otherwise.
pub fn default_max_tokens() -> (n: u32)
    ensures
        n == 8192,
{
    8192
}

/// The agent loop's iteration cap used unless configured otherwise.
pub fn default_max_iterations() -> (n: usize)
    ensures
        n == 40,
{
    40
}

/// LLM provider configuration.
#[derive(Debug, Clone)]
pub struct ProviderConfig {
    /// Provider name for display (e.g. "openai", "lm-studio", "ollama").
    pub name: String,
    /// Base URL of an OpenAI-compatible Chat Completions endpoint.
    pub base_url: String,
    /// API key (bearer token).
    pub api_key: String,
    /// Default model id to use for completions.
    pub model: String,
    /// Default temperature, as the IEEE-754 bits of an `f32`.
    pub temperature_bits: u32,
    /// Default max tokens.
    pub max_tokens: u32,
}

impl Default for ProviderConfig {
    fn default() -> (c: ProviderConfig)
        ensures
            c.name@ == "openai"@,
            c.base_url@ == "https://api.openai.com/v1"@,
            c.api_key@ == Seq::<char>::empty(),
            c.model@ == "gpt-4o-mini"@,
            c.temperature_bits == 0,
            c.max_tokens == 8192,
    {
        ProviderConfig {
            name: default_provider_name(),
            base_url: default_base_url(),
            api_key: String::new(),
            model: default_model(),
            temperature_bits: default_temperature_bits(),
            max_tokens: default_max_tokens(),
        }
    }
}

/// Agent loop configuration.
#[derive(Debug, Clone, Copy)]
pub struct AgentConfig {
    pub max_iterations: usize,
}

impl Default for AgentConfig {
    fn default() -> (c: AgentConfig)
        ensures
            c.max_iterations == 40,
    {
        AgentConfig { max_iterations: default_max_iterations() }
    }
}

/// Top-level configuration.
#[derive(Debug, Clone)]
pub struct Config {
    pub provider: ProviderConfig,
    pub agent: AgentConfig,
}

impl Default for Config {
    fn default() -> (c: Config)
        ensures
            c.provider.name@ == "openai"@,
            c.provider.base_url@ == "https://api.openai.com/v1"@,
            c.provider.api_key@ == Seq::<char>::empty(),
            c.provider.model@ == "gpt-4o-mini"@,
            c.provider.temperature_bits == 0,
            c.provider.max_tokens == 8192,
            c.agent.max_iterations == 40,
    {
        Config { provider: ProviderConfig::default(), agent: AgentConfig::default() }
    }
}

/// The environment variables the configuration reads, as found.
#[derive(Debug, Clone)]
pub struct EnvOverrides {
    /// `CHIMERA_PROVIDER`.
    pub provider: Option<String>,
    /// `CHIMERA_BASE_URL`.
    pub base_url: Option<String>,
    /// `CHIMERA_API_KEY`.
    pub api_key: Option<String>,
    /// `CHIMERA_MODEL`.
    pub model: Option<String>,
    /// `CHIMERA_TEMPERATURE`, when it parses as an `f32`: its bits.
    pub temperature_bits: Option<u32>,
    /// `CHIMERA_MAX_TOKENS`.
    pub max_tokens: Option<String>,
    /// `CHIMERA_MAX_ITERATIONS`.
    pub max_iterations: Option<String>,
    /// `OPENAI_API_KEY`.
    pub openai_api_key: Option<String>,
}

/// A text override: the variable's value when it is set.
pub open spec fn overridden(current: Seq<char>, var: Option<String>) -> Seq<char> {
    match var {
        Some(v) => v@,
        None => current,
    }
}

/// A number override: the variable's value when it is set and parses.
pub open spec fn overridden_number(current: nat, var: Option<String>, max: nat) -> nat {
    match var {
        Some(v) => match parse_unsigned(v@, max) {
            Some(n) => n,
            None => current,
        },
        None => current,
    }
}

/// The API key after the overrides: `CHIMERA_API_KEY` when set, and
/// `OPENAI_API_KEY` when the key is still empty.
pub open spec fn key_after(current: Seq<char>, env: EnvOverrides) -> Seq<char> {
    let k = overridden(current, env.api_key);
    if k.len() == 0 {
        overridden(k, env.openai_api_key)
    } else {
        k
    }
}

fn override_text(current: &mut String, var: &Option<String>)
    ensures
        final(current)@ == overridden(old(current)@, *var),
{
    match var {
        Some(v) => {
            *current = v.clone();
        },
        None => {},
    }
}

impl Config {
    /// Override the configuration with the environment variables that are
    /// set; a number that does not parse leaves its setting as it was.
    pub fn apply_env(&mut self, env: &EnvOverrides)
        ensures
            final(self).provider.name@ == overridden(old(self).provider.name@, env.provider),
            final(self).provider.base_url@ == overridden(old(self).provider.base_url@, env.base_url),
            final(self).provider.model@ == overridden(old(self).provider.model@, env.model),
            final(self).provider.api_key@ == key_after(old(self).provider.api_key@, *env),
            final(self).provider.temperature_bits == match env.temperature_bits {
                Some(b) => b,
                None => old(self).provider.temperature_bits,
            },
            final(self).provider.max_tokens == overridden_number(
                old(self).provider.max_tokens as nat,
                env.max_tokens,
                u32::MAX as nat,
            ),
            final(self).agent.max_iterations == overridden_number(
                old(self).agent.max_iterations as nat,
                env.max_iterations,
                usize::MAX as nat,
            ),
    {
        override_text(&mut self.provider.name, &env.provider);
        override_text(&mut self.provider.base_url, &env.base_url);
        override_text(&mut self.provider.api_key, &env.api_key);
        override_text(&mut self.provider.model, &env.model);
        match env.temperature_bits {
            Some(b) => {
                self.provider.temperature_bits = b;
            },
            None => {},
        }
        match &env.max_tokens {
            Some(m) => {
                match parse_unsigned_chars(&chars_of(m.as_str()), 0xffff_ffff) {
                    Some(n) => {
                        self.provider.max_tokens = n as u32;
                    },
                    None => {},
                }
            },
            None => {},
        }
        match &env.max_iterations {
            Some(m) => {
                match parse_unsigned_chars(&chars_of(m.as_str()), usize::MAX as u64) {
                    Some(n) => {
                        self.agent.max_iterations = n as usize;
                    },
                    None => {},
                }
            },
            None => {},
        }
        if self.provider.api_key.as_str().is_empty() {
            override_text(&mut self.provider.api_key, &env.openai_api_key);
        }
    }

    /// An OpenAI-compatible provider for this configuration, sending its
    /// requests with `client`.
    pub fn build_provider(&self, client: reqwest::Client) -> (p: OpenAiCompatibleProvider)
        ensures
            p.name_view() == self.provider.name@,
            p.base_url_view() == trim_end_slashes(self.provider.base_url@),
            p.api_key_view() == self.provider.api_key@,
    {
        OpenAiCompatibleProvider::new(
            self.provider.name.as_str(),
            self.provider.base_url.as_str(),
            self.provider.api_key.as_str(),
            client,
        )
    }

    /// Whether a run needs an API key that is missing: the key is empty and
    /// the endpoint is neither on `localhost` nor on `127.0.0.1`.
    pub fn missing_api_key(&self) -> (b: bool)
        ensures
            b == (self.provider.api_key@.len() == 0 && first_match(
                self.provider.base_url@,
                "localhost"@,
            ) is None && first_match(self.provider.base_url@, "127.0.0.1"@) is None),
    {
        self.provider.api_key.as_str().is_empty() && !contains_text(
            self.provider.base_url.as_str(),
            "localhost",
        ) && !contains_text(self.provider.base_url.as_str(), "127.0.0.1")
    }
}

/// The configuration directory under a home directory: `~/.chimera`.
pub open spec fn config_dir_of(home: Seq<char>) -> Seq<char> {
    resolved_path(".chimera"@, Some(home))
}

/// The configuration directory, given `$HOME`.
pub fn config_dir(home: &Option<String>) -> (d: Option<String>)
    ensures
        match home {
            Some(h) => d matches Some(s) && s@ == config_dir_of(h@),
            None => d is None,
        },
{
    match home {
        Some(h) => Some(resolve_path(".chimera", &Some(h.clone()))),
        None => None,
    }
}

/// The configuration file, given `$CHIMERA_CONFIG` and `$HOME`: the first
/// when set, else `~/.chimera/config.json`.
pub fn config_file_path(chimera_config: &Option<String>, home: &Option<String>) -> (p: Option<String>)
    ensures
        match chimera_config {
            Some(c) => p matches Some(s) && s@ == c@,
            None => match home {
                Some(h) => p matches Some(s) && s@ == resolved_path(
                    "config.json"@,
                    Some(config_dir_of(h@)),
                ),
                None => p is None,
            },
        },
{
    match chimera_config {
        Some(c) => Some(c.clone()),
        None => match config_dir(home) {
            Some(d) => Some(resolve_path("config.json", &Some(d))),
            None => None,
        },
    }
}

} // verus!
