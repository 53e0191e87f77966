//! Configuration the orchestrator consumes: server address, generation
//! defaults and UI settings. Loading and saving the on-disk file happens
//! outside the crate; the values arrive here as plain data.
//!
//! Sampling parameters that are fractional on the wire (temperature,
//! top-p, repeat penalty) are carried as thousandths, so `700` stands
//! for `0.7`.

use vstd::prelude::*;

verus! {

/// Where the model server listens and how long a request may take.
#[derive(Debug, Clone)]
pub struct ServerConfig {
    /// Base URL of the model server.
    pub host: String,
    /// Request timeout in seconds.
    pub timeout_secs: u64,
}

/// Default generation settings for new sessions.
#[derive(Debug, Clone)]
pub struct ModelConfig {
    /// Model used by fresh sessions.
    pub default_model: String,
    /// Sampling temperature, in thousandths.
    pub temperature: u32,
    /// Top-k sampling cutoff.
    pub top_k: u32,
    /// Nucleus sampling cutoff, in thousandths.
    pub top_p: u32,
    /// Maximum tokens to generate; zero means unlimited.
    pub max_tokens: u32,
    /// Context window size; zero means the model's default.
    pub num_ctx: u32,
}

/// Presentation settings.
#[derive(Debug, Clone)]
pub struct UiConfig {
    /// Show timestamps beside messages.
    pub show_timestamps: bool,
    /// Show the token count in the status bar.
    pub show_token_count: bool,
    /// Width of the session sidebar in characters.
    pub sidebar_width: u16,
    /// React to mouse input.
    pub mouse_support: bool,
    /// How long one tick of the event loop waits for input, in
    /// milliseconds.
    pub tick_rate_ms: u64,
}

/// Keybinding overrides.
#[derive(Debug, Clone)]
pub struct KeybindingsConfig {
    /// Whether vim-style bindings are preferred.
    pub vim_mode: bool,
}

/// The whole configuration handed to the orchestrator at startup.
#[derive(Debug, Clone)]
pub struct Config {
    /// Server settings.
    pub server: ServerConfig,
    /// Generation defaults.
    pub model: ModelConfig,
    /// Presentation settings.
    pub ui: UiConfig,
    /// Keybinding overrides.
    pub keybindings: KeybindingsConfig,
}

/// The server address assumed when the configuration names none.
pub fn default_host() -> (r: String)
    ensures
        r@ == "http://127.0.0.1:11434"@,
{
    let r = "http://127.0.0.1:11434";
    r.to_owned()
}

/// The request timeout assumed when the configuration names none.
pub fn default_timeout() -> (r: u64)
    ensures
        r == 30u64,
{
    30
}

/// The model assumed when the configuration names none.
pub fn default_model() -> (r: String)
    ensures
        r@ == "llama3.2:latest"@,
{
    let r = "llama3.2:latest";
    r.to_owned()
}

/// The default sampling temperature, in thousandths.
pub fn default_temperature() -> (r: u32)
    ensures
        r == 700u32,
{
    700
}

/// The default top-k cutoff.
pub fn default_top_k() -> (r: u32)
    ensures
        r == 40u32,
{
    40
}

/// The default nucleus sampling cutoff, in thousandths.
pub fn default_top_p() -> (r: u32)
    ensures
        r == 900u32,
{
    900
}

/// The default of the boolean settings that are on unless switched off.
pub fn default_true() -> (r: bool)
    ensures
        r == true,
{
    true
}

/// The default sidebar width.
pub fn default_sidebar_width() -> (r: u16)
    ensures
        r == 30u16,
{
    30
}

/// The default tick interval in milliseconds.
pub fn default_tick_rate() -> (r: u64)
    ensures
        r == 100u64,
{
    100
}

impl Default for ServerConfig {
    /// The server settings used when the configuration file has none.
    fn default() -> (r: ServerConfig)
        ensures
            r.host@ == "http://127.0.0.1:11434"@,
            r.timeout_secs == 30u64,
    {
        ServerConfig { host: default_host(), timeout_secs: default_timeout() }
    }
}

impl Default for ModelConfig {
    /// The generation defaults used when the configuration file has none.
    fn default() -> (r: ModelConfig)
        ensures
            r.default_model@ == "llama3.2:latest"@,
            r.temperature == 700u32,
            r.top_k == 40u32,
            r.top_p == 900u32,
            r.max_tokens == 0u32,
            r.num_ctx == 0u32,
    {
        ModelConfig {
            default_model: default_model(),
            temperature: default_temperature(),
            top_k: default_top_k(),
            top_p: default_top_p(),
            max_tokens: 0,
            num_ctx: 0,
        }
    }
}

impl Default for UiConfig {
    /// The presentation settings used when the configuration file has
    /// none.
    fn default() -> (r: UiConfig)
        ensures
            r.show_timestamps == true,
            r.show_token_count == true,
            r.sidebar_width == 30u16,
            r.mouse_support == true,
            r.tick_rate_ms == 100u64,
    {
        UiConfig {
            show_timestamps: default_true(),
            show_token_count: default_true(),
            sidebar_width: default_sidebar_width(),
            mouse_support: default_true(),
            tick_rate_ms: default_tick_rate(),
        }
    }
}

impl Default for KeybindingsConfig {
    /// The keybinding overrides used when the configuration file has
    /// none.
    fn default() -> (r: KeybindingsConfig)
        ensures
            r.vim_mode == false,
    {
        KeybindingsConfig { vim_mode: false }
    }
}

impl Default for Config {
    /// The configuration used when no file exists.
    fn default() -> (r: Config)
        ensures
            r.server.host@ == "http://127.0.0.1:11434"@,
            r.server.timeout_secs == 30u64,
            r.model.default_model@ == "llama3.2:latest"@,
            r.model.temperature == 700u32,
            r.model.top_k == 40u32,
            r.model.top_p == 900u32,
            r.model.max_tokens == 0u32,
            r.model.num_ctx == 0u32,
            r.ui.tick_rate_ms == 100u64,
    {
        Config {
            server: Default::default(),
            model: Default::default(),
            ui: Default::default(),
            keybindings: Default::default(),
        }
    }
}

} // verus!
