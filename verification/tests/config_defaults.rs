//! Tests of the configuration defaults.

use ratatalk::config::{
    default_host, default_model, default_sidebar_width, default_tick_rate, default_timeout,
    default_top_k, default_top_p, default_temperature, default_true, Config,
};

#[test]
fn test_default_values() {
    assert_eq!(default_host(), "http://127.0.0.1:11434");
    assert_eq!(default_timeout(), 30);
    assert_eq!(default_model(), "llama3.2:latest");
    assert_eq!(default_temperature(), 700);
    assert_eq!(default_top_k(), 40);
    assert_eq!(default_top_p(), 900);
    assert!(default_true());
    assert_eq!(default_sidebar_width(), 30);
    assert_eq!(default_tick_rate(), 100);
}

#[test]
fn test_default_config_fields() {
    let config = Config::default();
    assert_eq!(config.server.host, "http://127.0.0.1:11434");
    assert_eq!(config.server.timeout_secs, 30);
    assert_eq!(config.model.default_model, "llama3.2:latest");
    assert_eq!(config.model.max_tokens, 0);
    assert_eq!(config.model.num_ctx, 0);
    assert!(config.ui.show_timestamps);
    assert_eq!(config.ui.tick_rate_ms, 100);
    assert!(!config.keybindings.vim_mode);
}
