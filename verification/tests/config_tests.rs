use zar::config::{Config, ConfigFile, ConfigurableKey, KeysConfig, resolve_key_bindings};
use zar::profiles::SourceProfiles;

fn with_keys(keys: Option<KeysConfig>) -> Config {
    Config::from_file(ConfigFile { keys, sources: SourceProfiles::new() })
}

#[test]
fn missing_config_uses_defaults() {
    let config = with_keys(None);
    assert_eq!(config.key_bindings.enter_command_mode, ConfigurableKey::Char('/'));
    assert!(config.startup_warnings.is_empty());
}

#[test]
fn valid_config_overrides_command_trigger() {
    let keys = KeysConfig { enter_command_mode: Some(":".to_string()), ..KeysConfig::default() };
    let config = with_keys(Some(keys));
    assert_eq!(config.key_bindings.enter_command_mode, ConfigurableKey::Char(':'));
}

#[test]
fn invalid_config_key_falls_back_to_default() {
    let keys = KeysConfig { enter_command_mode: Some("spacebar".to_string()), ..KeysConfig::default() };
    let config = with_keys(Some(keys));
    assert_eq!(config.key_bindings.enter_command_mode, ConfigurableKey::Char('/'));
    assert!(!config.startup_warnings.is_empty());
}

#[test]
fn command_trigger_wins_a_conflict() {
    let keys = KeysConfig {
        enter_command_mode: Some("x".to_string()),
        quit: Some("x".to_string()),
        ..KeysConfig::default()
    };
    let (bindings, warnings) = resolve_key_bindings(&Some(keys));
    assert_eq!(bindings.enter_command_mode, ConfigurableKey::Char('x'));
    assert_eq!(bindings.quit, ConfigurableKey::Char('q'));
    assert_eq!(
        warnings,
        vec!["command trigger conflicts with quit binding; command trigger takes precedence".to_string()]
    );
}

#[test]
fn default_config_has_no_profiles() {
    let config = Config::default();
    assert_eq!(config.sources.local.len(), 0);
    assert_eq!(config.sources.ssh.len(), 0);
}

#[test]
fn key_names_ignore_case_and_surrounding_space() {
    assert_eq!(ConfigurableKey::parse(" ESCAPE "), Some(ConfigurableKey::Esc));
    assert_eq!(ConfigurableKey::parse("Tab"), Some(ConfigurableKey::Tab));
    assert_eq!(ConfigurableKey::parse(":"), Some(ConfigurableKey::Char(':')));
    assert_eq!(ConfigurableKey::parse("spacebar"), None);
    assert_eq!(ConfigurableKey::parse(""), None);
    assert_eq!(ConfigurableKey::from_name("right", "RIGHT"), Some(ConfigurableKey::Right));
    assert_eq!(ConfigurableKey::from_name("x", "X"), Some(ConfigurableKey::Char('X')));
    assert_eq!(ConfigurableKey::from_name("xy", "XY"), None);
    for key in [ConfigurableKey::Up, ConfigurableKey::Esc, ConfigurableKey::Char('q'), ConfigurableKey::Char(' ')] {
        assert_eq!(ConfigurableKey::parse(&key.label()), Some(key));
    }
}
