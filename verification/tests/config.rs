use voxtype_elevenlabs_adapter::config::{join_path, ConfigError};
use voxtype_elevenlabs_adapter::{credentials_path, env_bool, AdapterState, EnvValue, Environment};

fn set(v: &str) -> EnvValue {
    EnvValue::Value(v.to_owned())
}

fn env() -> Environment {
    Environment {
        credentials: EnvValue::Unset,
        xdg_config_home: EnvValue::Unset,
        home: set("/home/user"),
        api_base: EnvValue::Unset,
        model: EnvValue::Unset,
        no_verbatim: EnvValue::Unset,
    }
}

#[test]
fn boolean_words_in_any_case() {
    for word in ["1", "true", "YES", "On", "tRuE"] {
        assert_eq!(env_bool("X", &set(word), false).unwrap(), true, "{word}");
    }
    for word in ["0", "false", "No", "OFF"] {
        assert_eq!(env_bool("X", &set(word), true).unwrap(), false, "{word}");
    }
    assert_eq!(env_bool("X", &EnvValue::Unset, true).unwrap(), true);
    assert_eq!(env_bool("X", &EnvValue::Unset, false).unwrap(), false);
}

#[test]
fn other_boolean_words_are_refused() {
    let error = env_bool("VOXTYPE_ELEVENLABS_NO_VERBATIM", &set("maybe"), false).unwrap_err();
    assert_eq!(error.message(), "VOXTYPE_ELEVENLABS_NO_VERBATIM must be true or false");
    assert!(env_bool("X", &set(" true"), false).is_err());
    assert!(env_bool("X", &set(""), false).is_err());
}

#[test]
fn non_unicode_boolean_is_an_error() {
    let error = env_bool("X", &EnvValue::NotUnicode("\"\\xFF\"".to_owned()), false).unwrap_err();
    assert_eq!(
        error.message(),
        "environment variable was not valid unicode: \"\\xFF\""
    );
}

#[test]
fn explicit_credentials_path_wins() {
    let mut e = env();
    e.credentials = set("/secrets/key");
    e.xdg_config_home = set("/xdg");
    assert_eq!(credentials_path(&e).unwrap(), "/secrets/key");
}

#[test]
fn xdg_config_home_comes_next() {
    let mut e = env();
    e.xdg_config_home = set("/xdg");
    assert_eq!(
        credentials_path(&e).unwrap(),
        "/xdg/voxtype-elevenlabs-adapter/api-key"
    );
    e.xdg_config_home = set("/xdg/");
    assert_eq!(
        credentials_path(&e).unwrap(),
        "/xdg/voxtype-elevenlabs-adapter/api-key"
    );
    e.xdg_config_home = set("");
    assert_eq!(
        credentials_path(&e).unwrap(),
        "voxtype-elevenlabs-adapter/api-key"
    );
}

#[test]
fn home_config_is_the_fallback() {
    let e = env();
    assert_eq!(
        credentials_path(&e).unwrap(),
        "/home/user/.config/voxtype-elevenlabs-adapter/api-key"
    );
    let mut e = env();
    e.credentials = EnvValue::NotUnicode("x".to_owned());
    e.xdg_config_home = EnvValue::NotUnicode("y".to_owned());
    assert_eq!(
        credentials_path(&e).unwrap(),
        "/home/user/.config/voxtype-elevenlabs-adapter/api-key"
    );
}

#[test]
fn missing_home_is_an_error() {
    let mut e = env();
    e.home = EnvValue::Unset;
    let error = credentials_path(&e).unwrap_err();
    assert!(matches!(error, ConfigError::HomeNotSet));
    assert_eq!(error.message(), "HOME is not set");
}

#[test]
fn absolute_components_replace_the_base() {
    assert_eq!(join_path("/a/b", "/c"), "/c");
    assert_eq!(join_path("a", "b"), "a/b");
    assert_eq!(join_path("a/", "b"), "a/b");
}

#[test]
fn environment_defaults() {
    let state = AdapterState::from_environment(&env()).unwrap();
    assert_eq!(state.api_base(), "https://api.elevenlabs.io");
    assert_eq!(state.model(), "scribe_v2");
    assert!(!state.no_verbatim());
    assert_eq!(
        state.credentials_path(),
        "/home/user/.config/voxtype-elevenlabs-adapter/api-key"
    );
}

#[test]
fn environment_overrides() {
    let mut e = env();
    e.api_base = set("http://localhost:9999//");
    e.model = set("scribe_v1");
    e.no_verbatim = set("yes");
    let state = AdapterState::from_environment(&e).unwrap();
    assert_eq!(state.api_base(), "http://localhost:9999");
    assert_eq!(state.model(), "scribe_v1");
    assert!(state.no_verbatim());
}

#[test]
fn environment_errors_come_in_order() {
    let mut e = env();
    e.home = EnvValue::Unset;
    e.no_verbatim = set("perhaps");
    assert_eq!(
        AdapterState::from_environment(&e).err().unwrap().message(),
        "HOME is not set"
    );
    e.home = set("/h");
    assert_eq!(
        AdapterState::from_environment(&e).err().unwrap().message(),
        "VOXTYPE_ELEVENLABS_NO_VERBATIM must be true or false"
    );
}

#[test]
fn new_state_drops_trailing_slashes() {
    let state = AdapterState::new(
        "/k".to_owned(),
        "http://127.0.0.1:1/".to_owned(),
        "scribe_v2".to_owned(),
        true,
    )
    .unwrap();
    assert_eq!(state.api_base(), "http://127.0.0.1:1");
    assert_eq!(state.credentials_path(), "/k");
    assert!(state.no_verbatim());
}
