use relay_bot::config::{Config, ConfigError};

fn api() -> String {
    "abcdef".to_string()
}

#[test]
fn complete_document_loads() {
    let text = "token = \"123:bot\"\nroot_url = \"https://backend.example\"\n\
                cobalt_root_url = \"https://dash.example\"\n";
    assert_eq!(
        Config::load(text, api()),
        Ok(Config {
            root_url: "https://backend.example".to_string(),
            cobalt_root_url: "https://dash.example".to_string(),
            bot_token: "123:bot".to_string(),
            api_token: "abcdef".to_string(),
        })
    );
}

#[test]
fn dashboard_root_defaults_to_the_backend_root() {
    let text = "root_url = \"https://backend.example\"\ntoken = \"123:bot\"\n";
    assert_eq!(
        Config::load(text, api()),
        Ok(Config {
            root_url: "https://backend.example".to_string(),
            cobalt_root_url: "https://backend.example".to_string(),
            bot_token: "123:bot".to_string(),
            api_token: "abcdef".to_string(),
        })
    );
}

#[test]
fn other_entries_are_ignored() {
    let text = "token = \"t\"\nroot_url = \"r\"\nextra = 5\n\n[section]\ntoken = \"inner\"\n";
    let config = Config::load(text, api()).unwrap();
    assert_eq!(config.bot_token, "t");
    assert_eq!(config.root_url, "r");
}

#[test]
fn missing_token_is_reported() {
    assert_eq!(
        Config::load("root_url = \"https://backend.example\"\n", api()),
        Err(ConfigError::MissingToken)
    );
}

#[test]
fn missing_token_is_reported_before_a_missing_root() {
    assert_eq!(Config::load("", api()), Err(ConfigError::MissingToken));
    assert_eq!(Config::load("cobalt_root_url = \"x\"\n", api()), Err(ConfigError::MissingToken));
}

#[test]
fn missing_root_url_is_reported() {
    assert_eq!(Config::load("token = \"123:bot\"\n", api()), Err(ConfigError::MissingRootUrl));
}

#[test]
fn entry_that_is_no_text_counts_as_missing() {
    assert_eq!(
        Config::load("token = 5\nroot_url = \"r\"\n", api()),
        Err(ConfigError::MissingToken)
    );
    assert_eq!(
        Config::load("token = \"t\"\nroot_url = [\"r\"]\n", api()),
        Err(ConfigError::MissingRootUrl)
    );
    let config = Config::load("token = \"t\"\nroot_url = \"r\"\ncobalt_root_url = 1\n", api());
    assert_eq!(config.unwrap().cobalt_root_url, "r");
}

#[test]
fn text_that_is_no_toml_is_malformed() {
    assert!(matches!(Config::load("token = ", api()), Err(ConfigError::Malformed(_))));
    assert!(matches!(Config::load("this is not toml", api()), Err(ConfigError::Malformed(_))));
    assert!(matches!(
        Config::load("token = \"a\"\ntoken = \"b\"\n", api()),
        Err(ConfigError::Malformed(_))
    ));
}

#[test]
fn deeply_nested_document_is_rejected_not_fatal() {
    let text = format!("token = {}{}\n", "[".repeat(5000), "]".repeat(5000));
    assert!(matches!(Config::load(&text, api()), Err(ConfigError::Malformed(_))));
}

#[test]
fn assemble_requires_token_and_root() {
    assert_eq!(Config::assemble(None, None, None, api()), Err(ConfigError::MissingToken));
    assert_eq!(
        Config::assemble(None, Some("r".to_string()), Some("c".to_string()), api()),
        Err(ConfigError::MissingToken)
    );
    assert_eq!(
        Config::assemble(Some("t".to_string()), None, Some("c".to_string()), api()),
        Err(ConfigError::MissingRootUrl)
    );
}

#[test]
fn assemble_places_each_entry() {
    assert_eq!(
        Config::assemble(
            Some("t".to_string()),
            Some("r".to_string()),
            Some("c".to_string()),
            "k".to_string()
        ),
        Ok(Config {
            root_url: "r".to_string(),
            cobalt_root_url: "c".to_string(),
            bot_token: "t".to_string(),
            api_token: "k".to_string(),
        })
    );
    assert_eq!(
        Config::assemble(Some("t".to_string()), Some("r".to_string()), None, "k".to_string()),
        Ok(Config {
            root_url: "r".to_string(),
            cobalt_root_url: "r".to_string(),
            bot_token: "t".to_string(),
            api_token: "k".to_string(),
        })
    );
}
