//! The process-wide configuration, read once at start-up from a TOML
//! document.

use vstd::prelude::*;
use crate::lookup::{lookup_view, text_lookup, Texts};
use crate::text::option_text_view;

verus! {

/// The settings every component works from. Nothing changes them after they
/// are loaded.
#[derive(Debug, PartialEq, Eq)]
pub struct Config {
    /// The root address of the backend.
    pub root_url: String,
    /// The root address of the dashboard that token links point to.
    pub cobalt_root_url: String,
    /// The token that authenticates the bot against the chat platform.
    pub bot_token: String,
    /// The access token that is part of every backend address.
    pub api_token: String,
}

/// Why a configuration could not be loaded.
#[derive(Debug, PartialEq, Eq)]
pub enum ConfigError {
    /// The text is not a TOML document; the parser's message is attached.
    Malformed(String),
    /// The document has no text under `token`.
    MissingToken,
    /// The document has no text under `root_url`.
    MissingRootUrl,
}

/// The mathematical content of a [`Config`].
pub struct ConfigView {
    pub root_url: Seq<char>,
    pub cobalt_root_url: Seq<char>,
    pub bot_token: Seq<char>,
    pub api_token: Seq<char>,
}

impl View for Config {
    type V = ConfigView;

    open spec fn view(&self) -> ConfigView {
        ConfigView {
            root_url: self.root_url@,
            cobalt_root_url: self.cobalt_root_url@,
            bot_token: self.bot_token@,
            api_token: self.api_token@,
        }
    }
}

/// The ways loading can fail, without the parser's message.
pub enum ConfigFailure {
    Malformed,
    MissingToken,
    MissingRootUrl,
}

/// The view of what loading returned.
pub open spec fn load_view(r: Result<Config, ConfigError>) -> Result<ConfigView, ConfigFailure> {
    match r {
        Ok(config) => Ok(config@),
        Err(ConfigError::Malformed(_)) => Err(ConfigFailure::Malformed),
        Err(ConfigError::MissingToken) => Err(ConfigFailure::MissingToken),
        Err(ConfigError::MissingRootUrl) => Err(ConfigFailure::MissingRootUrl),
    }
}

/// The configuration that the three entries of a document give. The token
/// and the backend root are required, and a missing token is reported
/// first; without a dashboard root the dashboard is taken to live at the
/// backend root.
pub open spec fn assembled(
    token: Option<Seq<char>>,
    root_url: Option<Seq<char>>,
    cobalt_root_url: Option<Seq<char>>,
    api_token: Seq<char>,
) -> Result<ConfigView, ConfigFailure> {
    match (token, root_url) {
        (None, _) => Err(ConfigFailure::MissingToken),
        (Some(_), None) => Err(ConfigFailure::MissingRootUrl),
        (Some(token), Some(root_url)) => Ok(
            ConfigView {
                root_url,
                cobalt_root_url: match cobalt_root_url {
                    Some(url) => url,
                    None => root_url,
                },
                bot_token: token,
                api_token,
            },
        ),
    }
}

/// What loading makes of the text of a document: a text that the TOML
/// parser rejects is malformed, and any other is judged by its entries
/// `token`, `root_url` and `cobalt_root_url`.
pub open spec fn loaded(text: Seq<char>, api_token: Seq<char>) -> Result<
    ConfigView,
    ConfigFailure,
> {
    let texts = toml_texts(text);
    match texts {
        None => Err(ConfigFailure::Malformed),
        Some(_) => assembled(
            text_lookup(texts, "token"@).unwrap(),
            text_lookup(texts, "root_url"@).unwrap(),
            text_lookup(texts, "cobalt_root_url"@).unwrap(),
            api_token,
        ),
    }
}

/// The top-level entries of the TOML document `text` whose values are
/// strings, by key, as `toml::Value`'s `FromStr` parses it; `None` when the
/// parser rejects the text.
pub uninterp spec fn toml_texts(text: Seq<char>) -> Texts;

/// Parses `text` with `str::parse::<toml::Value>` and looks `key` up in the
/// resulting table with `toml::Value::get` and `toml::Value::as_str`. The
/// contract claims that the outcome is the lookup of `key` in
/// [`toml_texts`]: an error exactly when the parser rejects the text, and
/// otherwise the string under `key`, if the table has one there. Nothing is
/// claimed about the wording of the error.
#[verifier::external_body]
fn toml_text_entry(text: &str, key: &str) -> (found: Result<Option<String>, String>)
    ensures
        lookup_view(found) == text_lookup(toml_texts(text@), key@),
{
    match text.parse::<toml::Value>() {
        Ok(table) => Ok(table.get(key).and_then(toml::Value::as_str).map(str::to_owned)),
        Err(error) => Err(error.to_string()),
    }
}

impl Config {
    /// Assembles the configuration from the entries of the document.
    pub fn assemble(
        token: Option<String>,
        root_url: Option<String>,
        cobalt_root_url: Option<String>,
        api_token: String,
    ) -> (r: Result<Config, ConfigError>)
        ensures
            load_view(r) == assembled(
                option_text_view(token),
                option_text_view(root_url),
                option_text_view(cobalt_root_url),
                api_token@,
            ),
    {
        match token {
            None => Err(ConfigError::MissingToken),
            Some(bot_token) => match root_url {
                None => Err(ConfigError::MissingRootUrl),
                Some(root_url) => {
                    let cobalt_root_url = match cobalt_root_url {
                        Some(url) => url,
                        None => root_url.clone(),
                    };
                    Ok(Config { root_url, cobalt_root_url, bot_token, api_token })
                },
            },
        }
    }

    /// Loads the configuration from the text of a TOML document. The
    /// backend access token is not part of the document and is handed in.
    pub fn load(text: &str, api_token: String) -> (r: Result<Config, ConfigError>)
        ensures
            load_view(r) == loaded(text@, api_token@),
    {
        let token = match toml_text_entry(text, "token") {
            Ok(found) => found,
            Err(message) => {
                return Err(ConfigError::Malformed(message));
            },
        };
        let root_url = match toml_text_entry(text, "root_url") {
            Ok(found) => found,
            Err(message) => {
                return Err(ConfigError::Malformed(message));
            },
        };
        let cobalt_root_url = match toml_text_entry(text, "cobalt_root_url") {
            Ok(found) => found,
            Err(message) => {
                return Err(ConfigError::Malformed(message));
            },
        };
        Config::assemble(token, root_url, cobalt_root_url, api_token)
    }
}

} // verus!
