use vstd::prelude::*;
use vstd::string::*;
use crate::decimal::{decimal_i64, decimal_text, lemma_decimal_text_round_trip, parse_i64};
use crate::ini::{ini_get, ini_new, ini_parse, ini_read, IniValues};

verus! {

/// The configuration file read when the environment gives no configuration
/// and `CONFIG_PATH` is unset.
pub const DEFAULT_CONFIG_PATH: &'static str = "/etc/botsnitcher/conf.ini";

/// The configuration file to read: the value of `CONFIG_PATH` where it is
/// set, else the default path.
pub fn config_file_path(override_path: Option<String>) -> (r: String)
    ensures
        r@ == match override_path {
            Some(p) => p@,
            None => DEFAULT_CONFIG_PATH@,
        },
{
    match override_path {
        Some(p) => p,
        None => DEFAULT_CONFIG_PATH.to_string(),
    }
}

/// Identifier of a destination chat, as the messaging service numbers it.
#[derive(Clone, Copy, Debug, PartialEq, Eq, Structural)]
pub struct ChatId(pub i64);

/// Bot credentials: the destination chat and the API token. Both are always
/// present; a partial configuration is never built.
pub struct BotConfiguration {
    chat_id: ChatId,
    token_api: String,
}

/// Why a configuration could not be resolved, with a readable detail.
#[derive(Debug)]
pub enum InitializationError {
    ChatIdError(String),
    TokenError(String),
}

/// A failure as the contracts see it: its kind and its detail.
pub enum Failure {
    ChatId(Seq<char>),
    Token(Seq<char>),
}

impl View for BotConfiguration {
    /// The chat id and the token.
    type V = (i64, Seq<char>);

    closed spec fn view(&self) -> (i64, Seq<char>) {
        (self.chat_id.0, self.token_api@)
    }
}

impl View for InitializationError {
    type V = Failure;

    open spec fn view(&self) -> Failure {
        match self {
            InitializationError::ChatIdError(m) => Failure::ChatId(m@),
            InitializationError::TokenError(m) => Failure::Token(m@),
        }
    }
}

/// The outcome of a resolution as the contracts see it.
pub type Outcome = Result<(i64, Seq<char>), Failure>;

pub open spec fn outcome_of(r: Result<BotConfiguration, InitializationError>) -> Outcome {
    match r {
        Ok(c) => Ok(c@),
        Err(e) => Err(e@),
    }
}

pub open spec fn opt_view(s: Option<&str>) -> Option<Seq<char>> {
    match s {
        Some(t) => Some(t@),
        None => None,
    }
}

/// Resolution from the environment: the chat id is looked at first, then the
/// token.
pub open spec fn env_outcome(chat_id: Option<Seq<char>>, token: Option<Seq<char>>) -> Outcome {
    match chat_id {
        None => Err(Failure::ChatId("Could not find env var CHAT_ID"@)),
        Some(s) => match decimal_i64(s) {
            None => Err(Failure::ChatId("Invalid value of env vars"@)),
            Some(n) => match token {
                None => Err(Failure::Token("Could not find env var TELOXIDE_TOKEN"@)),
                Some(t) => Ok((n, t)),
            },
        },
    }
}

/// The values of a configuration file; an absent or unreadable file, or one
/// that does not parse, holds none.
pub open spec fn file_values(contents: Option<Seq<char>>) -> IniValues {
    match contents {
        Some(t) => match ini_parse(t) {
            Some(m) => m,
            None => IniValues::empty(),
        },
        None => IniValues::empty(),
    }
}

/// The value of a key of the default section of a configuration file.
pub open spec fn file_entry(contents: Option<Seq<char>>, key: Seq<char>) -> Option<Seq<char>> {
    let m = file_values(contents);
    if m.contains_key(("default"@, key)) {
        Some(m[("default"@, key)])
    } else {
        None
    }
}

/// Resolution from a configuration file: the token is looked at first, then
/// the chat id.
pub open spec fn file_outcome(contents: Option<Seq<char>>) -> Outcome {
    match file_entry(contents, "token_api"@) {
        None => Err(Failure::Token("Could not find token_api"@)),
        Some(t) => match file_entry(contents, "chat_id"@) {
            None => Err(Failure::ChatId("Config chat_id not found"@)),
            Some(s) => match decimal_i64(s) {
                None => Err(Failure::ChatId("Config chat_id invalid"@)),
                Some(n) => Ok((n, t)),
            },
        },
    }
}

fn chat_id_env(value: Option<&str>) -> (r: Result<ChatId, InitializationError>)
    ensures
        match opt_view(value) {
            None => r matches Err(e) && e@ == Failure::ChatId("Could not find env var CHAT_ID"@),
            Some(s) => match decimal_i64(s) {
                None => r matches Err(e) && e@ == Failure::ChatId("Invalid value of env vars"@),
                Some(n) => r matches Ok(c) && c.0 == n,
            },
        },
{
    match value {
        None => Err(InitializationError::ChatIdError("Could not find env var CHAT_ID".to_string())),
        Some(s) => match parse_i64(s) {
            None => Err(InitializationError::ChatIdError("Invalid value of env vars".to_string())),
            Some(n) => Ok(ChatId(n)),
        },
    }
}

fn token_env(value: Option<&str>) -> (r: Result<String, InitializationError>)
    ensures
        match value {
            Some(t) => r matches Ok(s) && s@ == t@,
            None => r matches Err(e) && e@ == Failure::Token("Could not find env var TELOXIDE_TOKEN"@),
        },
{
    match value {
        None => Err(InitializationError::TokenError("Could not find env var TELOXIDE_TOKEN".to_string())),
        Some(t) => Ok(t.to_string()),
    }
}

impl BotConfiguration {
    /// Resolves the configuration from the values of the `CHAT_ID` and
    /// `TELOXIDE_TOKEN` environment variables (`None` where one is unset).
    pub fn from_env(chat_id: Option<&str>, token: Option<&str>) -> (r: Result<BotConfiguration, InitializationError>)
        ensures
            outcome_of(r) == env_outcome(opt_view(chat_id), opt_view(token)),
    {
        let chat_id = match chat_id_env(chat_id) {
            Ok(c) => c,
            Err(e) => return Err(e),
        };
        let token_api = match token_env(token) {
            Ok(t) => t,
            Err(e) => return Err(e),
        };
        Ok(BotConfiguration { chat_id, token_api })
    }

    /// Resolves the configuration from the text of an INI file, keys
    /// `token_api` and `chat_id` of the default section; `None` stands for a
    /// file that is absent or cannot be read, which holds no keys.
    pub fn from_file(contents: Option<&str>) -> (r: Result<BotConfiguration, InitializationError>)
        ensures
            outcome_of(r) == file_outcome(opt_view(contents)),
    {
        let mut config = ini_new();
        match contents {
            Some(text) => {
                let _ = ini_read(&mut config, text.to_string());
            },
            None => {},
        }
        proof {
            reveal_strlit("default");
            reveal_strlit("token_api");
            reveal_strlit("chat_id");
        }
        // configparser folds names to lower case; these are already folded.
        let token_api = match ini_get(&config, "default", "token_api") {
            Some(t) => t,
            None => return Err(InitializationError::TokenError("Could not find token_api".to_string())),
        };
        let chat_id = match ini_get(&config, "default", "chat_id") {
            Some(s) => s,
            None => return Err(InitializationError::ChatIdError("Config chat_id not found".to_string())),
        };
        match parse_i64(chat_id.as_str()) {
            Some(n) => Ok(BotConfiguration { chat_id: ChatId(n), token_api }),
            None => Err(InitializationError::ChatIdError("Config chat_id invalid".to_string())),
        }
    }

    pub fn token_api(&self) -> (r: &String)
        ensures
            r@ == self@.1,
    {
        &self.token_api
    }

    pub fn chat_id(&self) -> (r: &ChatId)
        ensures
            r.0 == self@.0,
    {
        &self.chat_id
    }
}

impl InitializationError {
    /// A readable account of the failure: which part failed, then the detail.
    pub fn message(&self) -> (r: String)
        ensures
            r@ == match self@ {
                Failure::ChatId(m) => "Error in Chat ID initialisation !\n\t"@ + m,
                Failure::Token(m) => "Error in Token API initialisation !\n\t"@ + m,
            },
    {
        match self {
            InitializationError::ChatIdError(e) => {
                String::from_str("Error in Chat ID initialisation !\n\t").concat(e.as_str())
            },
            InitializationError::TokenError(e) => {
                String::from_str("Error in Token API initialisation !\n\t").concat(e.as_str())
            },
        }
    }
}

/// A file whose default section holds `token_api` with some text and
/// `chat_id` with the decimal text of a number yields exactly that token and
/// that chat id.
pub proof fn lemma_file_with_both_keys(contents: Option<Seq<char>>, token: Seq<char>, n: i64)
    requires
        file_entry(contents, "token_api"@) == Some(token),
        file_entry(contents, "chat_id"@) == Some(decimal_text(n)),
    ensures
        file_outcome(contents) == Ok::<(i64, Seq<char>), Failure>((n, token)),
{
    lemma_decimal_text_round_trip(n);
}

/// An absent or unreadable file fails with a token error, since the token is
/// looked at first.
pub proof fn lemma_absent_file()
    ensures
        file_outcome(None) matches Err(Failure::Token(_)),
{
}

/// A file that gives a token but no `chat_id` fails with a chat id error.
pub proof fn lemma_file_without_chat_id(contents: Option<Seq<char>>)
    requires
        file_entry(contents, "token_api"@) is Some,
        file_entry(contents, "chat_id"@) is None,
    ensures
        file_outcome(contents) == Err::<(i64, Seq<char>), Failure>(Failure::ChatId("Config chat_id not found"@)),
{
}

/// A file that gives a token and a `chat_id` that is no `i64` fails with a
/// chat id error whose detail differs from that of a missing `chat_id`.
pub proof fn lemma_file_with_invalid_chat_id(contents: Option<Seq<char>>, chat_id: Seq<char>)
    requires
        file_entry(contents, "token_api"@) is Some,
        file_entry(contents, "chat_id"@) == Some(chat_id),
        decimal_i64(chat_id) is None,
    ensures
        file_outcome(contents) == Err::<(i64, Seq<char>), Failure>(Failure::ChatId("Config chat_id invalid"@)),
        "Config chat_id invalid"@ != "Config chat_id not found"@,
{
    reveal_strlit("Config chat_id invalid");
    reveal_strlit("Config chat_id not found");
    assert("Config chat_id invalid"@.len() != "Config chat_id not found"@.len());
}

/// From the environment: both values valid give exactly them; an unset
/// `CHAT_ID` or one that is no `i64` gives a chat id error; a valid chat id
/// with an unset token gives a token error.
pub proof fn lemma_env_values(n: i64, token: Seq<char>, chat_id: Seq<char>, any_token: Option<Seq<char>>)
    ensures
        env_outcome(Some(decimal_text(n)), Some(token)) == Ok::<(i64, Seq<char>), Failure>((n, token)),
        env_outcome(None, any_token) matches Err(Failure::ChatId(_)),
        env_outcome(Some(decimal_text(n)), None) matches Err(Failure::Token(_)),
        decimal_i64(chat_id) is None ==> env_outcome(Some(chat_id), any_token) matches Err(Failure::ChatId(_)),
{
    lemma_decimal_text_round_trip(n);
}

} // verus!
