use botsnitcher::configprovider::{config_file_path, DEFAULT_CONFIG_PATH};
use botsnitcher::{BotConfiguration, ChatId, InitializationError};

const TEST_CONFIG: &str = "token_api=nsiofdnfoasndiofnasiodf\nchat_id=10\n";

fn chat_id_detail(r: Result<BotConfiguration, InitializationError>) -> String {
    match r {
        Err(InitializationError::ChatIdError(m)) => m,
        Err(InitializationError::TokenError(m)) => panic!("token error: {m}"),
        Ok(_) => panic!("configuration resolved"),
    }
}

fn token_detail(r: Result<BotConfiguration, InitializationError>) -> String {
    match r {
        Err(InitializationError::TokenError(m)) => m,
        Err(InitializationError::ChatIdError(m)) => panic!("chat id error: {m}"),
        Ok(_) => panic!("configuration resolved"),
    }
}

#[test]
fn test_parsing_default_conf_ini_file() {
    let conf = BotConfiguration::from_file(Some(TEST_CONFIG)).unwrap();
    assert_eq!(conf.token_api(), "nsiofdnfoasndiofnasiodf");
    assert_eq!(conf.chat_id().0, 10);
}

#[test]
fn test_parsing_invalid_conf_ini_file() {
    let conf = BotConfiguration::from_file(None);
    assert_eq!(conf.is_err(), true);
}

#[test]
fn absent_file_gives_token_error() {
    let d = token_detail(BotConfiguration::from_file(None));
    assert_eq!(d, "Could not find token_api");
}

#[test]
fn empty_file_gives_token_error() {
    token_detail(BotConfiguration::from_file(Some("")));
}

#[test]
fn file_without_any_key_gives_token_error() {
    token_detail(BotConfiguration::from_file(Some("other=1\n")));
}

#[test]
fn unparsable_file_gives_token_error() {
    token_detail(BotConfiguration::from_file(Some("[broken\ntoken_api=a\nchat_id=1\n")));
}

#[test]
fn file_without_chat_id_gives_chat_id_error() {
    let d = chat_id_detail(BotConfiguration::from_file(Some("token_api=abc\n")));
    assert_eq!(d, "Config chat_id not found");
}

#[test]
fn file_with_non_numeric_chat_id_gives_invalid_error() {
    let d = chat_id_detail(BotConfiguration::from_file(Some("token_api=abc\nchat_id=ten\n")));
    assert_eq!(d, "Config chat_id invalid");
    assert_ne!(d, "Config chat_id not found");
}

#[test]
fn file_with_overflowing_chat_id_gives_invalid_error() {
    let d = chat_id_detail(BotConfiguration::from_file(Some(
        "token_api=abc\nchat_id=9223372036854775808\n",
    )));
    assert_eq!(d, "Config chat_id invalid");
}

#[test]
fn file_with_negative_chat_id() {
    let conf = BotConfiguration::from_file(Some("token_api=t\nchat_id=-1001234567890\n")).unwrap();
    assert_eq!(*conf.chat_id(), ChatId(-1001234567890));
}

#[test]
fn file_with_smallest_chat_id() {
    let conf = BotConfiguration::from_file(Some("chat_id=-9223372036854775808\ntoken_api=t\n")).unwrap();
    assert_eq!(conf.chat_id().0, i64::MIN);
    assert_eq!(conf.token_api(), "t");
}

#[test]
fn file_names_fold_to_lower_case() {
    let conf = BotConfiguration::from_file(Some("[DEFAULT]\nTOKEN_API = spaced \nChat_Id : 42\n")).unwrap();
    assert_eq!(conf.token_api(), "spaced");
    assert_eq!(conf.chat_id().0, 42);
}

#[test]
fn file_keys_of_other_sections_are_not_read() {
    token_detail(BotConfiguration::from_file(Some("[bot]\ntoken_api=a\nchat_id=1\n")));
}

#[test]
fn env_with_both_values() {
    let conf = BotConfiguration::from_env(Some("10"), Some("abc:def")).unwrap();
    assert_eq!(conf.chat_id().0, 10);
    assert_eq!(conf.token_api(), "abc:def");
}

#[test]
fn env_with_signed_chat_id() {
    let conf = BotConfiguration::from_env(Some("+7"), Some("t")).unwrap();
    assert_eq!(conf.chat_id().0, 7);
}

#[test]
fn env_without_chat_id() {
    let d = chat_id_detail(BotConfiguration::from_env(None, Some("t")));
    assert_eq!(d, "Could not find env var CHAT_ID");
}

#[test]
fn env_without_either_gives_chat_id_error() {
    chat_id_detail(BotConfiguration::from_env(None, None));
}

#[test]
fn env_without_token() {
    let d = token_detail(BotConfiguration::from_env(Some("10"), None));
    assert_eq!(d, "Could not find env var TELOXIDE_TOKEN");
}

#[test]
fn env_with_non_integer_chat_id() {
    let d = chat_id_detail(BotConfiguration::from_env(Some("12a"), Some("t")));
    assert_eq!(d, "Invalid value of env vars");
    chat_id_detail(BotConfiguration::from_env(Some(""), Some("t")));
    chat_id_detail(BotConfiguration::from_env(Some("-"), Some("t")));
    chat_id_detail(BotConfiguration::from_env(Some(" 1"), Some("t")));
}

#[test]
fn error_messages_name_the_part() {
    let c = InitializationError::ChatIdError("detail".to_string());
    assert_eq!(c.message(), "Error in Chat ID initialisation !\n\tdetail");
    let t = InitializationError::TokenError("x".to_string());
    assert_eq!(t.message(), "Error in Token API initialisation !\n\tx");
}

#[test]
fn config_path_override_and_default() {
    assert_eq!(config_file_path(Some("/tmp/c.ini".to_string())), "/tmp/c.ini");
    assert_eq!(config_file_path(None), DEFAULT_CONFIG_PATH);
    assert_eq!(DEFAULT_CONFIG_PATH, "/etc/botsnitcher/conf.ini");
}
