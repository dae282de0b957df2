use botsnitcher::message::{confirmation_text, input_message, INPUT_TIMEOUT_SECS, NO_MESSAGE};
use botsnitcher::{Args, BotConfiguration, LogLevel};

#[test]
fn empty_piped_input_is_sent_as_is() {
    assert_eq!(input_message(false, Some(String::new())), "");
}

#[test]
fn interactive_input_gives_placeholder() {
    assert_eq!(input_message(true, None), "No message found");
    assert_eq!(input_message(true, Some("ignored".to_string())), NO_MESSAGE);
}

#[test]
fn late_input_gives_placeholder() {
    assert_eq!(input_message(false, None), "No message found");
}

#[test]
fn piped_input_is_sent() {
    assert_eq!(input_message(false, Some("hello\nworld".to_string())), "hello\nworld");
}

#[test]
fn input_timeout_is_five_seconds() {
    assert_eq!(INPUT_TIMEOUT_SECS, 5);
}

#[test]
fn confirmation_uses_delivered_text() {
    assert_eq!(confirmation_text(Some("hi")), "hi");
    assert_eq!(confirmation_text(None), "Message sent");
}

#[test]
fn quiet_flag_sets_log_level() {
    assert_eq!(Args { quiet: true }.log_level(), LogLevel::Error);
    assert_eq!(Args { quiet: false }.log_level(), LogLevel::Debug);
}

#[test]
fn file_configuration_and_piped_text() {
    let conf = BotConfiguration::from_env(None, None)
        .or_else(|_| BotConfiguration::from_file(Some("token_api=tok\nchat_id=99\n")))
        .unwrap();
    assert_eq!(conf.token_api(), "tok");
    assert_eq!(conf.chat_id().0, 99);
    assert_eq!(input_message(false, Some("hello".to_string())), "hello");
}
