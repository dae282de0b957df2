//! Credentials and message text for a one-shot chat notifier.

mod decimal;
mod ini;
pub mod args;
pub mod configprovider;
pub mod message;

pub use args::{Args, LogLevel};
pub use configprovider::{BotConfiguration, ChatId, InitializationError};
pub use decimal::{decimal_i64, decimal_int, decimal_text, digit_char, digits_value, is_digit, lemma_decimal_text_round_trip, nat_digits};
pub use ini::{ini_has_defaults, ini_parse, ini_values, is_folded, IniValues};
