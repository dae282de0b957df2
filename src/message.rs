use vstd::prelude::*;

verus! {

/// How long standard input may take to deliver the whole message.
pub const INPUT_TIMEOUT_SECS: u64 = 5;

/// The text sent when no message came in.
pub const NO_MESSAGE: &'static str = "No message found";

/// The text to send: what standard input delivered in full and in time, or
/// the placeholder where it is an interactive terminal (not read at all) or
/// did not finish in time (`None`; nothing read so far is kept).
pub fn input_message(interactive: bool, read: Option<String>) -> (r: String)
    ensures
        r@ == match read {
            Some(s) if !interactive => s@,
            _ => NO_MESSAGE@,
        },
{
    if interactive {
        return NO_MESSAGE.to_string();
    }
    match read {
        Some(s) => s,
        None => NO_MESSAGE.to_string(),
    }
}

/// The line logged after a delivery: the delivered message's text, or a
/// plain confirmation where it carries none.
pub fn confirmation_text(text: Option<&str>) -> (r: String)
    ensures
        r@ == match text {
            Some(t) => t@,
            None => "Message sent"@,
        },
{
    match text {
        Some(t) => t.to_string(),
        None => "Message sent".to_string(),
    }
}

} // verus!
