use vstd::prelude::*;

verus! {

/// Command-line options.
#[derive(Debug, Clone, Copy, PartialEq, Eq, Structural)]
pub struct Args {
    /// Log errors only.
    pub quiet: bool,
}

/// The least severe level of the log lines that are shown.
#[derive(Debug, Clone, Copy, PartialEq, Eq, Structural)]
pub enum LogLevel {
    Error,
    Debug,
}

impl Args {
    /// Errors only in quiet mode, else everything down to debug lines.
    pub fn log_level(&self) -> (r: LogLevel)
        ensures
            r == (if self.quiet { LogLevel::Error } else { LogLevel::Debug }),
    {
        if self.quiet {
            LogLevel::Error
        } else {
            LogLevel::Debug
        }
    }
}

} // verus!
