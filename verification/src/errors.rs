//! Typed errors of the library's subsystems.
//!
//! Each error renders itself into an owned message through a method
//! rather than a formatting trait, so callers and tests read the same
//! text the deployed code logs.

use vstd::prelude::*;
use vstd::string::StringExecFns;

verus! {

/// Errors of the hook-event pipeline.
pub enum HookError {
    /// An event whose discriminator no handler recognizes.
    UnknownEvent {
        /// The unrecognized discriminator, as text.
        event_type: String,
    },
}

impl HookError {
    /// The log message for this error.
    pub fn message(&self) -> (r: String)
        ensures
            self matches HookError::UnknownEvent { event_type } ==> r@
                == "Unknown hook event processed: "@ + event_type@,
    {
        match self {
            HookError::UnknownEvent { event_type } => String::from_str(
                "Unknown hook event processed: ",
            ).concat(event_type.as_str()),
        }
    }
}

/// Errors raised while loading and validating the configuration.
pub enum ConfigError {
    /// A file could not be read; carries the offending path.
    Io {
        /// Path of the file that failed.
        path: String,
    },
    /// The configuration text did not parse; carries the parser's words.
    Parse(String),
    /// The configuration parsed but violates a rule; carries the rule.
    Validation(String),
}

impl ConfigError {
    /// The log message for this error.
    pub fn message(&self) -> (r: String)
        ensures
            self matches ConfigError::Io { path } ==> r@ == "I/O error while accessing "@ + path@,
            self matches ConfigError::Parse(words) ==> r@ == "TOML parse error: "@ + words@,
            self matches ConfigError::Validation(rule) ==> r@ == "Validation error: "@ + rule@,
    {
        match self {
            ConfigError::Io { path } => String::from_str("I/O error while accessing ").concat(
                path.as_str(),
            ),
            ConfigError::Parse(words) => String::from_str("TOML parse error: ").concat(
                words.as_str(),
            ),
            ConfigError::Validation(rule) => String::from_str("Validation error: ").concat(
                rule.as_str(),
            ),
        }
    }
}

} // verus!
