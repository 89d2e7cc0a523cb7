//! The errors that the configuration store and the session coordinator report.

use vstd::prelude::*;

verus! {

/// Why a configuration could not be loaded or saved.
#[derive(Debug, PartialEq, Eq)]
pub enum ConfigError {
    /// The file is no TOML document, has no `keys` table, or names a key that
    /// does not exist.
    Invalid,
    /// The file could not be read or written; the text says why.
    Io(String),
}

/// A `ConfigError` with its text as characters.
pub enum ConfigFailure {
    Invalid,
    Io(Seq<char>),
}

impl View for ConfigError {
    type V = ConfigFailure;

    open spec fn view(&self) -> ConfigFailure {
        match self {
            ConfigError::Invalid => ConfigFailure::Invalid,
            ConfigError::Io(cause) => ConfigFailure::Io(cause@),
        }
    }
}

/// Why a request to start or stop the worker was turned down.
#[derive(Clone, Copy, Debug, PartialEq, Eq, Structural)]
pub enum SessionError {
    AlreadyRunning,
    NotRunning,
}

impl SessionError {
    /// The status line for this error.
    pub open spec fn message_text(self) -> Seq<char> {
        match self {
            SessionError::AlreadyRunning => "Already running - click Stop first"@,
            SessionError::NotRunning => "Not running"@,
        }
    }

    /// The status line for this error.
    pub fn message(&self) -> (r: &'static str)
        ensures
            r@ == self.message_text(),
    {
        match self {
            SessionError::AlreadyRunning => "Already running - click Stop first",
            SessionError::NotRunning => "Not running",
        }
    }
}

} // verus!
