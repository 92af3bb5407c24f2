//! The error type shared by the whole crate.

use vstd::prelude::*;
use vstd::string::StringExecFns;

verus! {

/// What can go wrong, by origin. Each variant carries the detail as text.
#[derive(Debug)]
pub enum AppError {
    /// The command line could not be understood.
    Clap(String),
    /// The store could not be read or written, or what it holds is not a
    /// valid table.
    Database(String),
    /// The digest could not be delivered.
    SmtpEmail(String),
    /// The configuration could not be understood.
    Config(String),
    /// A file could not be read.
    IO(String),
    /// A text names no category. The detail is the text, in lower case.
    InvalidCategory(String),
    /// The analysis could not be obtained.
    Analyzer(String),
}

impl AppError {
    /// The detail that the error carries.
    pub open spec fn detail(self) -> Seq<char> {
        match self {
            AppError::Clap(e) => e@,
            AppError::Database(e) => e@,
            AppError::SmtpEmail(e) => e@,
            AppError::Config(e) => e@,
            AppError::IO(e) => e@,
            AppError::InvalidCategory(e) => e@,
            AppError::Analyzer(e) => e@,
        }
    }

    /// What introduces the detail in the error's message.
    pub open spec fn prefix(self) -> Seq<char> {
        match self {
            AppError::Clap(_) => "Argument error: "@,
            AppError::Database(_) => "Database error: "@,
            AppError::SmtpEmail(_) => "Smtp error: "@,
            AppError::Config(_) => "Config error: "@,
            AppError::IO(_) => "IO error: "@,
            AppError::InvalidCategory(_) => "Unknown thought type: "@,
            AppError::Analyzer(_) => "Analyzer error: "@,
        }
    }

    /// The message shown to the user.
    pub open spec fn message(self) -> Seq<char> {
        self.prefix() + self.detail()
    }

    /// The message shown to the user: the origin, then the detail.
    pub fn to_string(&self) -> (r: String)
        ensures
            r@ == self.message(),
    {
        match self {
            AppError::Clap(e) => "Argument error: ".to_owned().concat(e.as_str()),
            AppError::Database(e) => "Database error: ".to_owned().concat(e.as_str()),
            AppError::SmtpEmail(e) => "Smtp error: ".to_owned().concat(e.as_str()),
            AppError::Config(e) => "Config error: ".to_owned().concat(e.as_str()),
            AppError::IO(e) => "IO error: ".to_owned().concat(e.as_str()),
            AppError::InvalidCategory(e) => "Unknown thought type: ".to_owned().concat(e.as_str()),
            AppError::Analyzer(e) => "Analyzer error: ".to_owned().concat(e.as_str()),
        }
    }
}

} // verus!
