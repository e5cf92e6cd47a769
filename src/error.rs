//! The errors that loading samples and configuration can report.

use vstd::prelude::*;

verus! {

#[verifier::external_type_specification]
#[verifier::external_body]
pub struct ExIoError(std::io::Error);

/// An error of the application, with its message.
#[derive(Debug)]
pub enum AppError {
    Io(std::io::Error),
    Audio(String),
    Config(String),
    Command(String),
    Sample(String),
}

/// `text` follows `prefix`.
pub open spec fn prefixed(prefix: Seq<char>, text: Seq<char>) -> Seq<char> {
    prefix + text
}

impl AppError {
    /// The message shown to a user: the kind of error, then its text.
    pub fn to_string(&self) -> (r: String)
        ensures
            match self {
                AppError::Io(_) => r@.len() >= 11 && r@.subrange(0, 11) == "I/O error: "@,
                AppError::Audio(msg) => r@ == prefixed("Audio error: "@, msg@),
                AppError::Config(msg) => r@ == prefixed("Configuration error: "@, msg@),
                AppError::Command(msg) => r@ == prefixed("Command error: "@, msg@),
                AppError::Sample(msg) => r@ == prefixed("Sample error: "@, msg@),
            },
    {
        match self {
            AppError::Io(err) => {
                let detail = err.to_string();
                let mut text = String::from_str("I/O error: ");
                proof {
                    reveal_strlit("I/O error: ");
                }
                text.append(detail.as_str());
                assert(text@.subrange(0, 11) =~= "I/O error: "@);
                text
            },
            AppError::Audio(msg) => {
                let mut text = String::from_str("Audio error: ");
                text.append(msg.as_str());
                text
            },
            AppError::Config(msg) => {
                let mut text = String::from_str("Configuration error: ");
                text.append(msg.as_str());
                text
            },
            AppError::Command(msg) => {
                let mut text = String::from_str("Command error: ");
                text.append(msg.as_str());
                text
            },
            AppError::Sample(msg) => {
                let mut text = String::from_str("Sample error: ");
                text.append(msg.as_str());
                text
            },
        }
    }
}

impl From<std::io::Error> for AppError {
    fn from(err: std::io::Error) -> (r: Self)
        ensures
            r == AppError::Io(err),
    {
        AppError::Io(err)
    }
}

impl vstd::std_specs::convert::FromSpecImpl<std::io::Error> for AppError {
    open spec fn obeys_from_spec() -> bool {
        true
    }

    open spec fn from_spec(v: std::io::Error) -> Self {
        AppError::Io(v)
    }
}

} // verus!
