//! The library's error type.
use vstd::prelude::*;

verus! {

/// `std::io::Error`, carried by [`MailError::Io`] without being inspected.
#[verifier::external_type_specification]
#[verifier::external_body]
pub struct ExIoError(std::io::Error);

/// Everything that can go wrong while talking to a mail server or while
/// reading what it sent.
#[derive(Debug)]
pub enum MailError {
    Imap(String),
    Smtp(String),
    Tls(String),
    Auth(String),
    Parse(String),
    Connection(String),
    MailboxNotFound(String),
    MessageNotFound(u32),
    Io(std::io::Error),
    Other(String),
}

impl From<std::io::Error> for MailError {
    /// An I/O failure, carried as it is.
    fn from(e: std::io::Error) -> (res: MailError)
        ensures
            res == MailError::Io(e),
    {
        MailError::Io(e)
    }
}

impl vstd::std_specs::convert::FromSpecImpl<std::io::Error> for MailError {
    open spec fn obeys_from_spec() -> bool {
        true
    }

    open spec fn from_spec(e: std::io::Error) -> MailError {
        MailError::Io(e)
    }
}

} // verus!
