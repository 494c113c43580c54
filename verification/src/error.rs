use vstd::prelude::*;
use vstd::string::StringExecFns;
use crate::text::{format_prefixed_hex, prefixed_hex};

verus! {

/// The error type of the standard library's input and output, which
/// this library carries but never looks into.
#[verifier::external_type_specification]
#[verifier::external_body]
pub struct ExIoError(std::io::Error);

/// The failure classes of the emulator core, without their payload.
#[derive(Clone, Copy, Debug, PartialEq, Eq, Structural)]
pub enum ErrorKind {
    Illegal,
    Unsupported,
    Uninitialized,
    ExpectedParameter,
    Io,
}

/// What can go wrong in the emulator core.
#[derive(Debug)]
pub enum Error {
    /// An access that violates the bus contract.
    Illegal(String),
    /// A valid request that this core does not implement.
    Unsupported(String),
    /// Kept for those who use the core; the core itself never raises it.
    Uninitialized(String),
    /// Kept for driver code; the core itself never raises it.
    ExpectedParameter(u16),
    /// A failure of input or output, which happens outside the core.
    Io(std::io::Error),
}

pub type Result<T> = std::result::Result<T, Error>;

impl Error {
    /// The class of this error.
    pub open spec fn kind_spec(&self) -> ErrorKind {
        match self {
            Error::Illegal(_) => ErrorKind::Illegal,
            Error::Unsupported(_) => ErrorKind::Unsupported,
            Error::Uninitialized(_) => ErrorKind::Uninitialized,
            Error::ExpectedParameter(_) => ErrorKind::ExpectedParameter,
            Error::Io(_) => ErrorKind::Io,
        }
    }

    /// The class of this error.
    #[verifier::when_used_as_spec(kind_spec)]
    pub fn kind(&self) -> (k: ErrorKind)
        ensures
            k == self.kind_spec(),
    {
        match self {
            Error::Illegal(_) => ErrorKind::Illegal,
            Error::Unsupported(_) => ErrorKind::Unsupported,
            Error::Uninitialized(_) => ErrorKind::Uninitialized,
            Error::ExpectedParameter(_) => ErrorKind::ExpectedParameter,
            Error::Io(_) => ErrorKind::Io,
        }
    }

    /// An `Illegal` error with the given message.
    pub fn illegal(message: &str) -> (e: Error)
        ensures
            e is Illegal,
            e->Illegal_0@ == message@,
    {
        Error::Illegal(String::from_str(message))
    }

    /// An `Unsupported` error with the given message.
    pub fn unsupported(message: &str) -> (e: Error)
        ensures
            e is Unsupported,
            e->Unsupported_0@ == message@,
    {
        Error::Unsupported(String::from_str(message))
    }

    /// An `Illegal` error whose message ends with the address concerned.
    pub fn illegal_at(message: &str, addr: u16) -> (e: Error)
        ensures
            e is Illegal,
            e->Illegal_0@ == message@ + prefixed_hex(addr as nat),
    {
        let mut text = String::from_str(message);
        text.append(format_prefixed_hex(addr).as_str());
        Error::Illegal(text)
    }

    /// An `Unsupported` error whose message ends with the address concerned.
    pub fn unsupported_at(message: &str, addr: u16) -> (e: Error)
        ensures
            e is Unsupported,
            e->Unsupported_0@ == message@ + prefixed_hex(addr as nat),
    {
        let mut text = String::from_str(message);
        text.append(format_prefixed_hex(addr).as_str());
        Error::Unsupported(text)
    }

    /// The message of the error, where it has one.
    pub open spec fn message_spec(&self) -> Option<Seq<char>> {
        match self {
            Error::Illegal(message) => Some(message@),
            Error::Unsupported(message) => Some(message@),
            Error::Uninitialized(message) => Some(message@),
            Error::ExpectedParameter(_) => None,
            Error::Io(_) => None,
        }
    }

    /// The message of the error, where it has one.
    pub fn message(&self) -> (message: Option<&str>)
        ensures
            match message {
                Some(text) => self.message_spec() == Some(text@),
                None => self.message_spec().is_none(),
            },
    {
        match self {
            Error::Illegal(message) => Some(message.as_str()),
            Error::Unsupported(message) => Some(message.as_str()),
            Error::Uninitialized(message) => Some(message.as_str()),
            Error::ExpectedParameter(_) => None,
            Error::Io(_) => None,
        }
    }
}

/// What a fallible operation yields once the error payload is set aside.
pub open spec fn outcome<T>(r: Result<T>) -> std::result::Result<T, ErrorKind> {
    match r {
        Ok(v) => Ok(v),
        Err(e) => Err(e.kind()),
    }
}

} // verus!
