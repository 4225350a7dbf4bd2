//! The error type of the crate.
//!
//! Every failure is one of four kinds: an I/O failure together with the path
//! or device it happened on, content read back from the gadget tree that
//! could not be understood, a broken expectation of the provisioner, and a
//! short HID read that the caller is to skip.

use vstd::prelude::*;
use std::backtrace::Backtrace;
use std::num::ParseIntError;

verus! {

#[verifier::external_type_specification]
#[verifier::external_body]
pub struct ExIoError(std::io::Error);

#[verifier::external_type_specification]
#[verifier::external_body]
pub struct ExBacktrace(Backtrace);

#[verifier::external_type_specification]
#[verifier::external_body]
pub struct ExParseIntError(ParseIntError);

/// Content that could not be turned into a value.
#[derive(Debug)]
pub enum DeserializedError {
    /// A numeral that the integer parser refused.
    ParseInt(ParseIntError),
    /// Any other content, with a message that quotes it.
    Custom(String),
}

#[derive(Debug)]
pub enum ErrorKind {
    /// An I/O failure while working on `process_info`.
    Io { source: std::io::Error, process_info: String, backtrace: Backtrace },
    /// Content of the gadget tree that could not be understood.
    Deserialized(DeserializedError),
    /// A broken expectation, described by `msg`.
    Custom { msg: String, backtrace: Backtrace },
    /// A short HID read. The frame is dropped and reading goes on.
    Ignore,
}

#[derive(Debug)]
pub struct Error(pub Box<ErrorKind>);

/// `Backtrace::capture` of std: the call stack at this point, where the
/// environment asks for backtraces. Nothing is claimed of the value.
#[verifier::external_body]
fn capture_backtrace() -> Backtrace {
    Backtrace::capture()
}

impl ErrorKind {
    /// An I/O failure `err` that happened while working on `process_info`.
    pub fn io(err: std::io::Error, process_info: &str) -> (kind: Self)
        ensures
            kind matches ErrorKind::Io { source, process_info: info, .. } && source == err
                && info@ == process_info@,
    {
        ErrorKind::Io {
            source: err,
            process_info: String::from_str(process_info),
            backtrace: capture_backtrace(),
        }
    }

    /// A broken expectation described by `msg`.
    pub fn custom(msg: String) -> (kind: Self)
        ensures
            kind matches ErrorKind::Custom { msg: text, .. } && text == msg,
    {
        ErrorKind::Custom { msg, backtrace: capture_backtrace() }
    }
}

impl Error {
    /// The kind of this error.
    pub fn kind(&self) -> (kind: &ErrorKind)
        ensures
            *kind == *self.0,
    {
        &*self.0
    }

    /// The error that reports content as not understood, with `msg`
    /// describing it.
    pub fn deserialized_custom(msg: String) -> (error: Self)
        ensures
            error == Error(Box::new(ErrorKind::Deserialized(DeserializedError::Custom(msg)))),
    {
        Error(Box::new(ErrorKind::Deserialized(DeserializedError::Custom(msg))))
    }

    /// Whether this error reports content that could not be understood, with
    /// the message `msg`.
    pub open spec fn is_deserialized_custom(&self, msg: Seq<char>) -> bool {
        *self.0 matches ErrorKind::Deserialized(DeserializedError::Custom(text)) && text@ == msg
    }

    /// Whether this error reports content that could not be understood.
    pub open spec fn is_deserialized(&self) -> bool {
        *self.0 is Deserialized
    }

    /// Whether this error reports a broken expectation with the message
    /// `msg`.
    pub open spec fn is_custom(&self, msg: Seq<char>) -> bool {
        *self.0 matches ErrorKind::Custom { msg: text, .. } && text@ == msg
    }
}

impl From<ParseIntError> for DeserializedError {
    fn from(err: ParseIntError) -> (error: Self) {
        DeserializedError::ParseInt(err)
    }
}

impl vstd::std_specs::convert::FromSpecImpl<ParseIntError> for DeserializedError {
    open spec fn obeys_from_spec() -> bool {
        true
    }

    open spec fn from_spec(err: ParseIntError) -> Self {
        DeserializedError::ParseInt(err)
    }
}

impl From<DeserializedError> for ErrorKind {
    fn from(err: DeserializedError) -> (kind: Self) {
        ErrorKind::Deserialized(err)
    }
}

impl vstd::std_specs::convert::FromSpecImpl<DeserializedError> for ErrorKind {
    open spec fn obeys_from_spec() -> bool {
        true
    }

    open spec fn from_spec(err: DeserializedError) -> Self {
        ErrorKind::Deserialized(err)
    }
}

impl From<ErrorKind> for Error {
    fn from(kind: ErrorKind) -> (error: Self) {
        Error(Box::new(kind))
    }
}

impl vstd::std_specs::convert::FromSpecImpl<ErrorKind> for Error {
    open spec fn obeys_from_spec() -> bool {
        true
    }

    open spec fn from_spec(kind: ErrorKind) -> Self {
        Error(Box::new(kind))
    }
}

} // verus!
