//! The error type shared by the monitor, HDR and autostart operations.
use std::io;
use vstd::prelude::*;

use crate::text::push_char;

verus! {

/// `std::io::Error`, carried as the operating-system cause of an error.
#[verifier::external_type_specification]
#[verifier::external_body]
pub struct ExIoError(io::Error);

/// An error returned by a DDC/CI or related Windows operation: a message and,
/// for failed system calls, the operating-system error that caused it.
#[derive(Debug)]
pub struct DdcError {
    message: String,
    source: Option<io::Error>,
    status: Option<u32>,
}

/// `std::io::Error::last_os_error`: the calling thread's last operating-system error.
/// What it holds depends on the system call made just before, so nothing is stated.
#[verifier::external_body]
fn last_os_error() -> io::Error {
    io::Error::last_os_error()
}

/// `std::io::Error::from_raw_os_error`: wraps an operating-system error code. The
/// value is opaque here; the tests check that the code is kept.
#[verifier::external_body]
fn os_error_from_code(code: i32) -> io::Error {
    io::Error::from_raw_os_error(code)
}

/// `<std::io::Error as ToString>::to_string`: the system's text for an error. It
/// depends on the machine and its language, so nothing is stated of it.
#[verifier::external_body]
fn io_error_text(error: &io::Error) -> String {
    error.to_string()
}

/// Result type used by the library.
pub type Result<T> = std::result::Result<T, DdcError>;

impl DdcError {
    /// The message of this error.
    pub closed spec fn description(&self) -> Seq<char> {
        self.message@
    }

    /// Whether this error carries an operating-system cause.
    pub closed spec fn has_source(&self) -> bool {
        self.source is Some
    }

    /// The operating-system cause this error carries, if any.
    pub closed spec fn cause(&self) -> Option<io::Error> {
        self.source
    }

    /// The status code of the failed Windows call this error was made for, when
    /// it was made from one.
    pub closed spec fn status_code(&self) -> Option<u32> {
        self.status
    }

    /// An error made of a message alone.
    pub fn message(message: &str) -> (e: Self)
        ensures
            e.description() == message@,
            !e.has_source(),
            e.status_code() is None,
    {
        DdcError { message: message.to_owned(), source: None, status: None }
    }

    /// An error made of an owned message alone.
    pub fn from_message(message: String) -> (e: Self)
        ensures
            e.description() == message@,
            !e.has_source(),
            e.status_code() is None,
    {
        DdcError { message, source: None, status: None }
    }

    /// An error for a failed Windows call, caused by the thread's last
    /// operating-system error.
    pub fn windows(operation: &str) -> (e: Self)
        ensures
            e.description() == operation@,
            e.has_source(),
            e.status_code() is None,
    {
        DdcError { message: operation.to_owned(), source: Some(last_os_error()), status: None }
    }

    /// An error for a Windows call that returned the status `code`: it keeps the
    /// code, and its cause is the operating-system error made from that code.
    pub fn windows_code(operation: &str, code: u32) -> (e: Self)
        ensures
            e.description() == operation@,
            e.has_source(),
            e.status_code() == Some(code),
    {
        DdcError { message: operation.to_owned(), source: Some(os_error_from_code(code as i32)), status: Some(code) }
    }

    /// An error for a failed operation whose operating-system cause was already captured.
    pub fn with_source(operation: &str, source: io::Error) -> (e: Self)
        ensures
            e.description() == operation@,
            e.has_source(),
            e.cause() == Some(source),
            e.status_code() is None,
    {
        DdcError { message: operation.to_owned(), source: Some(source), status: None }
    }

    /// The status code of the failed Windows call this error was made for, if any.
    pub fn status(&self) -> (r: Option<u32>)
        ensures
            r == self.status_code(),
    {
        self.status
    }

    /// The operating-system cause of this error, if any.
    pub fn source(&self) -> (r: Option<&io::Error>)
        ensures
            r is Some <==> self.has_source(),
            r matches Some(c) ==> self.cause() == Some(*c),
    {
        match &self.source {
            Some(source) => Some(source),
            None => None,
        }
    }

    /// Whether `text` is how this error reads: the message alone, or, when there
    /// is a cause, the message, `": "` and then the system's text for the cause.
    pub open spec fn reads_as(&self, text: Seq<char>) -> bool {
        if self.has_source() {
            text.len() >= self.description().len() + 2 && text.subrange(0, self.description().len() as int + 2)
                == self.description() + seq![':', ' ']
        } else {
            text == self.description()
        }
    }

    /// The text of this error: the message, followed by `": "` and the system's
    /// text for the cause when there is one.
    pub fn to_string(&self) -> (r: String)
        ensures
            self.reads_as(r@),
    {
        let mut text = self.message.clone();
        match &self.source {
            None => text,
            Some(source) => {
                push_char(&mut text, ':');
                push_char(&mut text, ' ');
                let ghost head = text@;
                text.append(io_error_text(source).as_str());
                assert(text@.subrange(0, head.len() as int) =~= head);
                assert(head =~= self.message@ + seq![':', ' ']);
                text
            },
        }
    }
}

} // verus!
