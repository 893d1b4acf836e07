//! The application's error type, the text each error shows, and the kind
//! under which it is reported to the user interface.

use vstd::prelude::*;
use crate::text::{decimal, decimal_string};

verus! {

/// The errors of the application. Errors raised by other components are
/// carried as the text they display.
#[derive(Clone, Debug, PartialEq, Eq)]
pub enum SysError {
    /// An input/output failure, by its text.
    Io(String),
    /// Bytes that are not UTF-8, by the decoder's text.
    Utf8(String),
    /// A general failure, by its text.
    Anyhow(String),
    /// A database failure, by its text.
    SqlxError(String),
    /// A failure of the window shell, by its text.
    TauriError(String),
    /// A failure of the quote push stream, with its code and message.
    EstSseError(u32, String),
    /// A failure of an HTTP request, by its text.
    ReqwestError(String),
    /// A failure of the event-source stream, by its text.
    ReqwestEventSourceError(String),
    /// A deliberate stop, with its code and message.
    BREAK(u32, String),
}

/// The kind of an error as the user interface receives it, with the
/// error's text.
#[derive(Clone, Debug, PartialEq, Eq)]
pub enum ErrorKind {
    Io(String),
    Utf8(String),
    Unknown(String),
}

/// The text an error displays.
pub open spec fn sys_error_message(e: SysError) -> Seq<char> {
    match e {
        SysError::Io(m) => m@,
        SysError::Utf8(m) => "failed to parse as string: "@ + m@,
        SysError::Anyhow(m) => m@,
        SysError::SqlxError(m) => m@,
        SysError::TauriError(m) => m@,
        SysError::EstSseError(code, m) => "sse error! "@ + m@ + ". code:"@ + decimal(code as nat),
        SysError::ReqwestError(m) => m@,
        SysError::ReqwestEventSourceError(m) => m@,
        SysError::BREAK(code, m) => "happen error, stop execute. code:"@ + decimal(code as nat)
            + ", message:"@ + m@,
    }
}

/// The kind under which an error is reported, carrying `message`.
pub open spec fn is_error_kind_of(k: ErrorKind, e: SysError, message: Seq<char>) -> bool {
    match e {
        SysError::Io(_) => k matches ErrorKind::Io(m) && m@ == message,
        SysError::Utf8(_) => k matches ErrorKind::Utf8(m) && m@ == message,
        _ => k matches ErrorKind::Unknown(m) && m@ == message,
    }
}

impl SysError {
    /// The text the error displays.
    pub fn message(&self) -> (s: String)
        ensures
            s@ == sys_error_message(*self),
    {
        match self {
            SysError::Io(m) => m.clone(),
            SysError::Utf8(m) => {
                let mut s = "failed to parse as string: ".to_owned();
                s.append(m.as_str());
                s
            },
            SysError::Anyhow(m) => m.clone(),
            SysError::SqlxError(m) => m.clone(),
            SysError::TauriError(m) => m.clone(),
            SysError::EstSseError(code, m) => {
                let mut s = "sse error! ".to_owned();
                s.append(m.as_str());
                s.append(". code:");
                let c = decimal_string(*code as u64);
                s.append(c.as_str());
                s
            },
            SysError::ReqwestError(m) => m.clone(),
            SysError::ReqwestEventSourceError(m) => m.clone(),
            SysError::BREAK(code, m) => {
                let mut s = "happen error, stop execute. code:".to_owned();
                let c = decimal_string(*code as u64);
                s.append(c.as_str());
                s.append(", message:");
                s.append(m.as_str());
                s
            },
        }
    }

    /// The kind under which the error is reported to the user interface:
    /// input/output and UTF-8 errors by their own kind, all others as
    /// unknown, each with the error's text.
    pub fn error_kind(&self) -> (k: ErrorKind)
        ensures
            is_error_kind_of(k, *self, sys_error_message(*self)),
    {
        let error_message = self.message();
        match self {
            SysError::Io(_) => ErrorKind::Io(error_message),
            SysError::Utf8(_) => ErrorKind::Utf8(error_message),
            _ => ErrorKind::Unknown(error_message),
        }
    }
}

} // verus!
