//! The errors of a request to the settings daemon.

use vstd::prelude::*;

use crate::lang::{t, localized, Locale};
use crate::text::with_detail;

verus! {

/// Why a request to the settings daemon failed. Facts come from the
/// daemon socket: a missing daemon is an error, never fallback data.
#[derive(Debug, Clone, PartialEq, Eq)]
pub enum ProviderError {
    /// The socket path does not exist: the daemon is not running.
    SocketMissing(String),
    /// Transport failure (refused, reset, timed out).
    Connection(String),
    /// Malformed frame from the daemon.
    Protocol(String),
    /// The daemon answered `ok: false`; the detail is its message.
    Server(String),
    /// A well-formed reply with unusable content.
    Parse(String),
}

/// The variant of a `ProviderError`.
#[derive(Debug, Clone, Copy, PartialEq, Eq, Structural)]
pub enum ErrorKind {
    SocketMissing,
    Connection,
    Protocol,
    Server,
    Parse,
}

impl View for ProviderError {
    type V = (ErrorKind, Seq<char>);

    open spec fn view(&self) -> (ErrorKind, Seq<char>) {
        match self {
            ProviderError::SocketMissing(d) => (ErrorKind::SocketMissing, d@),
            ProviderError::Connection(d) => (ErrorKind::Connection, d@),
            ProviderError::Protocol(d) => (ErrorKind::Protocol, d@),
            ProviderError::Server(d) => (ErrorKind::Server, d@),
            ProviderError::Parse(d) => (ErrorKind::Parse, d@),
        }
    }
}

impl ErrorKind {
    /// The message key of each kind of error.
    pub open spec fn key_text(self) -> Seq<char> {
        match self {
            ErrorKind::SocketMissing => "socket_missing"@,
            ErrorKind::Connection => "connection_failed"@,
            ErrorKind::Protocol => "protocol_error"@,
            ErrorKind::Server => "server_error"@,
            ErrorKind::Parse => "parse_error"@,
        }
    }
}

/// The text of an error in `locale`: the localized message, a colon and
/// a space, then the detail.
pub open spec fn error_text(e: (ErrorKind, Seq<char>), locale: Locale) -> Seq<char> {
    localized(locale, e.0.key_text()) + seq![':', ' '] + e.1
}

impl ProviderError {
    /// The message key of this error.
    pub fn key(&self) -> (r: &'static str)
        ensures
            r@ == self@.0.key_text(),
    {
        match self {
            ProviderError::SocketMissing(_) => "socket_missing",
            ProviderError::Connection(_) => "connection_failed",
            ProviderError::Protocol(_) => "protocol_error",
            ProviderError::Server(_) => "server_error",
            ProviderError::Parse(_) => "parse_error",
        }
    }

    /// The detail this error carries.
    pub fn detail(&self) -> (r: &str)
        ensures
            r@ == self@.1,
    {
        match self {
            ProviderError::SocketMissing(d) => d.as_str(),
            ProviderError::Connection(d) => d.as_str(),
            ProviderError::Protocol(d) => d.as_str(),
            ProviderError::Server(d) => d.as_str(),
            ProviderError::Parse(d) => d.as_str(),
        }
    }

    /// Renders this error in `locale`: the localized message plus the detail.
    pub fn to_string_in(&self, locale: Locale) -> (r: String)
        ensures
            r@ == error_text(self@, locale),
    {
        let message = t(locale, self.key());
        with_detail(message.as_str(), self.detail())
    }
}

/// The text of an error ends with the error's detail, whatever the locale.
pub proof fn lemma_error_text_ends_with_detail(e: (ErrorKind, Seq<char>), locale: Locale)
    ensures
        error_text(e, locale).len() >= e.1.len(),
        error_text(e, locale).subrange(
            error_text(e, locale).len() - e.1.len(),
            error_text(e, locale).len() as int,
        ) == e.1,
{
    let s = error_text(e, locale);
    assert(s.subrange(s.len() - e.1.len(), s.len() as int) =~= e.1);
}

/// A result whose error is a `ProviderError`.
pub type Result<T> = core::result::Result<T, ProviderError>;

} // verus!
