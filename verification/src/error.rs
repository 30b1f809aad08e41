//! The launcher's errors. Failures of outside services arrive as plain
//! values: their message text, and for a failed HTTP request what it
//! reports of itself.
use crate::text::{lit, push_all, string_of2, to_chars, from_chars};
use vstd::prelude::*;

verus! {

/// What a failed HTTP request reports of itself.
#[derive(Debug)]
pub struct HttpFailure {
    /// The response's status code, where a response came back.
    pub status: Option<u16>,
    /// The status as it is shown: its code and reason phrase.
    pub status_text: String,
    /// Whether the request ran out of time.
    pub timeout: bool,
    /// Whether no connection could be made.
    pub connect: bool,
    /// The failure's own description.
    pub text: String,
}

#[derive(Debug)]
pub enum MonoryxError {
    Io(String),
    Http(HttpFailure),
    Json(String),
    TomlDe(String),
    TomlSer(String),
    InvalidUsername(String),
    InvalidConfig(String),
    VersionNotFound(String),
    LoaderUnavailable(String),
    JavaNotFound(String),
    JavaIncompatible(String),
    Download(String),
    HashMismatch { file: String, expected: String, actual: String },
    Archive(String),
    UnsafePath(String),
    Instance(String),
    Modrinth(String),
    DependencyConflict(String),
    Launch(String),
    Other(String),
}

pub type Result<T> = core::result::Result<T, MonoryxError>;

/// How an error reads: a prefix naming its kind, then what it carries.
pub open spec fn message_spec(e: MonoryxError) -> Seq<char> {
    match e {
        MonoryxError::Io(m) => "I/O error: "@ + m@,
        MonoryxError::Json(m) => "JSON error: "@ + m@,
        MonoryxError::TomlDe(m) => "TOML deserialization error: "@ + m@,
        MonoryxError::TomlSer(m) => "TOML serialization error: "@ + m@,
        MonoryxError::InvalidUsername(m) => "Invalid username: "@ + m@,
        MonoryxError::InvalidConfig(m) => "Invalid configuration: "@ + m@,
        MonoryxError::VersionNotFound(m) => "Version not found: "@ + m@,
        MonoryxError::LoaderUnavailable(m) => "Loader unavailable: "@ + m@,
        MonoryxError::JavaNotFound(m) => "Java runtime not found: "@ + m@,
        MonoryxError::JavaIncompatible(m) => "Incompatible Java version: "@ + m@,
        MonoryxError::Download(m) => "Download failed: "@ + m@,
        MonoryxError::Archive(m) => "Archive error: "@ + m@,
        MonoryxError::UnsafePath(m) => "Unsafe archive path rejected: "@ + m@,
        MonoryxError::Instance(m) => "Instance error: "@ + m@,
        MonoryxError::Modrinth(m) => "Modrinth API error: "@ + m@,
        MonoryxError::DependencyConflict(m) => "Dependency conflict: "@ + m@,
        MonoryxError::Launch(m) => "Launch failed: "@ + m@,
        MonoryxError::Http(f) => "Network error: "@ + f.text@,
        MonoryxError::HashMismatch { file, expected, actual } => "Hash mismatch for "@ + file@ + ": expected "@
            + expected@ + ", got "@ + actual@,
        MonoryxError::Other(m) => m@,
    }
}

/// What a user is told of a failed HTTP request: by its status where a
/// response came back, else by whether it timed out or could not connect.
pub open spec fn http_user_message(f: HttpFailure) -> Seq<char> {
    match f.status {
        Some(code) => if code == 404 {
            "The requested file was not found (HTTP 404)."@
        } else if code == 429 {
            "Rate limited (HTTP 429). Please wait and retry."@
        } else if 500 <= code <= 599 {
            "The server returned HTTP "@ + f.status_text@ + ". Please retry."@
        } else {
            "Network request failed: HTTP "@ + f.status_text@ + "."@
        },
        None => if f.timeout {
            "The request timed out. Check your connection and retry."@
        } else if f.connect {
            "Couldn't connect. Check your internet connection."@
        } else {
            "Network error: "@ + f.text@
        },
    }
}

/// What a user is told of an error.
pub open spec fn user_message_spec(e: MonoryxError) -> Seq<char> {
    match e {
        MonoryxError::Http(f) => http_user_message(f),
        MonoryxError::HashMismatch { file, .. } => "File "@ + file@ + " failed integrity verification and was discarded."@,
        MonoryxError::JavaNotFound(m) => "No compatible Java installation found. "@ + m@,
        MonoryxError::InvalidUsername(m) => "Invalid username: "@ + m@,
        _ => message_spec(e),
    }
}

impl HttpFailure {
    fn user_message(&self) -> (r: String)
        ensures
            r@ == http_user_message(*self),
    {
        match self.status {
            Some(code) => if code == 404 {
                from_chars(&lit("The requested file was not found (HTTP 404)."))
            } else if code == 429 {
                from_chars(&lit("Rate limited (HTTP 429). Please wait and retry."))
            } else if 500 <= code && code <= 599 {
                let mut m = lit("The server returned HTTP ");
                push_all(&mut m, &to_chars(&self.status_text));
                push_all(&mut m, &lit(". Please retry."));
                from_chars(&m)
            } else {
                let mut m = lit("Network request failed: HTTP ");
                push_all(&mut m, &to_chars(&self.status_text));
                push_all(&mut m, &lit("."));
                from_chars(&m)
            },
            None => if self.timeout {
                from_chars(&lit("The request timed out. Check your connection and retry."))
            } else if self.connect {
                from_chars(&lit("Couldn't connect. Check your internet connection."))
            } else {
                string_of2(&lit("Network error: "), &to_chars(&self.text))
            },
        }
    }
}

impl MonoryxError {
    /// How the error reads.
    pub fn message(&self) -> (r: String)
        ensures
            r@ == message_spec(*self),
    {
        match self {
            MonoryxError::Io(m) => string_of2(&lit("I/O error: "), &to_chars(m)),
            MonoryxError::Json(m) => string_of2(&lit("JSON error: "), &to_chars(m)),
            MonoryxError::TomlDe(m) => string_of2(&lit("TOML deserialization error: "), &to_chars(m)),
            MonoryxError::TomlSer(m) => string_of2(&lit("TOML serialization error: "), &to_chars(m)),
            MonoryxError::InvalidUsername(m) => string_of2(&lit("Invalid username: "), &to_chars(m)),
            MonoryxError::InvalidConfig(m) => string_of2(&lit("Invalid configuration: "), &to_chars(m)),
            MonoryxError::VersionNotFound(m) => string_of2(&lit("Version not found: "), &to_chars(m)),
            MonoryxError::LoaderUnavailable(m) => string_of2(&lit("Loader unavailable: "), &to_chars(m)),
            MonoryxError::JavaNotFound(m) => string_of2(&lit("Java runtime not found: "), &to_chars(m)),
            MonoryxError::JavaIncompatible(m) => string_of2(&lit("Incompatible Java version: "), &to_chars(m)),
            MonoryxError::Download(m) => string_of2(&lit("Download failed: "), &to_chars(m)),
            MonoryxError::Archive(m) => string_of2(&lit("Archive error: "), &to_chars(m)),
            MonoryxError::UnsafePath(m) => string_of2(&lit("Unsafe archive path rejected: "), &to_chars(m)),
            MonoryxError::Instance(m) => string_of2(&lit("Instance error: "), &to_chars(m)),
            MonoryxError::Modrinth(m) => string_of2(&lit("Modrinth API error: "), &to_chars(m)),
            MonoryxError::DependencyConflict(m) => string_of2(&lit("Dependency conflict: "), &to_chars(m)),
            MonoryxError::Launch(m) => string_of2(&lit("Launch failed: "), &to_chars(m)),
            MonoryxError::Http(f) => string_of2(&lit("Network error: "), &to_chars(&f.text)),
            MonoryxError::HashMismatch { file, expected, actual } => {
                let mut m = lit("Hash mismatch for ");
                push_all(&mut m, &to_chars(file));
                push_all(&mut m, &lit(": expected "));
                push_all(&mut m, &to_chars(expected));
                push_all(&mut m, &lit(", got "));
                push_all(&mut m, &to_chars(actual));
                from_chars(&m)
            },
            MonoryxError::Other(m) => from_chars(&to_chars(m)),
        }
    }

    /// What a user is told of the error.
    pub fn user_message(&self) -> (r: String)
        ensures
            r@ == user_message_spec(*self),
    {
        match self {
            MonoryxError::Http(f) => f.user_message(),
            MonoryxError::HashMismatch { file, .. } => {
                let mut m = lit("File ");
                push_all(&mut m, &to_chars(file));
                push_all(&mut m, &lit(" failed integrity verification and was discarded."));
                from_chars(&m)
            },
            MonoryxError::JavaNotFound(m) => string_of2(&lit("No compatible Java installation found. "), &to_chars(m)),
            MonoryxError::InvalidUsername(m) => string_of2(&lit("Invalid username: "), &to_chars(m)),
            _ => self.message(),
        }
    }
}

} // verus!
