//! The errors a request can end in.

use vstd::prelude::*;
use vstd::string::StringExecFns;

verus! {

/// Why a request failed.
///
/// The two kinds are kept apart on purpose: a store that cannot be locked is
/// the server's fault, a path that names no identifier is the client's.
#[derive(Debug, Clone, Copy, PartialEq, Eq, Structural)]
pub enum ApiError {
    /// The lock around the store could not be acquired.
    MutexLock,
    /// The path carries no identifier, or one that cannot be read.
    PathVariable,
}

impl ApiError {
    /// The short label of the operation that failed.
    pub open spec fn name_text(self) -> Seq<char> {
        match self {
            ApiError::MutexLock => "mutex lock"@,
            ApiError::PathVariable => "path variable"@,
        }
    }

    /// The status code of the response: a server error for the lock, a client
    /// error for the path.
    pub open spec fn status_code(self) -> nat {
        match self {
            ApiError::MutexLock => 500,
            ApiError::PathVariable => 400,
        }
    }

    /// The body of the response.
    pub open spec fn message_text(self) -> Seq<char> {
        "my error: "@ + self.name_text()
    }

    /// The short label of the operation that failed.
    pub fn name(&self) -> (label: &'static str)
        ensures
            label@ == self.name_text(),
    {
        match self {
            ApiError::MutexLock => "mutex lock",
            ApiError::PathVariable => "path variable",
        }
    }

    /// The status code of the response.
    pub fn status(&self) -> (code: u16)
        ensures
            code == self.status_code(),
            self.status_code() == 500 || self.status_code() == 400,
    {
        match self {
            ApiError::MutexLock => 500,
            ApiError::PathVariable => 400,
        }
    }

    /// The body of the response: `my error: ` and the label.
    pub fn message(&self) -> (text: String)
        ensures
            text@ == self.message_text(),
    {
        let mut text = String::from_str("my error: ");
        text.append(self.name());
        text
    }
}

} // verus!
