//! The failures that a request for a part or for a schematic can end in.

use vstd::prelude::*;

verus! {

/// Why a request produced no result.
#[derive(Clone, Copy, Debug, PartialEq, Eq, Structural)]
pub enum Error {
    /// The remote service could not be asked: the request could not be formed or sent,
    /// or no answer came back.
    Transport,
    /// The answer is not in the expected form: not UTF-8, not JSON, not an archive.
    Decode,
    /// The answer is well formed and does not hold what was asked for.
    NotFound,
    /// The answer is well formed and reports that the request failed.
    Protocol,
}

impl Error {
    /// The HTTP status under which a failure is reported: 404 for what was not found,
    /// 500 for everything else.
    pub open spec fn status(self) -> u16 {
        if self == Error::NotFound {
            404
        } else {
            500
        }
    }

    /// Computes [`Error::status`].
    pub fn status_code(&self) -> (code: u16)
        ensures
            code == self.status(),
    {
        match self {
            Error::NotFound => 404,
            _ => 500,
        }
    }

    /// A short description of the failure, for logs and response bodies.
    pub fn message(&self) -> (text: String)
        ensures
            text@ == match *self {
                Error::Transport => "the remote service could not be reached"@,
                Error::Decode => "the remote service sent an unreadable answer"@,
                Error::NotFound => "the requested item was not found"@,
                Error::Protocol => "the remote service reported a failure"@,
            },
    {
        match self {
            Error::Transport => "the remote service could not be reached".to_string(),
            Error::Decode => "the remote service sent an unreadable answer".to_string(),
            Error::NotFound => "the requested item was not found".to_string(),
            Error::Protocol => "the remote service reported a failure".to_string(),
        }
    }
}

} // verus!
