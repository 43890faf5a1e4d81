//! What a test case reports.

use vstd::prelude::*;
use vstd::string::*;
use crate::client::ClientError;
use crate::json::Json;
use crate::text::{decimal, decimal_text};

verus! {

/// Why a test case failed.
#[derive(Debug, PartialEq, Eq)]
pub enum Diagnostic {
    /// A call failed where the script expected it to succeed.
    Call(ClientError),
    /// A call failed in the numbered phase of a multi-phase script.
    Phase { phase: u8, error: ClientError },
    /// The created session has an empty id.
    EmptyId,
    /// The created session has a null creation time.
    NullCreatedAt,
    /// The session's payload is not the one that was sent.
    UnexpectedData(Json),
    /// The fetched session is not the created one.
    IdMismatch { fetched: String, created: String },
    /// A deletion answered with another status than "no content".
    DeleteStatus(u16),
    /// The session with this id is still there after its deletion.
    StillExists(String),
    /// A session was returned for an id that nobody created.
    ExpectedMissing,
    /// The session outlived its time to live.
    StillAlive,
    /// The session of a crashed worker is still served: the recovery script
    /// failed in its phase 4.
    CrashedSessionAlive,
    /// Some of the concurrent creations failed.
    SlotsFailed { failed: usize, count: usize, first: ClientError },
    /// The number of sessions created is not the number asked for.
    SessionCount { expected: usize, got: usize },
    /// Some concurrent creations were given the same id.
    DuplicateIds { expected: usize, unique: usize },
    /// The driver handed over an event that answers no pending action.
    OutOfTurn,
}

/// The result of one test case: nothing on success, the reason on failure.
#[derive(Debug, PartialEq, Eq)]
pub enum Outcome {
    Success,
    Failure(Diagnostic),
}

impl Outcome {
    /// Tells whether this is `Success`.
    pub fn is_success(&self) -> (r: bool)
        ensures
            r == (self is Success),
    {
        match self {
            Outcome::Success => true,
            Outcome::Failure(_) => false,
        }
    }
}

/// The phase of the recovery script in which it looks for the session of
/// the crashed worker.
pub const RECOVERY_LOOK_PHASE: u8 = 4;

impl Diagnostic {
    /// The number of the phase in which a multi-phase script failed; `None`
    /// for a failure that belongs to no numbered phase.
    pub open spec fn phase_number(self) -> Option<u8> {
        match self {
            Diagnostic::Phase { phase, error } => Some(phase),
            Diagnostic::CrashedSessionAlive => Some(RECOVERY_LOOK_PHASE),
            _ => None,
        }
    }

    /// The number of the phase in which a multi-phase script failed.
    pub fn phase(&self) -> (r: Option<u8>)
        ensures
            r == self.phase_number(),
    {
        match self {
            Diagnostic::Phase { phase, error } => Some(*phase),
            Diagnostic::CrashedSessionAlive => Some(RECOVERY_LOOK_PHASE),
            _ => None,
        }
    }

    /// The reason in words.
    pub open spec fn text(self) -> Seq<char> {
        match self {
            Diagnostic::Call(error) => error.text(),
            Diagnostic::Phase { phase, error } => "phase "@ + decimal(phase as nat) + ": "@
                + error.text(),
            Diagnostic::EmptyId => "session id is empty"@,
            Diagnostic::NullCreatedAt => "created_at is null"@,
            Diagnostic::UnexpectedData(_) => "unexpected data"@,
            Diagnostic::IdMismatch { fetched, created } => "id mismatch: "@ + fetched@ + " != "@
                + created@,
            Diagnostic::DeleteStatus(status) => "expected 204, got "@ + decimal(status as nat),
            Diagnostic::StillExists(id) => "session still exists after delete: "@ + id@,
            Diagnostic::ExpectedMissing => "expected 404 but got a session"@,
            Diagnostic::StillAlive => "session still alive after TTL, expected 404"@,
            Diagnostic::CrashedSessionAlive => "phase 4: expected 404 for crashed session, got a session"@,
            Diagnostic::SlotsFailed { failed, count, first } => decimal(failed as nat) + "/"@
                + decimal(count as nat) + " failed: "@ + first.text(),
            Diagnostic::SessionCount { expected, got } => "expected "@ + decimal(expected as nat)
                + " sessions, got "@ + decimal(got as nat),
            Diagnostic::DuplicateIds { expected, unique } => "expected "@ + decimal(
                expected as nat,
            ) + " unique session IDs, got "@ + decimal(unique as nat),
            Diagnostic::OutOfTurn => "event out of turn"@,
        }
    }

    /// The reason in words, for the report.
    pub fn message(&self) -> (r: String)
        ensures
            r@ == self.text(),
    {
        match self {
            Diagnostic::Call(error) => error.message(),
            Diagnostic::Phase { phase, error } => {
                let mut r = String::from_str("phase ");
                r.append(decimal_text(*phase as u64).as_str());
                r.append(": ");
                r.append(error.message().as_str());
                r
            },
            Diagnostic::EmptyId => String::from_str("session id is empty"),
            Diagnostic::NullCreatedAt => String::from_str("created_at is null"),
            Diagnostic::UnexpectedData(_) => String::from_str("unexpected data"),
            Diagnostic::IdMismatch { fetched, created } => {
                let mut r = String::from_str("id mismatch: ");
                r.append(fetched.as_str());
                r.append(" != ");
                r.append(created.as_str());
                r
            },
            Diagnostic::DeleteStatus(status) => {
                let mut r = String::from_str("expected 204, got ");
                r.append(decimal_text(*status as u64).as_str());
                r
            },
            Diagnostic::StillExists(id) => {
                let mut r = String::from_str("session still exists after delete: ");
                r.append(id.as_str());
                r
            },
            Diagnostic::ExpectedMissing => String::from_str("expected 404 but got a session"),
            Diagnostic::StillAlive => String::from_str(
                "session still alive after TTL, expected 404",
            ),
            Diagnostic::CrashedSessionAlive => String::from_str(
                "phase 4: expected 404 for crashed session, got a session",
            ),
            Diagnostic::SlotsFailed { failed, count, first } => {
                let mut r = decimal_text(*failed as u64);
                r.append("/");
                r.append(decimal_text(*count as u64).as_str());
                r.append(" failed: ");
                r.append(first.message().as_str());
                r
            },
            Diagnostic::SessionCount { expected, got } => {
                let mut r = String::from_str("expected ");
                r.append(decimal_text(*expected as u64).as_str());
                r.append(" sessions, got ");
                r.append(decimal_text(*got as u64).as_str());
                r
            },
            Diagnostic::DuplicateIds { expected, unique } => {
                let mut r = String::from_str("expected ");
                r.append(decimal_text(*expected as u64).as_str());
                r.append(" unique session IDs, got ");
                r.append(decimal_text(*unique as u64).as_str());
                r
            },
            Diagnostic::OutOfTurn => String::from_str("event out of turn"),
        }
    }
}

} // verus!
