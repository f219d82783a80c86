//! The failures that reach the invocation boundary, and the single
//! message string a failed invocation reports. The deadline error is a
//! kind of its own, distinguishable from session-operation errors.

use vstd::prelude::*;
use vstd::string::StringExecFns;
use crate::response::Response;

verus! {

/// The fatal session-operation errors: which step of the sequence failed.
#[derive(Clone, Copy, PartialEq, Eq, Structural, Debug)]
pub enum ErrorKind {
    /// The engine process or its connection could not be established.
    Launch,
    /// The engine could not open a page to drive.
    PageCreate,
    /// Both navigation paths failed: the direct command and the scripted
    /// fallback.
    NavigationFallback,
    /// The capture or serialization command failed.
    Extraction,
}

/// A fatal session-operation error: its kind, and the engine's own
/// diagnostic text.
#[derive(Clone, PartialEq, Debug)]
pub struct SessionError {
    pub kind: ErrorKind,
    pub detail: String,
}

/// How one invocation ended: a successful result, a fatal
/// session-operation error, or expiry of the fixed deadline. No partial
/// result accompanies a failure.
#[derive(Clone, PartialEq, Debug)]
pub enum Outcome {
    Success(Response),
    Fatal(SessionError),
    Timeout,
}

/// The single message string an outcome reports: the success message of
/// the result; the fixed deadline text on expiry; for a session-operation
/// error, the failing step's diagnostic behind a fixed prefix (a launch
/// failure is reported as the engine gave it, before any session existed).
pub open spec fn outcome_text(o: Outcome) -> Seq<char> {
    match o {
        Outcome::Success(r) => r.message@,
        Outcome::Timeout => "Operation timed out after 60 seconds"@,
        Outcome::Fatal(e) => if e.kind == ErrorKind::Launch {
            e.detail@
        } else {
            "Browser operation failed: "@ + e.detail@
        },
    }
}

/// The message string an invocation reports for its outcome.
pub fn outcome_message(o: &Outcome) -> (m: String)
    ensures
        m@ == outcome_text(*o),
{
    match o {
        Outcome::Success(r) => r.message.clone(),
        Outcome::Timeout => "Operation timed out after 60 seconds".to_owned(),
        Outcome::Fatal(e) => {
            if matches!(e.kind, ErrorKind::Launch) {
                e.detail.clone()
            } else {
                let mut m: String = "Browser operation failed: ".to_owned();
                m.append(e.detail.as_str());
                m
            }
        },
    }
}

/// The deadline error is distinguishable from every session-operation
/// error and from every success: it is a distinct outcome kind.
pub proof fn lemma_timeout_is_distinct(o: Outcome)
    requires
        o is Timeout,
    ensures
        forall|e: SessionError| o != Outcome::Fatal(e),
        forall|r: Response| o != Outcome::Success(r),
{
}

} // verus!
