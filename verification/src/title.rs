//! Fault-tolerant title retrieval: absence and read failures map to fixed
//! sentinel strings and are never escalated to an error.

use vstd::prelude::*;

verus! {

/// What the engine reported when asked for the page title.
#[derive(Debug)]
pub enum TitleOutcome {
    /// The page has a title.
    Found(String),
    /// The page has no title.
    Absent,
    /// The title command itself failed.
    ReadFailed,
}

/// The title text an outcome resolves to: the page's own title where one
/// was found, a fixed sentinel otherwise.
pub open spec fn title_text(t: TitleOutcome) -> Seq<char> {
    match t {
        TitleOutcome::Found(s) => s@,
        TitleOutcome::Absent => "No title found"@,
        TitleOutcome::ReadFailed => "Error getting title"@,
    }
}

/// Resolve a title outcome to the text the invocation reports. Total:
/// a failed or absent title yields a sentinel, never an error.
pub fn resolve_title(t: TitleOutcome) -> (r: String)
    ensures
        r@ == title_text(t),
{
    match t {
        TitleOutcome::Found(s) => s,
        TitleOutcome::Absent => "No title found".to_owned(),
        TitleOutcome::ReadFailed => "Error getting title".to_owned(),
    }
}

} // verus!
