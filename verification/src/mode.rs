//! The extraction mode a request selects, and its default.

use vstd::prelude::*;

verus! {

/// The two kinds of output one invocation can produce: the serialized
/// document, or a rendered image of the page.
#[derive(Clone, Copy, PartialEq, Eq, Structural, Debug)]
pub enum ExtractionMode {
    Document,
    Image,
}

/// The mode a request selects: `Document` exactly for the string "html";
/// `Image` for every other string and for an absent mode.
pub open spec fn mode_of(m: Option<String>) -> ExtractionMode {
    match m {
        Some(s) => if s@ == "html"@ {
            ExtractionMode::Document
        } else {
            ExtractionMode::Image
        },
        None => ExtractionMode::Image,
    }
}

/// Decide the extraction mode of a request's optional `mode` string.
pub fn select_mode(mode: &Option<String>) -> (r: ExtractionMode)
    ensures
        r == mode_of(*mode),
{
    match mode {
        Some(s) => {
            let document_key: String = "html".to_owned();
            if *s == document_key {
                ExtractionMode::Document
            } else {
                ExtractionMode::Image
            }
        },
        None => ExtractionMode::Image,
    }
}

/// A request with no `mode`, or with any `mode` other than "html",
/// selects image extraction: the default is idempotent over every
/// unrecognized value.
pub proof fn lemma_unrecognized_mode_defaults_to_image(m: Option<String>)
    requires
        m matches Some(s) ==> s@ != "html"@,
    ensures
        mode_of(m) == ExtractionMode::Image,
{
}

} // verus!
