//! The invocation's successful result: one populated extraction pair,
//! the other entirely absent.

use vstd::prelude::*;
use vstd::string::StringSliceAdditionalSpecFns;
use crate::encode::{base64_encode, base64_of};
use crate::mode::ExtractionMode;

verus! {

/// The byte length of a string's UTF-8 encoding, which is what `str::len`
/// returns.
pub open spec fn byte_len(s: Seq<char>) -> nat {
    vstd::utf8::encode_utf8(s).len()
}

/// One successful invocation's result. Exactly one of the pairs
/// {`content_length`, `html`} and {`screenshot_size`, `screenshot`} is
/// populated; the unused pair is absent, not zero.
#[derive(Debug, Clone, PartialEq)]
pub struct Response {
    pub message: String,
    pub title: String,
    pub url: String,
    pub content_length: Option<usize>,
    pub screenshot_size: Option<usize>,
    pub screenshot: Option<String>,
    pub html: Option<String>,
}

/// Well-formedness of a result: the two extraction pairs are each
/// populated together, and are mutually exclusive.
pub open spec fn response_wf(r: Response) -> bool {
    &&& r.content_length is Some <==> r.html is Some
    &&& r.screenshot_size is Some <==> r.screenshot is Some
    &&& r.html is Some <==> r.screenshot is None
}

/// A result of document extraction for the given title, url and markup:
/// the document pair is populated, the image pair absent.
pub open spec fn is_document_response(
    r: Response,
    title: Seq<char>,
    url: Seq<char>,
    html: Seq<char>,
) -> bool {
    &&& r.message@ == "Successfully processed page"@
    &&& r.title@ == title
    &&& r.url@ == url
    &&& r.html matches Some(h) && h@ == html
    &&& r.content_length matches Some(n) && n == byte_len(html)
    &&& r.screenshot is None
    &&& r.screenshot_size is None
}

/// A result of image extraction for the given title, url and raw image
/// bytes: the image pair is populated (size before encoding, the bytes
/// in their transport-safe text encoding), the document pair absent.
pub open spec fn is_image_response(
    r: Response,
    title: Seq<char>,
    url: Seq<char>,
    bytes: Seq<u8>,
) -> bool {
    &&& r.message@ == "Successfully processed page"@
    &&& r.title@ == title
    &&& r.url@ == url
    &&& r.screenshot matches Some(e) && e@ == base64_of(bytes)
    &&& r.screenshot_size matches Some(n) && n == bytes.len()
    &&& r.html is None
    &&& r.content_length is None
}

/// The result the given extraction mode owes: the matching pair is the
/// populated one.
pub open spec fn matches_mode(r: Response, mode: ExtractionMode) -> bool {
    match mode {
        ExtractionMode::Document => r.html is Some,
        ExtractionMode::Image => r.screenshot is Some,
    }
}

/// Build the result of a successful document extraction.
pub fn document_response(title: String, url: String, html: String) -> (r: Response)
    ensures
        is_document_response(r, title@, url@, html@),
        response_wf(r),
        matches_mode(r, ExtractionMode::Document),
{
    let content_length: usize = html.as_str().as_bytes().len();
    Response {
        message: "Successfully processed page".to_owned(),
        title,
        url,
        content_length: Some(content_length),
        screenshot_size: None,
        screenshot: None,
        html: Some(html),
    }
}

/// Build the result of a successful image capture: the raw bytes are
/// encoded to transport-safe text, and the recorded size is the byte
/// count before encoding.
pub fn image_response(title: String, url: String, bytes: &Vec<u8>) -> (r: Response)
    requires
        4 * ((bytes@.len() + 2) / 3) <= usize::MAX,
    ensures
        is_image_response(r, title@, url@, bytes@),
        response_wf(r),
        matches_mode(r, ExtractionMode::Image),
{
    let encoded: String = base64_encode(bytes);
    image_response_from_encoded(title, url, bytes.len(), encoded)
}

/// Build an image result from an already-encoded image: the populated
/// pair is exactly the given size and encoding.
pub fn image_response_from_encoded(
    title: String,
    url: String,
    byte_size: usize,
    encoded: String,
) -> (r: Response)
    ensures
        r.message@ == "Successfully processed page"@,
        r.title == title,
        r.url == url,
        r.screenshot == Some(encoded),
        r.screenshot_size == Some(byte_size),
        r.html is None,
        r.content_length is None,
        response_wf(r),
        matches_mode(r, ExtractionMode::Image),
{
    Response {
        message: "Successfully processed page".to_owned(),
        title,
        url,
        content_length: None,
        screenshot_size: Some(byte_size),
        screenshot: Some(encoded),
        html: None,
    }
}

/// Exactly one extraction pair is populated per successful result, and it
/// is the pair the extraction mode asked for; this holds for every mode
/// value.
pub proof fn lemma_exactly_one_pair(r: Response, mode: ExtractionMode)
    requires
        response_wf(r),
        matches_mode(r, mode),
    ensures
        mode == ExtractionMode::Document ==> r.html is Some && r.content_length is Some
            && r.screenshot is None && r.screenshot_size is None,
        mode == ExtractionMode::Image ==> r.screenshot is Some && r.screenshot_size is Some
            && r.html is None && r.content_length is None,
{
}

} // verus!
