//! The script-based fallback navigation: a small page script that sets the
//! page's location to the target URL.

use vstd::prelude::*;
use vstd::string::StringExecFns;

verus! {

/// The text of the fallback navigation script for a target URL.
pub open spec fn nav_script_text(url: Seq<char>) -> Seq<char> {
    "window.location.href = '"@ + url + "'"@
}

/// Build the fallback navigation script that sets the page's location to
/// `url`.
pub fn navigation_script(url: &str) -> (s: String)
    ensures
        s@ == nav_script_text(url@),
{
    let mut s: String = "window.location.href = '".to_owned();
    s.append(url);
    s.append("'");
    s
}

} // verus!
