//! Engine configuration decisions: the executable path may be overridden
//! by the environment, else a fixed default is used. Reading the
//! environment itself is the unverified shell's job.

use vstd::prelude::*;

verus! {

/// The fixed default path of the rendering engine's executable.
pub open spec fn default_engine_path() -> Seq<char> {
    "/opt/chromium/chrome"@
}

/// Resolve the engine executable's path: an environment-provided override
/// wins; otherwise the fixed default is used.
pub fn resolve_engine_path(override_path: Option<String>) -> (p: String)
    ensures
        match override_path {
            Some(o) => p == o,
            None => p@ == default_engine_path(),
        },
{
    match override_path {
        Some(o) => o,
        None => "/opt/chromium/chrome".to_owned(),
    }
}

} // verus!
