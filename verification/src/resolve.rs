//! Binary resolution: a persisted fast path first, then discovery plus
//! selection. The caller reads the persisted store and checks the
//! filesystem, and hands the observations in as plain values.

use vstd::prelude::*;
use vstd::string::StringExecFns;

use crate::errors::{ErrorKind, GeminiError};
use crate::install::{spec_select_best, select_best_gemini_installation, GeminiInstallation};

verus! {

/// The guidance shown when no installation is discoverable anywhere.
pub fn not_found_message() -> (r: String)
    ensures
        r@ == "No Gemini CLI installations found. Please install with: npm install -g @google/gemini-cli"@,
{
    String::from_str(
        "No Gemini CLI installations found. Please install with: npm install -g @google/gemini-cli",
    )
}

/// The persisted fast path: a previously chosen path is used only when it
/// still exists as a regular file; a missing or stale entry is ignored and
/// resolution falls through to discovery.
pub fn resolve_stored_path(stored: Option<String>, stored_is_file: bool) -> (r: Option<String>)
    ensures
        stored is Some && stored_is_file ==> r == stored,
        !(stored is Some && stored_is_file) ==> r is None,
{
    match stored {
        Some(p) => {
            if stored_is_file {
                Some(p)
            } else {
                None
            }
        },
        None => None,
    }
}

/// Resolve one authoritative binary path. A persisted path that still
/// exists as a regular file wins outright; otherwise the best of the
/// discovered records is chosen, and an empty discovery is the only
/// failure.
pub fn find_gemini_binary(
    stored: Option<String>,
    stored_is_file: bool,
    discovered: &Vec<GeminiInstallation>,
) -> (r: Result<String, GeminiError>)
    ensures
        stored is Some && stored_is_file ==> r is Ok && r->Ok_0@ == stored->0@,
        !(stored is Some && stored_is_file) && discovered@.len() == 0 ==> r is Err
            && r->Err_0.kind == ErrorKind::NotFound && r->Err_0.detail@
            == "No Gemini CLI installations found. Please install with: npm install -g @google/gemini-cli"@,
        !(stored is Some && stored_is_file) && discovered@.len() > 0 ==> r is Ok && r->Ok_0@
            == spec_select_best(discovered.deep_view()).path,
{
    match resolve_stored_path(stored, stored_is_file) {
        Some(p) => Ok(p),
        None => {
            if discovered.len() == 0 {
                Err(GeminiError::new(ErrorKind::NotFound, not_found_message()))
            } else {
                let best = select_best_gemini_installation(discovered);
                Ok(best.path.clone())
            }
        },
    }
}

} // verus!
