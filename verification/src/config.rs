//! The configuration store adapter's model: the settings document as plain
//! values, the documented defaults, and the default-on-missing /
//! corrupt-on-unparsable outcomes. Reading and writing the backing
//! document, and its serialized form, belong to the caller.

use vstd::prelude::*;
use vstd::string::StringExecFns;

use crate::errors::{ErrorKind, GeminiError};

verus! {

/// The persisted settings: API key, chosen model, project id, and
/// open-ended extra key-value fields kept for forward compatibility, in
/// document order.
#[derive(Debug)]
pub struct GeminiConfig {
    pub api_key: Option<String>,
    pub model: Option<String>,
    pub project_id: Option<String>,
    pub extra: Vec<(String, String)>,
}

impl Default for GeminiConfig {
    /// The defaults used when no persisted document exists: only the
    /// model is set.
    fn default() -> (r: GeminiConfig)
        ensures
            r.api_key is None,
            r.model matches Some(m) && m@ == "gemini-2.0-flash-exp"@,
            r.project_id is None,
            r.extra@.len() == 0,
    {
        GeminiConfig {
            api_key: None,
            model: Some(String::from_str("gemini-2.0-flash-exp")),
            project_id: None,
            extra: Vec::new(),
        }
    }
}

impl GeminiConfig {
    /// An equal copy of the configuration.
    pub fn duplicate(&self) -> (r: GeminiConfig)
        ensures
            r.api_key == self.api_key,
            r.model == self.model,
            r.project_id == self.project_id,
            r.extra@ == self.extra@,
    {
        let mut extra: Vec<(String, String)> = Vec::new();
        let mut i: usize = 0;
        while i < self.extra.len()
            invariant
                i <= self.extra.len(),
                extra@ == self.extra@.subrange(0, i as int),
            decreases self.extra.len() - i,
        {
            let pair = (self.extra[i].0.clone(), self.extra[i].1.clone());
            extra.push(pair);
            proof {
                assert(self.extra@.subrange(0, i as int + 1) =~= self.extra@.subrange(
                    0,
                    i as int,
                ).push(self.extra@[i as int]));
            }
            i += 1;
        }
        proof {
            assert(self.extra@.subrange(0, self.extra@.len() as int) =~= self.extra@);
        }
        GeminiConfig {
            api_key: match &self.api_key {
                Some(v) => Some(v.clone()),
                None => None,
            },
            model: match &self.model {
                Some(v) => Some(v.clone()),
                None => None,
            },
            project_id: match &self.project_id {
                Some(v) => Some(v.clone()),
                None => None,
            },
            extra,
        }
    }
}

/// What loading yields, given what the backing document held: no document
/// at all yields the defaults without error; an unparsable document fails
/// with `ConfigCorrupt`; a parsed document is returned unchanged.
pub fn get_gemini_config(doc: Option<Result<GeminiConfig, String>>) -> (r: Result<
    GeminiConfig,
    GeminiError,
>)
    ensures
        doc is None ==> r is Ok && r->Ok_0.api_key is None && (r->Ok_0.model matches Some(m) && m@
            == "gemini-2.0-flash-exp"@) && r->Ok_0.project_id is None && r->Ok_0.extra@.len()
            == 0,
        doc matches Some(Ok(c)) ==> r == Ok::<GeminiConfig, GeminiError>(c),
        doc matches Some(Err(e)) ==> r is Err && r->Err_0.kind == ErrorKind::ConfigCorrupt
            && r->Err_0.detail@ == "Failed to parse Gemini config: "@ + e@,
{
    match doc {
        None => Ok(GeminiConfig::default()),
        Some(Ok(c)) => Ok(c),
        Some(Err(e)) => {
            let mut detail = String::from_str("Failed to parse Gemini config: ");
            detail.append(e.as_str());
            Err(GeminiError::new(ErrorKind::ConfigCorrupt, detail))
        },
    }
}

/// What saving yields, given whether the write of the serialized document
/// succeeded: any I/O failure surfaces as `PersistFailed`.
pub fn save_config_outcome(write_error: Option<String>) -> (r: Result<(), GeminiError>)
    ensures
        write_error is None <==> r is Ok,
        write_error matches Some(e) ==> r is Err && r->Err_0.kind == ErrorKind::PersistFailed
            && r->Err_0.detail@ == "Failed to write Gemini config: "@ + e@,
{
    match write_error {
        None => Ok(()),
        Some(e) => {
            let mut detail = String::from_str("Failed to write Gemini config: ");
            detail.append(e.as_str());
            Err(GeminiError::new(ErrorKind::PersistFailed, detail))
        },
    }
}

/// The fixed list of supported model identifiers.
pub fn get_gemini_models() -> (r: Vec<String>)
    ensures
        r.deep_view() == seq!["gemini-2.0-flash-exp"@],
{
    let mut r: Vec<String> = Vec::new();
    r.push(String::from_str("gemini-2.0-flash-exp"));
    proof {
        assert(r.deep_view() =~= seq!["gemini-2.0-flash-exp"@]);
    }
    r
}

} // verus!
