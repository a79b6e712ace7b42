//! Validation of a candidate binary and the health report built from it.
//! The caller invokes the binary and hands back what it observed as an
//! [`InvocationResult`]; the functions here decide what that observation
//! means.

use vstd::prelude::*;
use vstd::string::StringExecFns;

use crate::errors::{ErrorKind, GeminiError};

verus! {

/// What one invocation of the binary was observed to do.
pub enum InvocationResult {
    /// The binary could not be invoked at all.
    Failed { error: String },
    /// The binary ran to completion with the given exit status and
    /// captured, trimmed output streams.
    Completed { status_ok: bool, stdout: String, stderr: String },
}

/// The health report: whether the tool is installed and working, the
/// version when known, and the raw probe output.
#[derive(Debug)]
pub struct GeminiVersionStatus {
    /// Whether the tool is installed and answers the version probe.
    pub is_installed: bool,
    /// The version string when available.
    pub version: Option<String>,
    /// The full output the probe produced.
    pub output: String,
}

/// Validation of a candidate binary via its version probe: a clean exit
/// yields the trimmed standard output as the version; any failure to
/// invoke, or a failing exit, is `ExecutionFailed`.
pub fn test_gemini_binary(outcome: InvocationResult) -> (r: Result<String, GeminiError>)
    ensures
        outcome matches InvocationResult::Completed { status_ok, stdout, stderr } ==> if status_ok {
            r is Ok && r->Ok_0@ == stdout@
        } else {
            r is Err && r->Err_0.kind == ErrorKind::ExecutionFailed && r->Err_0.detail@
                == "Gemini binary test failed: "@ + stderr@
        },
        outcome matches InvocationResult::Failed { error } ==> r is Err && r->Err_0.kind
            == ErrorKind::ExecutionFailed && r->Err_0.detail@ == "Failed to execute Gemini binary: "@
            + error@,
{
    match outcome {
        InvocationResult::Completed { status_ok, stdout, stderr } => {
            if status_ok {
                Ok(stdout)
            } else {
                let mut detail = String::from_str("Gemini binary test failed: ");
                detail.append(stderr.as_str());
                Err(GeminiError::new(ErrorKind::ExecutionFailed, detail))
            }
        },
        InvocationResult::Failed { error } => {
            let mut detail = String::from_str("Failed to execute Gemini binary: ");
            detail.append(error.as_str());
            Err(GeminiError::new(ErrorKind::ExecutionFailed, detail))
        },
    }
}

/// The soft version probe used during discovery: only a clean exit yields
/// a version string; any failure yields none and is not fatal.
pub fn version_from_probe(outcome: InvocationResult) -> (r: Option<String>)
    ensures
        outcome matches InvocationResult::Completed { status_ok, stdout, stderr } ==> if status_ok {
            r matches Some(v) && v@ == stdout@
        } else {
            r is None
        },
        outcome matches InvocationResult::Failed { error } ==> r is None,
{
    match outcome {
        InvocationResult::Completed { status_ok, stdout, stderr: _ } => {
            if status_ok {
                Some(stdout)
            } else {
                None
            }
        },
        InvocationResult::Failed { error: _ } => None,
    }
}

/// The health report built from the validation outcome: a working binary
/// reports installed with its version as both version and output; a
/// failing one reports not installed with the failure text as output.
pub fn get_gemini_version(probe: Result<String, GeminiError>) -> (r: GeminiVersionStatus)
    ensures
        probe matches Ok(v) ==> r.is_installed && (r.version matches Some(x) && x@ == v@)
            && r.output@ == v@,
        probe matches Err(e) ==> !r.is_installed && r.version is None && r.output@ == e.detail@,
{
    match probe {
        Ok(v) => GeminiVersionStatus {
            is_installed: true,
            version: Some(v.clone()),
            output: v,
        },
        Err(e) => GeminiVersionStatus { is_installed: false, version: None, output: e.detail },
    }
}

/// The connection test: a clean exit of the binary's help probe answers
/// true; a failing exit surfaces its standard error; a binary that could
/// not be invoked surfaces the invocation error.
pub fn test_gemini_connection(outcome: InvocationResult) -> (r: Result<bool, GeminiError>)
    ensures
        outcome matches InvocationResult::Completed { status_ok, stdout, stderr } ==> if status_ok {
            r == Ok::<bool, GeminiError>(true)
        } else {
            r is Err && r->Err_0.kind == ErrorKind::ExecutionFailed && r->Err_0.detail@
                == "Gemini connection test failed: "@ + stderr@
        },
        outcome matches InvocationResult::Failed { error } ==> r is Err && r->Err_0.kind
            == ErrorKind::ExecutionFailed && r->Err_0.detail@
            == "Failed to test Gemini connection: "@ + error@,
{
    match outcome {
        InvocationResult::Completed { status_ok, stdout: _, stderr } => {
            if status_ok {
                Ok(true)
            } else {
                let mut detail = String::from_str("Gemini connection test failed: ");
                detail.append(stderr.as_str());
                Err(GeminiError::new(ErrorKind::ExecutionFailed, detail))
            }
        },
        InvocationResult::Failed { error } => {
            let mut detail = String::from_str("Failed to test Gemini connection: ");
            detail.append(error.as_str());
            Err(GeminiError::new(ErrorKind::ExecutionFailed, detail))
        },
    }
}

} // verus!
