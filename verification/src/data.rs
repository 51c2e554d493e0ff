//! Where the data of a request may be read from: resolution of relative paths
//! under a configured data root, the allowlist check on the canonical path, the
//! CSV-only rule, and the errors reported when loading fails.
//!
//! Whether a path is absolute, whether one path starts with another and what a
//! path's extension is depend on the platform's path rules; the caller asks the
//! platform and hands the answers in as plain values.

use vstd::prelude::*;

use crate::error::{agrees, invalid, AgentApiError};
use crate::text::{join2, join4, owned, same_text};
use crate::validate::opt_string;

verus! {

/// How a requested data path is to be resolved before canonicalization.
#[derive(Debug, Clone, Copy, PartialEq, Eq, Structural)]
pub enum DataPathResolution {
    /// Use the path as given.
    AsGiven,
    /// Join the path onto the configured data root.
    UnderRoot,
}

/// An absolute path is used as given; a relative one is joined onto the data root
/// when one is configured, and used as given otherwise.
pub open spec fn resolution_of(path_is_absolute: bool, root_configured: bool) -> DataPathResolution {
    if !path_is_absolute && root_configured {
        DataPathResolution::UnderRoot
    } else {
        DataPathResolution::AsGiven
    }
}

/// Decides how a requested data path is resolved. `path_is_absolute` is the
/// platform's verdict on the requested path; `root_configured` tells whether a data
/// root is set.
pub fn resolve_data_path(path_is_absolute: bool, root_configured: bool) -> (r: DataPathResolution)
    ensures
        r == resolution_of(path_is_absolute, root_configured),
{
    if !path_is_absolute && root_configured {
        DataPathResolution::UnderRoot
    } else {
        DataPathResolution::AsGiven
    }
}

/// The configured data root as the platform reports it after canonicalization.
#[derive(Debug)]
pub struct RootFacts {
    /// The root's canonical path as `{:?}` prints it.
    pub canonical_debug: String,
    /// The canonical data path starts with the canonical root (component-wise).
    pub contains_path: bool,
}

/// What the platform reports of a canonicalized data path.
#[derive(Debug)]
pub struct LocationFacts {
    /// The canonical data path as `{:?}` prints it.
    pub canonical_debug: String,
    /// Present when a data root is configured.
    pub root: Option<RootFacts>,
    /// The extension of the canonical path, when it has one that is valid UTF-8.
    pub extension: Option<String>,
}

/// What is wrong with the location of the data, if anything: a path outside the
/// data root first, then a file that is not a CSV file.
pub open spec fn location_problem(facts: LocationFacts) -> Option<Seq<char>> {
    if facts.root is Some && !facts.root->0.contains_path {
        Some(
            "data_path "@ + facts.canonical_debug@ + " is outside LME_MCP_DATA_ROOT "@
                + facts.root->0.canonical_debug@,
        )
    } else if opt_string(facts.extension) != Some("csv"@) {
        Some("only CSV files are supported in this MCP server version"@)
    } else {
        None
    }
}

/// Accepts a canonical data path only inside the data root (when one is
/// configured) and only with the `csv` extension.
pub fn check_data_location(facts: &LocationFacts) -> (r: Result<(), AgentApiError>)
    ensures
        agrees(
            r,
            match location_problem(*facts) {
                Some(m) => Err(invalid(m)),
                None => Ok(()),
            },
        ),
{
    if let Some(root) = &facts.root {
        if !root.contains_path {
            let m = join4(
                "data_path ",
                facts.canonical_debug.as_str(),
                " is outside LME_MCP_DATA_ROOT ",
                root.canonical_debug.as_str(),
            );
            return Err(AgentApiError::InvalidInput(m));
        }
    }
    let is_csv = match &facts.extension {
        Some(e) => same_text(e.as_str(), "csv"),
        None => false,
    };
    if !is_csv {
        return Err(
            AgentApiError::InvalidInput(owned("only CSV files are supported in this MCP server version")),
        );
    }
    Ok(())
}

/// A step of loading data that failed.
#[derive(Debug)]
pub enum LoadFailure {
    /// The requested path (as requested) could not be canonicalized.
    PathUnreachable(String),
    /// The data root (as `{:?}` prints it) could not be canonicalized.
    RootUnreachable(String),
    /// The canonical file (as `{:?}` prints it) could not be opened.
    Unopenable(String),
    /// The canonical file (as `{:?}` prints it) is not readable CSV.
    Unparsable(String),
}

/// The message reported for a failed loading step.
pub open spec fn load_failure_message(f: LoadFailure) -> Seq<char> {
    match f {
        LoadFailure::PathUnreachable(p) => "data_path not found or inaccessible: "@ + p@,
        LoadFailure::RootUnreachable(r) => "LME_MCP_DATA_ROOT not found or inaccessible: "@ + r@,
        LoadFailure::Unopenable(p) => "failed to open "@ + p@,
        LoadFailure::Unparsable(p) => "failed to parse CSV "@ + p@,
    }
}

/// The error reported to the agent when loading its data fails: bad input, with
/// the message of the failed step.
pub fn load_error(failure: LoadFailure) -> (e: AgentApiError)
    ensures
        e@ == invalid(load_failure_message(failure)),
{
    let m = match &failure {
        LoadFailure::PathUnreachable(p) => join2("data_path not found or inaccessible: ", p.as_str()),
        LoadFailure::RootUnreachable(r) => join2("LME_MCP_DATA_ROOT not found or inaccessible: ", r.as_str()),
        LoadFailure::Unopenable(p) => join2("failed to open ", p.as_str()),
        LoadFailure::Unparsable(p) => join2("failed to parse CSV ", p.as_str()),
    };
    AgentApiError::InvalidInput(m)
}

} // verus!
