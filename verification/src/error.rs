//! The error taxonomy of the harvesting pipeline. Every fatal condition is
//! reported through one variant here; parse degradation inside the
//! extraction engine is by design not an error and never appears here.

use vstd::prelude::*;

verus! {

/// Declares rusqlite's error type so that storage failures can be carried
/// through the library unchanged; the library never looks inside one.
#[verifier::external_type_specification]
#[verifier::external_body]
pub struct ExRusqliteError(rusqlite::Error);

/// Declares reqwest's error type so that transport failures can be
/// carried through unchanged; the library never looks inside one.
#[verifier::external_type_specification]
#[verifier::external_body]
pub struct ExReqwestError(reqwest::Error);

#[derive(Debug)]
pub enum PipelineError {
    /// A storage failure reported by the sqlite engine.
    Sqlite(rusqlite::Error),
    /// A transport failure while fetching a live source.
    ReqwestError(reqwest::Error),
    /// No source is registered under the given name.
    HunterNotFound(String),
    /// No sink is registered under the given name.
    ProcessorNotFound(String),
    /// A malformed sink specification string.
    ProcessorError(String),
}

} // verus!
