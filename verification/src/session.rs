//! The two operations offered to a hosting application, over an engine
//! that may not have been set up yet.
//!
//! The host keeps an `Option<SearchEngine>`: `None` until the store is
//! opened. Failures reach the host as text.

use vstd::prelude::*;
use crate::engine::{not_initialized_text, EngineError, SearchEngine, SearchResult};
use crate::query::is_blank_text;
use crate::ranking::{is_best_first, result_cap};
use crate::scan::{candidates, file_models, ScannedFile};

verus! {

/// Renders the failure of an operation as text and leaves a success as it
/// is.
pub fn report<T>(outcome: Result<T, EngineError>) -> (reported: Result<T, String>)
    ensures
        outcome matches Ok(value) ==> reported == Ok::<T, String>(value),
        outcome matches Err(e) ==> (reported matches Err(text) && text@ == e.text()),
{
    match outcome {
        Ok(value) => Ok(value),
        Err(e) => Err(e.message()),
    }
}

/// Searches the vault's index. Before the engine is set up this fails with
/// `not_initialized_text()`; afterwards it is `SearchEngine::search`.
pub fn search_vault(slot: &Option<SearchEngine>, query: &str) -> (found: Result<
    Vec<SearchResult>,
    String,
>)
    ensures
        slot is None ==> (found matches Err(text) && text@ == not_initialized_text()),
        slot is Some && is_blank_text(query@) ==> (found matches Ok(v) && v@.len() == 0),
        found matches Ok(v) ==> slot is Some && v@.len() <= result_cap() && is_best_first(v@),
{
    match slot {
        Some(engine) => report(engine.search(query)),
        None => report(Err(EngineError::NotInitialized)),
    }
}

/// Indexes one scan of the vault. Before the engine is set up this fails
/// with `not_initialized_text()`; afterwards it is
/// `SearchEngine::index_vault`.
pub fn index_vault(slot: &Option<SearchEngine>, files: &Vec<ScannedFile>) -> (indexed: Result<
    usize,
    String,
>)
    ensures
        slot is None ==> (indexed matches Err(text) && text@ == not_initialized_text()),
        indexed matches Ok(n) ==> slot is Some && n == candidates(file_models(files@)).len(),
{
    match slot {
        Some(engine) => report(engine.index_vault(files)),
        None => report(Err(EngineError::NotInitialized)),
    }
}

} // verus!
