//! The search engine: schema, indexing, ranked queries and usage records
//! over one SQLite store.
//!
//! What the store answers is SQLite's to decide. The functions that call it
//! state what holds whatever it answers; the functions that work on its
//! answers (`rank_results`, `classify_query_fault`, `usage_from_rows`,
//! `next_usage`) are
//! stated exactly.

use vstd::prelude::*;
use vstd::string::*;
use crate::query::{is_blank, is_blank_text, match_expression};
use crate::ranking::{is_best_first, rank_results, result_cap};
use crate::scan::{candidates, document_models, file_models, select_candidates, Document, ScannedFile};
use crate::store::{
    describe, execute, open_connection, prepare, query_hits, query_integer_pairs, run_batch,
    sqlite_code,
};

verus! {

/// Why an operation of the engine failed.
#[derive(Debug)]
pub enum EngineError {
    /// The store could not be opened, or a read or write against it failed.
    Storage(String),
    /// The full-text matcher rejected the query expression.
    Query(String),
    /// An operation was asked for before the store was opened.
    NotInitialized,
}

/// One ranked match of a query.
///
/// `score_bits` is the IEEE 754 bit pattern of the relevance rank that the
/// matcher computed; a lower rank is a better match.
#[derive(Debug)]
pub struct SearchResult {
    pub id: String,
    pub path: String,
    pub title: String,
    pub preview: String,
    pub score_bits: u64,
}

/// How often and when a document was last opened.
#[derive(Debug)]
pub struct UsageRecord {
    pub item_id: String,
    pub usage_count: i64,
    pub last_accessed: i64,
}

/// The engine and the store it owns.
pub struct SearchEngine {
    pub conn: rusqlite::Connection,
}

/// SQLite's result code for a statement that it rejects as wrong in itself,
/// which is how the matcher reports a malformed expression.
pub open spec fn rejected_code() -> i32 {
    1
}

/// What is reported when the engine is used before it was set up.
pub open spec fn not_initialized_text() -> Seq<char> {
    "Search engine not initialized"@
}

/// The error that a failed query step stands for.
pub open spec fn query_fault(code: Option<i32>, message: String) -> EngineError {
    if code == Some(rejected_code()) {
        EngineError::Query(message)
    } else {
        EngineError::Storage(message)
    }
}

impl EngineError {
    /// The text of the failure.
    pub open spec fn text(self) -> Seq<char> {
        match self {
            EngineError::Storage(message) => message@,
            EngineError::Query(message) => message@,
            EngineError::NotInitialized => not_initialized_text(),
        }
    }

    /// The failure rendered as a string.
    pub fn message(&self) -> (rendered: String)
        ensures
            rendered@ == self.text(),
    {
        match self {
            EngineError::Storage(message) => message.clone(),
            EngineError::Query(message) => message.clone(),
            EngineError::NotInitialized => "Search engine not initialized".to_owned(),
        }
    }
}

/// Names the failure of a query step: a rejected expression is a query
/// error, anything else a storage error.
pub fn classify_query_fault(code: Option<i32>, message: String) -> (fault: EngineError)
    ensures
        fault == query_fault(code, message),
{
    match code {
        Some(1i32) => EngineError::Query(message),
        _ => EngineError::Storage(message),
    }
}

/// Reads the record of `item_id` out of the rows of a lookup by that id.
pub fn usage_from_rows(item_id: &str, rows: &Vec<(i64, i64)>) -> (record: Option<UsageRecord>)
    ensures
        record is Some <==> rows@.len() > 0,
        record matches Some(r) ==> r.item_id@ == item_id@ && r.usage_count == rows@[0].0
            && r.last_accessed == rows@[0].1,
{
    if rows.len() == 0 {
        None
    } else {
        let row = rows[0];
        Some(UsageRecord { item_id: item_id.to_owned(), usage_count: row.0, last_accessed: row.1 })
    }
}

/// The count of a document after one more access, from the rows of a
/// lookup by its id: one if it had no record, else one more than it had. A
/// count that cannot grow any more stays.
pub open spec fn count_after(rows: Seq<(i64, i64)>) -> i64 {
    if rows.len() == 0 {
        1
    } else if rows[0].0 < i64::MAX {
        (rows[0].0 + 1) as i64
    } else {
        rows[0].0
    }
}

/// The record of `item_id` after one more access at `now`, from the rows of
/// a lookup by that id.
pub fn next_usage(item_id: &str, rows: &Vec<(i64, i64)>, now: i64) -> (record: UsageRecord)
    ensures
        record.item_id@ == item_id@,
        record.usage_count == count_after(rows@),
        record.last_accessed == now,
{
    let usage_count: i64 = if rows.len() == 0 {
        1
    } else if rows[0].0 < i64::MAX {
        rows[0].0 + 1
    } else {
        rows[0].0
    };
    UsageRecord { item_id: item_id.to_owned(), usage_count, last_accessed: now }
}

impl SearchEngine {
    /// Opens or creates the store at `db_path` and makes sure that both
    /// tables exist. Whatever fails is a storage error.
    pub fn new(db_path: &str) -> (opened: Result<SearchEngine, EngineError>)
        ensures
            opened matches Err(e) ==> e is Storage,
    {
        let conn = match open_connection(db_path) {
            Ok(conn) => conn,
            Err(fault) => {
                return Err(EngineError::Storage(describe(&fault)));
            },
        };
        match run_batch(
            &conn,
            "PRAGMA journal_mode = WAL;
             CREATE VIRTUAL TABLE IF NOT EXISTS notes USING fts5(
                id,
                path,
                title,
                content,
                tags,
                tokenize='trigram'
             );
             CREATE TABLE IF NOT EXISTS frecency (
                item_id TEXT PRIMARY KEY,
                usage_count INTEGER DEFAULT 0,
                last_accessed INTEGER
             );",
        ) {
            Ok(()) => Ok(SearchEngine { conn }),
            Err(fault) => Err(EngineError::Storage(describe(&fault))),
        }
    }

    /// Replaces or inserts each document by its id, through one pair of
    /// prepared statements, and counts them.
    fn write_documents(&self, docs: &Vec<Document>) -> (written: Result<usize, EngineError>)
        ensures
            written matches Ok(n) ==> n == docs@.len(),
            written matches Err(e) ==> e is Storage,
    {
        let mut remove = match prepare(&self.conn, "DELETE FROM notes WHERE id = ?1") {
            Ok(stmt) => stmt,
            Err(fault) => {
                return Err(EngineError::Storage(describe(&fault)));
            },
        };
        let mut insert = match prepare(
            &self.conn,
            "INSERT INTO notes (id, path, title, content, tags) VALUES (?1, ?2, ?3, ?4, ?5)",
        ) {
            Ok(stmt) => stmt,
            Err(fault) => {
                return Err(EngineError::Storage(describe(&fault)));
            },
        };
        let no_numbers: Vec<i64> = Vec::new();
        let mut count: usize = 0;
        while count < docs.len()
            invariant
                count <= docs.len(),
            decreases docs.len() - count,
        {
            let doc = &docs[count];
            let mut key: Vec<String> = Vec::new();
            key.push(doc.id.clone());
            match execute(&mut remove, &key, &no_numbers) {
                Ok(_) => {},
                Err(fault) => {
                    return Err(EngineError::Storage(describe(&fault)));
                },
            }
            let mut row: Vec<String> = Vec::new();
            row.push(doc.id.clone());
            row.push(doc.path.clone());
            row.push(doc.title.clone());
            row.push(doc.content.clone());
            row.push(doc.tags.clone());
            match execute(&mut insert, &row, &no_numbers) {
                Ok(_) => {},
                Err(fault) => {
                    return Err(EngineError::Storage(describe(&fault)));
                },
            }
            count += 1;
        }
        Ok(count)
    }

    /// Writes documents to the store in one transaction: each replaces what
    /// was stored under its id, or is added if nothing was. Returns how many
    /// were written.
    ///
    /// A failure of the store ends the pass, undoes it and is reported.
    pub fn upsert(&self, docs: &Vec<Document>) -> (written: Result<usize, EngineError>)
        ensures
            written matches Ok(n) ==> n == docs@.len(),
            written matches Err(e) ==> e is Storage,
    {
        match run_batch(&self.conn, "BEGIN IMMEDIATE") {
            Ok(()) => {},
            Err(fault) => {
                return Err(EngineError::Storage(describe(&fault)));
            },
        }
        match self.write_documents(docs) {
            Ok(n) => match run_batch(&self.conn, "COMMIT") {
                Ok(()) => Ok(n),
                Err(fault) => Err(EngineError::Storage(describe(&fault))),
            },
            Err(e) => {
                let _ = run_batch(&self.conn, "ROLLBACK");
                Err(e)
            },
        }
    }

    /// Indexes one scan of a vault: the documents of its qualifying files,
    /// as `select_candidates` gives them, are written with `upsert`. Returns
    /// how many documents were processed, changed or not.
    pub fn index_vault(&self, files: &Vec<ScannedFile>) -> (indexed: Result<usize, EngineError>)
        ensures
            indexed matches Ok(n) ==> n == candidates(file_models(files@)).len(),
            indexed matches Err(e) ==> e is Storage,
    {
        let docs = select_candidates(files);
        assert(document_models(docs@).len() == docs@.len());
        self.upsert(&docs)
    }

    /// Runs a full-text query and returns the best matches, best first, at
    /// most `result_cap()` of them, each with a preview in which `...`
    /// stands before and after a matched span and where text was cut.
    ///
    /// A query that is empty or all blanks matches nothing, whatever the
    /// store holds. Any other text goes to the matcher
    /// as `match_expression` renders it; an expression that the matcher
    /// rejects is a query error.
    pub fn search(&self, query: &str) -> (found: Result<Vec<SearchResult>, EngineError>)
        ensures
            is_blank_text(query@) ==> (found matches Ok(v) && v@.len() == 0),
            found matches Ok(v) ==> v@.len() <= result_cap() && is_best_first(v@),
            found matches Err(e) ==> e is Storage || e is Query,
    {
        if is_blank(query) {
            return Ok(Vec::new());
        }
        let mut stmt = match prepare(
            &self.conn,
            "SELECT id, path, title, snippet(notes, 3, '...', '...', '...', 10) as preview, rank
             FROM notes
             WHERE notes MATCH ?1
             ORDER BY rank LIMIT 25",
        ) {
            Ok(stmt) => stmt,
            Err(fault) => {
                return Err(EngineError::Storage(describe(&fault)));
            },
        };
        let expression = match_expression(query);
        match query_hits(&mut stmt, expression.as_str()) {
            Ok(hits) => Ok(rank_results(hits)),
            Err(fault) => Err(classify_query_fault(sqlite_code(&fault), describe(&fault))),
        }
    }

    /// Looks up the record of `item_id` and writes the one that follows it
    /// after an access at `now`.
    fn write_access(&self, item_id: &str, now: i64) -> (written: Option<UsageRecord>)
        ensures
            written matches Some(r) ==> r.item_id@ == item_id@ && r.last_accessed == now,
    {
        let mut lookup = match prepare(
            &self.conn,
            "SELECT COALESCE(usage_count, 0), COALESCE(last_accessed, 0)
             FROM frecency WHERE item_id = ?1",
        ) {
            Ok(stmt) => stmt,
            Err(_) => {
                return None;
            },
        };
        let rows = match query_integer_pairs(&mut lookup, item_id) {
            Ok(rows) => rows,
            Err(_) => {
                return None;
            },
        };
        let record = next_usage(item_id, &rows, now);
        let mut store = match prepare(
            &self.conn,
            "INSERT OR REPLACE INTO frecency (item_id, usage_count, last_accessed)
             VALUES (?1, ?2, ?3)",
        ) {
            Ok(stmt) => stmt,
            Err(_) => {
                return None;
            },
        };
        let mut key: Vec<String> = Vec::new();
        key.push(item_id.to_owned());
        let mut numbers: Vec<i64> = Vec::new();
        numbers.push(record.usage_count);
        numbers.push(record.last_accessed);
        match execute(&mut store, &key, &numbers) {
            Ok(_) => Some(record),
            Err(_) => None,
        }
    }

    /// Notes that the document `item_id` was opened at time `now`: the
    /// record that `next_usage` gives for what the store holds of it is
    /// written in its place, in one transaction, and returned. So its count
    /// grows by one, from zero if it had no record, and its last access
    /// becomes `now`.
    ///
    /// `None` tells that the store did not take the note; nothing is then
    /// changed, and this is no error of the caller's operation.
    pub fn record_access(&self, item_id: &str, now: i64) -> (recorded: Option<UsageRecord>)
        ensures
            recorded matches Some(r) ==> r.item_id@ == item_id@ && r.last_accessed == now,
    {
        match run_batch(&self.conn, "BEGIN IMMEDIATE") {
            Ok(()) => {},
            Err(_) => {
                return None;
            },
        }
        match self.write_access(item_id, now) {
            Some(record) => match run_batch(&self.conn, "COMMIT") {
                Ok(()) => Some(record),
                Err(_) => {
                    let _ = run_batch(&self.conn, "ROLLBACK");
                    None
                },
            },
            None => {
                let _ = run_batch(&self.conn, "ROLLBACK");
                None
            },
        }
    }

    /// The usage record of `item_id`, if one was ever made.
    pub fn usage(&self, item_id: &str) -> (record: Result<Option<UsageRecord>, EngineError>)
        ensures
            record matches Ok(Some(r)) ==> r.item_id@ == item_id@,
            record matches Err(e) ==> e is Storage,
    {
        let mut stmt = match prepare(
            &self.conn,
            "SELECT usage_count, last_accessed FROM frecency WHERE item_id = ?1",
        ) {
            Ok(stmt) => stmt,
            Err(fault) => {
                return Err(EngineError::Storage(describe(&fault)));
            },
        };
        match query_integer_pairs(&mut stmt, item_id) {
            Ok(rows) => Ok(usage_from_rows(item_id, &rows)),
            Err(fault) => Err(EngineError::Storage(describe(&fault))),
        }
    }
}

} // verus!
