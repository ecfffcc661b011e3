//! Transcription history: paging, pruning and schema checks.
use vstd::prelude::*;
use crate::chars::{decimal, i64_to_decimal, signed_decimal};

verus! {

/// The database schema version this build reads and writes.
pub const SCHEMA_VERSION: i64 = 1;
/// Entries per page when the caller does not ask for a size.
pub const DEFAULT_PAGE_SIZE: usize = 30;
/// The most entries one page may hold.
pub const MAX_PAGE_SIZE: usize = 100;

pub struct HistoryEntry {
    pub id: i64,
    /// Milliseconds since the Unix epoch.
    pub created_at: i64,
    pub text: String,
    pub model_id: String,
}

pub struct HistoryPage {
    /// Newest first.
    pub entries: Vec<HistoryEntry>,
    /// Whether older entries remain after this page.
    pub has_more: bool,
}

/// The page size for a request: the requested size (default 30) clamped to `1..=100`.
pub fn page_size(requested: Option<usize>) -> (size: usize)
    ensures
        size == match requested {
            None => DEFAULT_PAGE_SIZE,
            Some(n) => if n < 1 { 1 } else if n > MAX_PAGE_SIZE { MAX_PAGE_SIZE } else { n },
        },
        1 <= size <= MAX_PAGE_SIZE,
{
    match requested {
        None => DEFAULT_PAGE_SIZE,
        Some(n) => if n < 1 { 1 } else if n > MAX_PAGE_SIZE { MAX_PAGE_SIZE } else { n },
    }
}

/// How many rows to fetch for a page: one more than the page holds, to learn
/// whether more remain.
pub fn fetch_limit(size: usize) -> (limit: i64)
    requires
        size <= MAX_PAGE_SIZE,
    ensures
        limit == size + 1,
{
    (size + 1) as i64
}

/// The page made of the fetched rows (newest first): at most `size` of them,
/// and whether any were left over.
pub fn page_from_rows(rows: Vec<HistoryEntry>, size: usize) -> (page: HistoryPage)
    ensures
        page.has_more == (rows@.len() > size),
        page.entries@ == if rows@.len() > size { rows@.take(size as int) } else { rows@ },
{
    let has_more = rows.len() > size;
    let mut entries = rows;
    entries.truncate(size);
    HistoryPage { entries, has_more }
}

/// Whether a finished transcript is recorded at all: not when history is off.
pub fn records_history(history_limit: usize) -> (records: bool)
    ensures
        records == (history_limit > 0),
{
    history_limit > 0
}

/// What pruning to a limit does to the stored history.
pub enum Prune {
    /// Delete every entry.
    Clear,
    /// Keep the newest `n` entries.
    KeepNewest(i64),
}

/// How to prune history down to `limit` entries: a limit of zero clears it;
/// a limit that does not fit the database's integers is an error.
pub fn prune_plan(limit: usize) -> (plan: Result<Prune, String>)
    ensures
        limit == 0 ==> plan matches Ok(Prune::Clear),
        0 < limit <= i64::MAX ==> (plan matches Ok(Prune::KeepNewest(n)) && n == limit),
        limit > i64::MAX ==> (plan matches Err(e) && e@ == "history limit is too large"@),
{
    if limit == 0 {
        Ok(Prune::Clear)
    } else if (limit as u64) <= 0x7fff_ffff_ffff_ffffu64 {
        Ok(Prune::KeepNewest(limit as i64))
    } else {
        Err(String::from_str("history limit is too large"))
    }
}

/// What opening a database at schema `current_version` requires.
pub open spec fn spec_migration(current_version: i64) -> Result<bool, Seq<char>> {
    if current_version < 0 {
        Err("history database has invalid schema version "@ + signed_decimal(current_version as int))
    } else if current_version > SCHEMA_VERSION {
        Err("history database version "@ + decimal(current_version as nat) + " is newer than supported version "@
            + decimal(SCHEMA_VERSION as nat))
    } else {
        Ok(current_version == 0)
    }
}

/// Checks the schema version of an opened history database: `Ok(true)` when
/// the table must be created (a new database), `Ok(false)` when it is current,
/// and an error for a negative version or one newer than this build supports.
pub fn migration_needed(current_version: i64) -> (res: Result<bool, String>)
    ensures
        match spec_migration(current_version) {
            Ok(b) => res == Ok::<bool, String>(b),
            Err(m) => res matches Err(e) && e@ == m,
        },
{
    if current_version < 0 {
        let mut message = String::from_str("history database has invalid schema version ");
        let v = i64_to_decimal(current_version);
        message.append(v.as_str());
        return Err(message);
    }
    if current_version > SCHEMA_VERSION {
        let mut message = String::from_str("history database version ");
        let v = i64_to_decimal(current_version);
        message.append(v.as_str());
        message.append(" is newer than supported version ");
        let s = i64_to_decimal(SCHEMA_VERSION);
        message.append(s.as_str());
        return Err(message);
    }
    Ok(current_version == 0)
}

} // verus!
