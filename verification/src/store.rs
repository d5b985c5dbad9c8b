//! What the store is asked and how its answers are read. The store itself,
//! a table of snippets behind a connection, belongs to the caller.

use crate::config::{join_path, path_join};
use crate::text::{concat3, lowered, same_text, to_lower};
use vstd::prelude::*;

verus! {

/// Why the store did not do what it was asked.
#[derive(Debug, PartialEq, Eq)]
pub enum StoreError {
    /// No snippet has the id.
    NotFound,
    /// The store failed, with its message.
    Failed(String),
}

/// Why the store did not do what it was asked, as plain mathematical values.
pub ghost enum StoreErrorView {
    NotFound,
    Failed(Seq<char>),
}

impl View for StoreError {
    type V = StoreErrorView;

    open spec fn view(&self) -> StoreErrorView {
        match self {
            StoreError::NotFound => StoreErrorView::NotFound,
            StoreError::Failed(msg) => StoreErrorView::Failed(msg@),
        }
    }
}

/// What an error of the store says.
pub open spec fn error_text(e: StoreErrorView) -> Seq<char> {
    match e {
        StoreErrorView::NotFound => "Query returned no rows"@,
        StoreErrorView::Failed(msg) => msg,
    }
}

impl StoreError {
    /// What the error says, for a status line or a terminal.
    pub fn message(&self) -> (r: String)
        ensures
            r@ == error_text(self@),
    {
        match self {
            StoreError::NotFound => "Query returned no rows".to_owned(),
            StoreError::Failed(msg) => msg.clone(),
        }
    }
}

/// The path of the database file inside the store's directory.
pub fn get_db_path(gist_dir: &str) -> (r: String)
    ensures
        r@ == path_join(gist_dir@, "gists.db"@),
{
    join_path(gist_dir, "gists.db")
}

/// The column that a listing is ordered by, for a sort key as the user gave
/// it: `id` and `tags` order by themselves, in any case of the letters;
/// everything else orders by the time of creation.
pub open spec fn sort_column(sort_by: Seq<char>) -> Seq<char> {
    if lowered(sort_by) == "id"@ {
        "id"@
    } else if lowered(sort_by) == "tags"@ {
        "tags"@
    } else {
        "created_at"@
    }
}

/// The statement that lists snippets, newest or largest first.
pub open spec fn list_statement(sort_by: Seq<char>) -> Seq<char> {
    "SELECT id, content, tags, created_at FROM gists ORDER BY "@ + sort_column(sort_by)
        + " DESC LIMIT ?1"@
}

/// The column that a listing is ordered by.
pub fn order_column(sort_by: &str) -> (r: String)
    ensures
        r@ == sort_column(sort_by@),
{
    let key = to_lower(sort_by);
    if same_text(key.as_str(), "id") {
        "id".to_owned()
    } else if same_text(key.as_str(), "tags") {
        "tags".to_owned()
    } else {
        "created_at".to_owned()
    }
}

/// The statement that lists snippets in descending order of the sort key.
pub fn list_query(sort_by: &str) -> (r: String)
    ensures
        r@ == list_statement(sort_by@),
{
    let column = order_column(sort_by);
    concat3(
        "SELECT id, content, tags, created_at FROM gists ORDER BY ",
        column.as_str(),
        " DESC LIMIT ?1",
    )
}

/// The limit as the store takes it: the number itself, or -1, which the
/// store reads as no limit, for one beyond what it can count.
pub open spec fn store_limit(limit: usize) -> i64 {
    if limit <= i64::MAX {
        limit as i64
    } else {
        -1i64
    }
}

/// The limit as the store takes it.
pub fn limit_param(limit: usize) -> (r: i64)
    ensures
        r == store_limit(limit),
{
    if limit as u128 <= i64::MAX as u128 {
        limit as i64
    } else {
        -1
    }
}

/// The pattern that finds a query anywhere in a column.
pub fn like_pattern(query: &str) -> (r: String)
    ensures
        r@ == "%"@ + query@ + "%"@,
{
    concat3("%", query, "%")
}

/// The columns that a statement reads, and the table.
pub open spec fn select_from() -> Seq<char> {
    "SELECT id, content, tags, created_at FROM gists"@
}

/// The condition of a search: on the tags alone, or on the content and the
/// tags.
pub open spec fn search_condition(tags_only: bool) -> Seq<char> {
    if tags_only {
        " WHERE tags LIKE ?1"@
    } else {
        " WHERE content LIKE ?1 OR tags LIKE ?1"@
    }
}

/// The statement that searches the tags alone, or the content and the tags,
/// newest first.
pub open spec fn search_statement(tags_only: bool) -> Seq<char> {
    select_from() + search_condition(tags_only) + " ORDER BY created_at DESC"@
}

/// The statement that searches the tags alone, or the content and the tags,
/// newest first.
pub fn search_query(tags_only: bool) -> (r: String)
    ensures
        r@ == search_statement(tags_only),
{
    let condition = if tags_only {
        " WHERE tags LIKE ?1"
    } else {
        " WHERE content LIKE ?1 OR tags LIKE ?1"
    };
    concat3(
        "SELECT id, content, tags, created_at FROM gists",
        condition,
        " ORDER BY created_at DESC",
    )
}

/// What an optional failure message holds.
pub open spec fn rows_view(rows: Result<usize, String>) -> Result<usize, Seq<char>> {
    match rows {
        Ok(n) => Ok(n),
        Err(e) => Err(e@),
    }
}

/// How an update went, from the number of rows that it changed: it changed
/// the snippet, or no snippet has the id, or the store failed.
pub fn update_outcome(rows: Result<usize, String>) -> (r: Result<(), StoreError>)
    ensures
        match rows {
            Ok(n) => if n == 0 {
                r is Err && r->Err_0@ == StoreErrorView::NotFound
            } else {
                r is Ok
            },
            Err(e) => r is Err && r->Err_0@ == StoreErrorView::Failed(e@),
        },
{
    match rows {
        Ok(n) => if n == 0 {
            Err(StoreError::NotFound)
        } else {
            Ok(())
        },
        Err(e) => Err(StoreError::Failed(e)),
    }
}

/// How a deletion went, from the number of rows that it removed: whether
/// the store held the snippet, or that the store failed. A missing snippet
/// is no failure.
pub fn delete_outcome(rows: Result<usize, String>) -> (r: Result<bool, StoreError>)
    ensures
        match rows {
            Ok(n) => r == Ok::<bool, StoreError>(n > 0),
            Err(e) => r is Err && r->Err_0@ == StoreErrorView::Failed(e@),
        },
{
    match rows {
        Ok(n) => Ok(n > 0),
        Err(e) => Err(StoreError::Failed(e)),
    }
}

/// How many of the first `n` outcomes are successes.
pub open spec fn successes(outcomes: Seq<bool>, n: int) -> nat
    decreases n,
{
    if n <= 0 {
        0
    } else {
        successes(outcomes, n - 1) + if outcomes[n - 1] {
            1nat
        } else {
            0nat
        }
    }
}

/// How many snippets an import stored, from the outcome of each insertion.
pub fn import_count(outcomes: &Vec<bool>) -> (count: usize)
    ensures
        count == successes(outcomes@, outcomes.len() as int),
{
    let mut count: usize = 0;
    let mut i: usize = 0;
    while i < outcomes.len()
        invariant
            i <= outcomes.len(),
            count == successes(outcomes@, i as int),
            count <= i,
        decreases outcomes.len() - i,
    {
        if outcomes[i] {
            count += 1;
        }
        i += 1;
    }
    count
}

} // verus!
