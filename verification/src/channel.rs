//! The way between the viewer and the background worker: which request an
//! editing session leads to, and which result the worker's reply stands for.

use crate::config::opt_text;
use crate::text::{blank, chars_of, is_blank};
use crate::viewer::{Action, ActionView, DbOperation, DbOperationView, OperationResult,
    OperationResultView};
use vstd::prelude::*;

verus! {

/// The message for a worker that no longer answers.
pub open spec fn lost_worker() -> Seq<char> {
    "Failed to communicate with database thread"@
}

/// What follows from the editor's output for a new snippet: a request to
/// store it without tags, unless there is no output or only whitespace.
pub open spec fn new_edit_action(written: Option<Seq<char>>) -> ActionView {
    match written {
        Some(content) => if is_blank(content) {
            ActionView::Nothing
        } else {
            ActionView::Submit(DbOperationView::Add(content, Seq::empty()))
        },
        None => ActionView::Nothing,
    }
}

/// What follows from the editor's output for a stored snippet: a request to
/// change its content and keep its tags, unless there is no output, only
/// whitespace, or the content as it was.
pub open spec fn edit_action(
    id: int,
    before: Seq<char>,
    tags: Seq<char>,
    written: Option<Seq<char>>,
) -> ActionView {
    match written {
        Some(content) => if is_blank(content) || content == before {
            ActionView::Nothing
        } else {
            ActionView::Submit(DbOperationView::Update(id, content, tags))
        },
        None => ActionView::Nothing,
    }
}

/// Decides what to do with what the editor wrote for a new snippet.
pub fn after_new_edit(written: Option<String>) -> (action: Action)
    ensures
        action@ == new_edit_action(opt_text(written)),
{
    match written {
        Some(content) => {
            if blank(&chars_of(content.as_str())) {
                Action::Nothing
            } else {
                Action::Submit(DbOperation::Add(content, String::new()))
            }
        },
        None => Action::Nothing,
    }
}

/// Decides what to do with what the editor wrote for a stored snippet.
pub fn after_edit(
    id: i64,
    before: &str,
    tags: String,
    written: Option<String>,
) -> (action: Action)
    ensures
        action@ == edit_action(id as int, before@, tags@, opt_text(written)),
{
    match written {
        Some(content) => {
            if blank(&chars_of(content.as_str())) || crate::text::same_text(
                content.as_str(),
                before,
            ) {
                Action::Nothing
            } else {
                Action::Submit(DbOperation::Update(id, content, tags))
            }
        },
        None => Action::Nothing,
    }
}

/// The result that stands for the worker's answer to a request to store a
/// snippet. `None` is a worker that no longer answers.
pub fn add_result(reply: Option<Result<i64, String>>) -> (r: OperationResult)
    ensures
        r@ == match reply {
            Some(Ok(id)) => OperationResultView::Add(id as int),
            Some(Err(e)) => OperationResultView::Error(e@),
            None => OperationResultView::Error(lost_worker()),
        },
{
    match reply {
        Some(Ok(id)) => OperationResult::Add(id),
        Some(Err(e)) => OperationResult::Error(e),
        None => OperationResult::Error("Failed to communicate with database thread".to_owned()),
    }
}

/// The result that stands for the worker's answer to a request to change
/// the snippet `id`.
pub fn update_result(id: i64, reply: Option<Result<(), String>>) -> (r: OperationResult)
    ensures
        r@ == match reply {
            Some(Ok(_)) => OperationResultView::Update(id as int),
            Some(Err(e)) => OperationResultView::Error(e@),
            None => OperationResultView::Error(lost_worker()),
        },
{
    match reply {
        Some(Ok(_)) => OperationResult::Update(id),
        Some(Err(e)) => OperationResult::Error(e),
        None => OperationResult::Error("Failed to communicate with database thread".to_owned()),
    }
}

/// The result that stands for the worker's answer to a request to delete
/// the snippet `id`.
pub fn delete_result(id: i64, reply: Option<Result<bool, String>>) -> (r: OperationResult)
    ensures
        r@ == match reply {
            Some(Ok(found)) => OperationResultView::Delete(id as int, found),
            Some(Err(e)) => OperationResultView::Error(e@),
            None => OperationResultView::Error(lost_worker()),
        },
{
    match reply {
        Some(Ok(found)) => OperationResult::Delete(id, found),
        Some(Err(e)) => OperationResult::Error(e),
        None => OperationResult::Error("Failed to communicate with database thread".to_owned()),
    }
}

} // verus!
