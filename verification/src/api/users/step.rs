//! The steps of a request: the questions that a handler has for the store,
//! and the two ways in which a request ends.

use crate::api::users::dto::{UpdateUser, UpdateUserView};
use crate::api::users::user::{ActiveModel, ActiveModelView};
use crate::http::{Response, ResponseView};
use vstd::prelude::*;

verus! {

/// Why a handler asked the store for one row.
#[derive(Clone, Debug, PartialEq, Eq)]
pub enum AfterFind {
    /// To show the row.
    Show,
    /// To show the row that was just created.
    ShowCreated,
    /// To change the row as the request says.
    Change(UpdateUser),
}

/// The reason for a lookup, with its texts as sequences of characters.
pub enum AfterFindView {
    Show,
    ShowCreated,
    Change(UpdateUserView),
}

impl View for AfterFind {
    type V = AfterFindView;

    open spec fn view(&self) -> AfterFindView {
        match *self {
            AfterFind::Show => AfterFindView::Show,
            AfterFind::ShowCreated => AfterFindView::ShowCreated,
            AfterFind::Change(body) => AfterFindView::Change(body@),
        }
    }
}

/// What is to happen next for a request: a question to the store, or the
/// end of the request.
#[derive(Clone, Debug, PartialEq)]
pub enum Step {
    /// Ask the store for all rows. The answer goes to [`listed`](crate::api::users::listed).
    FindAll,
    /// Ask the store for the row with this id. The answer goes to
    /// [`found`](crate::api::users::found), together with `id` and `then`.
    FindById { id: i32, then: AfterFind },
    /// Ask the store to add this row. The answer goes to [`inserted`](crate::api::users::inserted).
    Insert { row: ActiveModel },
    /// Ask the store to write this row over the one with the same id. The
    /// answer goes to [`updated`](crate::api::users::updated).
    Update { row: ActiveModel },
    /// Ask the store to remove the row with this id. The answer goes to
    /// [`deleted`](crate::api::users::deleted), together with `id`.
    DeleteById { id: i32 },
    /// The request ends with this response.
    Respond(Response),
    /// The request ends as an internal server error with this message.
    Fail(String),
}

/// A step with its texts as sequences of characters.
pub enum StepView {
    FindAll,
    FindById { id: i32, then: AfterFindView },
    Insert { row: ActiveModelView },
    Update { row: ActiveModelView },
    DeleteById { id: i32 },
    Respond(ResponseView),
    Fail(Seq<char>),
}

impl View for Step {
    type V = StepView;

    open spec fn view(&self) -> StepView {
        match *self {
            Step::FindAll => StepView::FindAll,
            Step::FindById { id, then } => StepView::FindById { id, then: then@ },
            Step::Insert { row } => StepView::Insert { row: row@ },
            Step::Update { row } => StepView::Update { row: row@ },
            Step::DeleteById { id } => StepView::DeleteById { id },
            Step::Respond(response) => StepView::Respond(response@),
            Step::Fail(message) => StepView::Fail(message@),
        }
    }
}

} // verus!
