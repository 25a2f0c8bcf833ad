//! The store behind the users feature: what it answers, and what is
//! expected of it.
//!
//! The handlers never touch the table themselves. What they rely on is
//! written down here as a model, the table as a map from id to row, and the
//! laws of the API are proved of every request served against a store that
//! behaves as the model says.

use crate::api::users::user::{ActiveModelView, ActiveValue, ModelView};
use crate::api::users::step::{AfterFindView, StepView};
use crate::api::users::{
    after_delete, after_find, after_find_all, after_insert, after_update, storage_failure,
};
use vstd::prelude::*;

verus! {

/// `sea_orm::DbErr`, the error of every store operation. Nothing inside it
/// is looked at: a handler only asks for its text.
#[verifier::external_type_specification]
#[verifier::external_body]
pub struct ExDbErr(sea_orm::DbErr);

/// `sea_orm::DeleteResult`, the answer to a deletion: the number of rows
/// that it removed, in the field `rows_affected`.
#[verifier::external_type_specification]
pub struct ExDeleteResult(sea_orm::DeleteResult);

/// The rows of the `users` table, each under its id.
pub type Table = Map<i32, ModelView>;

/// Every row stands under its own id, and there are finitely many.
pub open spec fn well_formed(table: Table) -> bool {
    &&& table.dom().finite()
    &&& forall|id: i32| table.contains_key(id) ==> (#[trigger] table[id]).id == id
}

/// What the store is free to choose while it serves a request.
pub struct Choice {
    /// The id that it gives to a new row.
    pub next_id: i32,
    /// The rows in the order in which it hands them out.
    pub listing: Seq<ModelView>,
    /// The text of the error with which it turns a request down.
    pub error: Seq<char>,
}

/// The row with this id, if there is one.
pub open spec fn find_by_id(table: Table, id: i32) -> Option<ModelView> {
    if table.contains_key(id) {
        Some(table[id])
    } else {
        None
    }
}

/// Whether `rows` holds every row of the table once, in some order.
pub open spec fn is_listing(table: Table, rows: Seq<ModelView>) -> bool {
    &&& forall|i: int|
        0 <= i < rows.len() ==> table.contains_key((#[trigger] rows[i]).id) && table[rows[i].id]
            == rows[i]
    &&& forall|i: int, j: int|
        0 <= i < j < rows.len() ==> (#[trigger] rows[i]).id != (#[trigger] rows[j]).id
    &&& forall|id: i32| #[trigger]
        table.contains_key(id) ==> exists|i: int|
            0 <= i < rows.len() && (#[trigger] rows[i]).id == id
}

/// The value that a written row gives for a column, if it gives one.
pub open spec fn given<V>(value: ActiveValue<V>) -> Option<V> {
    match value {
        ActiveValue::Changed(v) => Some(v),
        ActiveValue::Unchanged(v) => Some(v),
        ActiveValue::NotSet => None,
    }
}

/// What a column holds after a row was written over it: only a changed
/// value is written.
pub open spec fn overwritten<V>(held: V, value: ActiveValue<V>) -> V {
    match value {
        ActiveValue::Changed(v) => v,
        _ => held,
    }
}

/// The id under which the store adds a row: the row's own where it gives
/// one, else the next that the store hands out.
pub open spec fn insert_id(row: ActiveModelView, choice: Choice) -> i32 {
    match given(row.id) {
        Some(id) => id,
        None => choice.next_id,
    }
}

/// Whether the store adds the row: the name and the email are required,
/// and the id has to be free.
pub open spec fn can_insert(table: Table, row: ActiveModelView, choice: Choice) -> bool {
    &&& given(row.name) is Some
    &&& given(row.email) is Some
    &&& !table.contains_key(insert_id(row, choice))
}

/// The row as the table holds it once it was added.
pub open spec fn inserted_row(row: ActiveModelView, choice: Choice) -> ModelView {
    ModelView {
        id: insert_id(row, choice),
        name: given(row.name).unwrap(),
        email: given(row.email).unwrap(),
        created_at: match given(row.created_at) {
            Some(created_at) => created_at,
            None => None,
        },
    }
}

/// Whether the store writes the row: it has to say which row it is, and
/// that row has to be there.
pub open spec fn can_update(table: Table, row: ActiveModelView) -> bool {
    given(row.id) matches Some(id) && table.contains_key(id)
}

/// The row as the table holds it once `row` was written over `held`.
pub open spec fn updated_row(held: ModelView, row: ActiveModelView) -> ModelView {
    ModelView {
        id: held.id,
        name: overwritten(held.name, row.name),
        email: overwritten(held.email, row.email),
        created_at: overwritten(held.created_at, row.created_at),
    }
}

/// How many questions to the store a step may still lead to.
pub open spec fn questions_left(step: StepView) -> nat {
    match step {
        StepView::Insert { .. } => 2,
        StepView::FindById { then: AfterFindView::Change(_), .. } => 2,
        StepView::FindById { .. } => 1,
        StepView::FindAll => 1,
        StepView::Update { .. } => 1,
        StepView::DeleteById { .. } => 1,
        StepView::Respond(_) => 0,
        StepView::Fail(_) => 0,
    }
}

/// A request served to its end against a store that works: the table that
/// it leaves, and the step with which the request ends. The store answers
/// each question from the table, and turns down only what it cannot do: an
/// insert without a name or an email or under an id that is taken, and an
/// update of a row that is not there.
pub open spec fn serve(table: Table, step: StepView, choice: Choice) -> (Table, StepView)
    decreases questions_left(step),
{
    match step {
        StepView::FindAll => serve(table, after_find_all(choice.listing), choice),
        StepView::FindById { id, then } => serve(
            table,
            after_find(id, then, find_by_id(table, id)),
            choice,
        ),
        StepView::Insert { row } => if can_insert(table, row, choice) {
            let added = inserted_row(row, choice);
            serve(table.insert(added.id, added), after_insert(added.id), choice)
        } else {
            (table, storage_failure(choice.error))
        },
        StepView::Update { row } => if can_update(table, row) {
            let id = given(row.id).unwrap();
            let written = updated_row(table[id], row);
            serve(table.insert(id, written), after_update(written), choice)
        } else {
            (table, storage_failure(choice.error))
        },
        StepView::DeleteById { id } => serve(
            table.remove(id),
            after_delete(
                id,
                if table.contains_key(id) {
                    1
                } else {
                    0
                },
            ),
            choice,
        ),
        StepView::Respond(_) => (table, step),
        StepView::Fail(_) => (table, step),
    }
}

} // verus!
