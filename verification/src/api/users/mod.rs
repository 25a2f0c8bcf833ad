//! The users feature: its routes and its handlers.
//!
//! A handler does not wait for the store. It says what to ask, as a
//! [`Step`], and the function that takes the store's answer says what comes
//! next:
//!
//! | request | first step | the answer goes to |
//! |---|---|---|
//! | list | [`list_users`] | [`listed`] |
//! | show | [`get_user`] | [`found`] |
//! | create | [`create_user`] | [`inserted`], then [`found`] |
//! | change | [`update_user`] | [`found`], then [`updated`] |
//! | delete | [`delete_user`] | [`deleted`] |

pub mod dto;
pub mod laws;
pub mod step;
pub mod store;
pub mod user;

pub use crate::api::users::dto::{
    CreateUser, CreateUserView, UpdateUser, UpdateUserView, UserResponse, UserResponseView,
};
pub use crate::api::users::step::{AfterFind, AfterFindView, Step, StepView};

use crate::api::users::dto::shown;
use crate::api::users::user::{ActiveModel, ActiveModelView, ActiveValue, Model, ModelView};
use crate::api::{Handler, Route, RouteView};
use crate::http::{text_response, user_response, users_response, Body, Method, Response, Status};
use crate::text::{
    db_error_message, db_error_text, deleted_message, deleted_text, not_found_message,
    not_found_text,
};
use sea_orm::{DbErr, DeleteResult};
use vstd::prelude::*;

verus! {

/// The routes of the users feature, in the order in which they are
/// registered: the collection under `/users`, one user under `/users/{id}`.
pub open spec fn users_routes() -> Seq<RouteView> {
    seq![
        RouteView { method: Method::Get, path: "/users"@, handler: Handler::ListUsers },
        RouteView { method: Method::Post, path: "/users"@, handler: Handler::CreateUser },
        RouteView { method: Method::Get, path: "/users/{id}"@, handler: Handler::GetUser },
        RouteView { method: Method::Put, path: "/users/{id}"@, handler: Handler::UpdateUser },
        RouteView { method: Method::Delete, path: "/users/{id}"@, handler: Handler::DeleteUser },
    ]
}

/// One line of the routing table.
fn route(method: Method, path: &str, handler: Handler) -> (route: Route)
    ensures
        route@ == (RouteView { method, path: path@, handler }),
{
    Route { method, path: String::from_str(path), handler }
}

/// The routes of the users feature.
pub fn routes() -> (routes: Vec<Route>)
    ensures
        routes.deep_view() == users_routes(),
{
    let mut routes: Vec<Route> = Vec::new();
    routes.push(route(Method::Get, "/users", Handler::ListUsers));
    routes.push(route(Method::Post, "/users", Handler::CreateUser));
    routes.push(route(Method::Get, "/users/{id}", Handler::GetUser));
    routes.push(route(Method::Put, "/users/{id}", Handler::UpdateUser));
    routes.push(route(Method::Delete, "/users/{id}", Handler::DeleteUser));
    routes
}

/// The row that is written for a new user: the store chooses the id, and
/// no time of creation is recorded.
pub open spec fn new_row(body: CreateUserView) -> ActiveModelView {
    ActiveModelView {
        id: ActiveValue::NotSet,
        name: ActiveValue::Changed(body.name),
        email: ActiveValue::Changed(body.email),
        created_at: ActiveValue::Changed(None),
    }
}

/// The row that is written when `body` changes `row`: the fields that the
/// body holds are changed, every other column is kept.
pub open spec fn changed_row(row: ModelView, body: UpdateUserView) -> ActiveModelView {
    ActiveModelView {
        id: ActiveValue::Unchanged(row.id),
        name: match body.name {
            Some(name) => ActiveValue::Changed(name),
            None => ActiveValue::Unchanged(row.name),
        },
        email: match body.email {
            Some(email) => ActiveValue::Changed(email),
            None => ActiveValue::Unchanged(row.email),
        },
        created_at: ActiveValue::Unchanged(row.created_at),
    }
}

/// The first step of a request that lists all users.
pub open spec fn list_users_step() -> StepView {
    StepView::FindAll
}

/// The first step of a request that shows the user with this id.
pub open spec fn get_user_step(id: i32) -> StepView {
    StepView::FindById { id, then: AfterFindView::Show }
}

/// The first step of a request that creates a user.
pub open spec fn create_user_step(body: CreateUserView) -> StepView {
    StepView::Insert { row: new_row(body) }
}

/// The first step of a request that changes the user with this id.
pub open spec fn update_user_step(id: i32, body: UpdateUserView) -> StepView {
    StepView::FindById { id, then: AfterFindView::Change(body) }
}

/// The first step of a request that deletes the user with this id.
pub open spec fn delete_user_step(id: i32) -> StepView {
    StepView::DeleteById { id }
}

/// How a request ends when the store reports a failure with this text.
pub open spec fn storage_failure(error: Seq<char>) -> StepView {
    StepView::Fail(db_error_text(error))
}

/// Whether a step is the end of a request on this failure of the store:
/// the message holds the text that the error displays.
pub open spec fn is_storage_failure(step: StepView, error: DbErr) -> bool {
    exists|text: String|
        vstd::string::to_string_from_display_ensures::<DbErr>(&error, text) && step
            == #[trigger] storage_failure(text@)
}

/// What follows when the store has handed over all rows.
pub open spec fn after_find_all(rows: Seq<ModelView>) -> StepView {
    StepView::Respond(users_response(Status::Success, rows.map_values(|row: ModelView| shown(row))))
}

/// What follows when the store has looked for the row with this id.
pub open spec fn after_find(id: i32, then: AfterFindView, row: Option<ModelView>) -> StepView {
    match (then, row) {
        (AfterFindView::Show, Some(row)) => StepView::Respond(
            user_response(Status::Success, shown(row)),
        ),
        (AfterFindView::ShowCreated, Some(row)) => StepView::Respond(
            user_response(Status::Created, shown(row)),
        ),
        (AfterFindView::Change(body), Some(row)) => StepView::Update {
            row: changed_row(row, body),
        },
        (AfterFindView::ShowCreated, None) => StepView::Respond(
            text_response(Status::InternalServerError, "failed to fetch created user"@),
        ),
        (_, None) => StepView::Respond(text_response(Status::NotFound, not_found_text(id))),
    }
}

/// What follows when the store has added a row under this id.
pub open spec fn after_insert(last_insert_id: i32) -> StepView {
    StepView::FindById { id: last_insert_id, then: AfterFindView::ShowCreated }
}

/// What follows when the store has written a row and hands it back.
pub open spec fn after_update(row: ModelView) -> StepView {
    StepView::Respond(user_response(Status::Success, shown(row)))
}

/// What follows when the store has removed this many rows with this id.
pub open spec fn after_delete(id: i32, rows_affected: u64) -> StepView {
    if rows_affected > 0 {
        StepView::Respond(text_response(Status::Success, deleted_text(id)))
    } else {
        StepView::Respond(text_response(Status::NotFound, not_found_text(id)))
    }
}

/// Ends a request on a storage failure with the given text.
pub fn fail(error: &str) -> (step: Step)
    ensures
        step@ == storage_failure(error@),
{
    Step::Fail(db_error_message(error))
}

/// Ends a request on a failure of the store.
fn fail_on(error: &DbErr) -> (step: Step)
    ensures
        is_storage_failure(step@, *error),
{
    let text = error.to_string();
    fail(text.as_str())
}

/// Lists all users: asks the store for every row.
pub fn list_users() -> (step: Step)
    ensures
        step@ == list_users_step(),
{
    Step::FindAll
}

/// Goes on after [`Step::FindAll`]: the rows are shown in the order in
/// which the store gave them, with status 200; a failure of the store ends
/// the request.
pub fn listed(rows: Result<Vec<Model>, DbErr>) -> (step: Step)
    ensures
        rows matches Ok(rows) ==> step@ == after_find_all(rows.deep_view()),
        rows matches Err(error) ==> is_storage_failure(step@, error),
{
    match rows {
        Ok(rows) => {
            let ghost all = rows.deep_view();
            let mut users: Vec<UserResponse> = Vec::new();
            for row in it: rows.into_iter()
                invariant
                    it.seq().len() == all.len(),
                    forall|i: int| 0 <= i < all.len() ==> (#[trigger] it.seq()[i])@ == all[i],
                    users@.len() == it.index(),
                    forall|i: int|
                        0 <= i < users@.len() ==> (#[trigger] users@[i])@ == shown(all[i]),
            {
                users.push(UserResponse::from(row));
            }
            assert(users.deep_view() =~= all.map_values(|row: ModelView| shown(row)));
            Step::Respond(Response { status: Status::Success, body: Body::Users(users) })
        },
        Err(error) => fail_on(&error),
    }
}

/// Shows one user: asks the store for the row with this id.
pub fn get_user(id: i32) -> (step: Step)
    ensures
        step@ == get_user_step(id),
{
    Step::FindById { id, then: AfterFind::Show }
}

/// Creates a user: asks the store to add a row with the name and the email
/// of the request.
pub fn create_user(body: CreateUser) -> (step: Step)
    ensures
        step@ == create_user_step(body@),
{
    Step::Insert {
        row: ActiveModel {
            id: ActiveValue::NotSet,
            name: ActiveValue::Changed(body.name),
            email: ActiveValue::Changed(body.email),
            created_at: ActiveValue::Changed(None),
        },
    }
}

/// Goes on after [`Step::Insert`]: the new row is read back under the id
/// that the store gave it; a failure of the store ends the request.
pub fn inserted(last_insert_id: Result<i32, DbErr>) -> (step: Step)
    ensures
        last_insert_id matches Ok(id) ==> step@ == after_insert(id),
        last_insert_id matches Err(error) ==> is_storage_failure(step@, error),
{
    match last_insert_id {
        Ok(id) => Step::FindById { id, then: AfterFind::ShowCreated },
        Err(error) => fail_on(&error),
    }
}

/// Changes a user: asks the store for the row with this id, to change it as
/// the request says.
pub fn update_user(id: i32, body: UpdateUser) -> (step: Step)
    ensures
        step@ == update_user_step(id, body@),
{
    Step::FindById { id, then: AfterFind::Change(body) }
}

/// Goes on after [`Step::FindById`]. A row that is there is shown with
/// status 200, or with 201 when it was just created, or is written back
/// with the fields that the request changes. A row that is not there gives
/// 404 with a message that names the id, or 500 when it was just created.
/// A failure of the store ends the request.
pub fn found(id: i32, then: AfterFind, row: Result<Option<Model>, DbErr>) -> (step: Step)
    ensures
        row matches Ok(row) ==> step@ == after_find(id, then@, row.deep_view()),
        row matches Err(error) ==> is_storage_failure(step@, error),
{
    match row {
        Ok(Some(model)) => match then {
            AfterFind::Show => Step::Respond(
                Response { status: Status::Success, body: Body::User(UserResponse::from(model)) },
            ),
            AfterFind::ShowCreated => Step::Respond(
                Response { status: Status::Created, body: Body::User(UserResponse::from(model)) },
            ),
            AfterFind::Change(body) => {
                let mut active = ActiveModel::from(model);
                if let Some(name) = body.name {
                    active.name = ActiveValue::Changed(name);
                }
                if let Some(email) = body.email {
                    active.email = ActiveValue::Changed(email);
                }
                Step::Update { row: active }
            },
        },
        Ok(None) => match then {
            AfterFind::ShowCreated => Step::Respond(
                Response {
                    status: Status::InternalServerError,
                    body: Body::Text(String::from_str("failed to fetch created user")),
                },
            ),
            _ => Step::Respond(
                Response { status: Status::NotFound, body: Body::Text(not_found_message(id)) },
            ),
        },
        Err(error) => fail_on(&error),
    }
}

/// Goes on after [`Step::Update`]: the row that the store hands back is
/// shown with status 200; a failure of the store ends the request.
pub fn updated(row: Result<Model, DbErr>) -> (step: Step)
    ensures
        row matches Ok(row) ==> step@ == after_update(row@),
        row matches Err(error) ==> is_storage_failure(step@, error),
{
    match row {
        Ok(model) => Step::Respond(
            Response { status: Status::Success, body: Body::User(UserResponse::from(model)) },
        ),
        Err(error) => fail_on(&error),
    }
}

/// Deletes a user: asks the store to remove the row with this id.
pub fn delete_user(id: i32) -> (step: Step)
    ensures
        step@ == delete_user_step(id),
{
    Step::DeleteById { id }
}

/// Goes on after [`Step::DeleteById`]: where a row was removed the deletion
/// is confirmed with status 200, where none was the answer is 404; a
/// failure of the store ends the request.
pub fn deleted(id: i32, result: Result<DeleteResult, DbErr>) -> (step: Step)
    ensures
        result matches Ok(result) ==> step@ == after_delete(id, result.rows_affected),
        result matches Err(error) ==> is_storage_failure(step@, error),
{
    match result {
        Ok(result) => {
            if result.rows_affected > 0 {
                Step::Respond(
                    Response { status: Status::Success, body: Body::Text(deleted_message(id)) },
                )
            } else {
                Step::Respond(
                    Response { status: Status::NotFound, body: Body::Text(not_found_message(id)) },
                )
            }
        },
        Err(error) => fail_on(&error),
    }
}

} // verus!
