use crud_with_sea_orm::api::users::user::{ActiveModel, ActiveValue, Model, Relation, Timestamp};
use crud_with_sea_orm::api::users::{
    create_user, delete_user, deleted, fail, found, get_user, inserted, list_users, listed,
    update_user, updated, AfterFind, CreateUser, Step, UpdateUser, UserResponse,
};
use crud_with_sea_orm::http::{Body, Response, Status};
use sea_orm::{DbErr, DeleteResult};
use std::collections::BTreeMap;

/// A table in memory that answers as a working store does: ids count up
/// from 1, rows are listed by id.
struct Table {
    rows: BTreeMap<i32, Model>,
    next_id: i32,
}

fn empty_table() -> Table {
    Table { rows: BTreeMap::new(), next_id: 1 }
}

fn given<V>(value: ActiveValue<V>) -> Option<V> {
    match value {
        ActiveValue::Changed(v) | ActiveValue::Unchanged(v) => Some(v),
        ActiveValue::NotSet => None,
    }
}

fn insert(table: &mut Table, row: ActiveModel) -> Result<i32, DbErr> {
    let id = given(row.id).unwrap_or(table.next_id);
    let (Some(name), Some(email)) = (given(row.name), given(row.email)) else {
        return Err(DbErr::Custom("a required column is missing".to_string()));
    };
    if table.rows.contains_key(&id) {
        return Err(DbErr::Custom("the id is taken".to_string()));
    }
    let created_at = given(row.created_at).unwrap_or(None);
    table.rows.insert(id, Model { id, name, email, created_at });
    table.next_id = id + 1;
    Ok(id)
}

fn update(table: &mut Table, row: ActiveModel) -> Result<Model, DbErr> {
    let held = given(row.id).and_then(|id| table.rows.get_mut(&id)).ok_or(DbErr::RecordNotUpdated)?;
    if let ActiveValue::Changed(name) = row.name {
        held.name = name;
    }
    if let ActiveValue::Changed(email) = row.email {
        held.email = email;
    }
    if let ActiveValue::Changed(created_at) = row.created_at {
        held.created_at = created_at;
    }
    Ok(held.clone())
}

/// Serves a request to its end, as the program around the library does.
fn serve(table: &mut Table, first: Step) -> Step {
    let mut step = first;
    loop {
        step = match step {
            Step::FindAll => listed(Ok(table.rows.values().cloned().collect())),
            Step::FindById { id, then } => found(id, then, Ok(table.rows.get(&id).cloned())),
            Step::Insert { row } => inserted(insert(table, row)),
            Step::Update { row } => updated(update(table, row)),
            Step::DeleteById { id } => {
                let rows_affected = if table.rows.remove(&id).is_some() { 1 } else { 0 };
                deleted(id, Ok(DeleteResult { rows_affected }))
            }
            last => return last,
        }
    }
}

fn create(name: &str, email: &str) -> Step {
    create_user(CreateUser { name: name.to_string(), email: email.to_string() })
}

fn user(id: i32, name: &str, email: &str) -> UserResponse {
    UserResponse { id, name: name.to_string(), email: email.to_string() }
}

fn row(id: i32, name: &str, email: &str) -> Model {
    Model { id, name: name.to_string(), email: email.to_string(), created_at: None }
}

fn shows(status: Status, user: UserResponse) -> Step {
    Step::Respond(Response { status, body: Body::User(user) })
}

fn says(status: Status, text: &str) -> Step {
    Step::Respond(Response { status, body: Body::Text(text.to_string()) })
}

#[test]
fn ada_is_created_shown_changed_and_deleted() {
    let mut table = empty_table();
    assert_eq!(
        serve(&mut table, create("Ada", "ada@x.io")),
        shows(Status::Created, user(1, "Ada", "ada@x.io"))
    );
    assert_eq!(serve(&mut table, get_user(1)), shows(Status::Success, user(1, "Ada", "ada@x.io")));
    let change = UpdateUser { name: None, email: Some("ada@lovelace.io".to_string()) };
    assert_eq!(
        serve(&mut table, update_user(1, change)),
        shows(Status::Success, user(1, "Ada", "ada@lovelace.io"))
    );
    assert_eq!(serve(&mut table, delete_user(1)), says(Status::Success, "deleted user 1"));
    assert_eq!(serve(&mut table, get_user(1)), says(Status::NotFound, "user 1 not found"));
}

#[test]
fn created_user_is_read_back_with_the_same_name_and_email() {
    let mut table = empty_table();
    serve(&mut table, create("Grace", "grace@navy.mil"));
    let Step::Respond(Response { status, body: Body::User(created) }) =
        serve(&mut table, create("Edsger", "ewd@tue.nl"))
    else {
        panic!("the user was not created");
    };
    assert_eq!(status, Status::Created);
    assert_eq!(created, user(2, "Edsger", "ewd@tue.nl"));
    assert_eq!(serve(&mut table, get_user(created.id)), shows(Status::Success, created));
}

#[test]
fn absent_id_gives_404_for_get_update_and_delete() {
    let mut table = empty_table();
    serve(&mut table, create("Ada", "ada@x.io"));
    let change = UpdateUser { name: Some("X".to_string()), email: None };
    assert_eq!(serve(&mut table, get_user(42)), says(Status::NotFound, "user 42 not found"));
    assert_eq!(
        serve(&mut table, update_user(42, change)),
        says(Status::NotFound, "user 42 not found")
    );
    assert_eq!(serve(&mut table, delete_user(42)), says(Status::NotFound, "user 42 not found"));
    assert_eq!(table.rows.len(), 1);
    assert_eq!(table.rows[&1], row(1, "Ada", "ada@x.io"));
}

#[test]
fn update_with_only_a_name_leaves_the_email() {
    let mut table = empty_table();
    serve(&mut table, create("Ada", "ada@x.io"));
    serve(&mut table, create("Grace", "grace@navy.mil"));
    let change = UpdateUser { name: Some("X".to_string()), email: None };
    assert_eq!(
        serve(&mut table, update_user(1, change)),
        shows(Status::Success, user(1, "X", "ada@x.io"))
    );
    assert_eq!(table.rows[&1], row(1, "X", "ada@x.io"));
    assert_eq!(table.rows[&2], row(2, "Grace", "grace@navy.mil"));
}

#[test]
fn update_with_only_an_email_leaves_the_name() {
    let mut table = empty_table();
    serve(&mut table, create("Ada", "ada@x.io"));
    let change = UpdateUser { name: None, email: Some("Y".to_string()) };
    assert_eq!(
        serve(&mut table, update_user(1, change)),
        shows(Status::Success, user(1, "Ada", "Y"))
    );
    assert_eq!(table.rows[&1], row(1, "Ada", "Y"));
}

#[test]
fn update_with_both_fields_changes_both() {
    let mut table = empty_table();
    serve(&mut table, create("Ada", "ada@x.io"));
    let change = UpdateUser { name: Some("X".to_string()), email: Some("Y".to_string()) };
    assert_eq!(
        serve(&mut table, update_user(1, change)),
        shows(Status::Success, user(1, "X", "Y"))
    );
}

#[test]
fn update_with_no_field_changes_nothing() {
    let mut table = empty_table();
    serve(&mut table, create("Ada", "ada@x.io"));
    let change = UpdateUser { name: None, email: None };
    assert_eq!(
        serve(&mut table, update_user(1, change)),
        shows(Status::Success, user(1, "Ada", "ada@x.io"))
    );
    assert_eq!(table.rows[&1], row(1, "Ada", "ada@x.io"));
}

#[test]
fn second_delete_of_the_same_id_gives_404() {
    let mut table = empty_table();
    serve(&mut table, create("Ada", "ada@x.io"));
    assert_eq!(serve(&mut table, delete_user(1)), says(Status::Success, "deleted user 1"));
    assert_eq!(serve(&mut table, delete_user(1)), says(Status::NotFound, "user 1 not found"));
    assert!(table.rows.is_empty());
}

#[test]
fn list_of_an_empty_table_is_an_empty_array() {
    let mut table = empty_table();
    assert_eq!(
        serve(&mut table, list_users()),
        Step::Respond(Response { status: Status::Success, body: Body::Users(vec![]) })
    );
}

#[test]
fn list_after_three_creates_has_three_entries() {
    let mut table = empty_table();
    serve(&mut table, create("Ada", "ada@x.io"));
    serve(&mut table, create("Grace", "grace@navy.mil"));
    serve(&mut table, create("Edsger", "ewd@tue.nl"));
    let Step::Respond(Response { status, body: Body::Users(users) }) =
        serve(&mut table, list_users())
    else {
        panic!("the users were not listed");
    };
    assert_eq!(status, Status::Success);
    assert_eq!(
        users,
        vec![
            user(1, "Ada", "ada@x.io"),
            user(2, "Grace", "grace@navy.mil"),
            user(3, "Edsger", "ewd@tue.nl"),
        ]
    );
}

#[test]
fn list_users_asks_for_all_rows() {
    assert_eq!(list_users(), Step::FindAll);
}

#[test]
fn listed_keeps_the_order_of_the_rows_and_hides_created_at() {
    let created_at =
        Some(Timestamp { seconds: 1_700_000_000, nanoseconds: 5, offset_seconds: 3600 });
    let rows = vec![
        Model { id: 9, name: "Z".to_string(), email: "z@z".to_string(), created_at },
        row(3, "A", "a@a"),
    ];
    assert_eq!(
        listed(Ok(rows)),
        Step::Respond(Response {
            status: Status::Success,
            body: Body::Users(vec![user(9, "Z", "z@z"), user(3, "A", "a@a")]),
        })
    );
}

#[test]
fn get_user_asks_for_the_row() {
    assert_eq!(get_user(5), Step::FindById { id: 5, then: AfterFind::Show });
}

#[test]
fn create_user_asks_for_an_insert_without_id_or_time() {
    assert_eq!(
        create("Ada", "ada@x.io"),
        Step::Insert {
            row: ActiveModel {
                id: ActiveValue::NotSet,
                name: ActiveValue::Changed("Ada".to_string()),
                email: ActiveValue::Changed("ada@x.io".to_string()),
                created_at: ActiveValue::Changed(None),
            },
        }
    );
}

#[test]
fn inserted_reads_the_new_row_back() {
    assert_eq!(inserted(Ok(17)), Step::FindById { id: 17, then: AfterFind::ShowCreated });
}

#[test]
fn created_row_that_is_gone_gives_500() {
    assert_eq!(
        found(17, AfterFind::ShowCreated, Ok(None)),
        says(Status::InternalServerError, "failed to fetch created user")
    );
}

#[test]
fn update_user_asks_for_the_row_first() {
    let change = UpdateUser { name: Some("X".to_string()), email: None };
    assert_eq!(
        update_user(5, change.clone()),
        Step::FindById { id: 5, then: AfterFind::Change(change) }
    );
}

#[test]
fn found_row_is_written_back_with_the_changed_fields_only() {
    let created_at = Some(Timestamp { seconds: 12, nanoseconds: 0, offset_seconds: 0 });
    let held = Model { id: 5, name: "Ada".to_string(), email: "ada@x.io".to_string(), created_at };
    let change = UpdateUser { name: None, email: Some("ada@lovelace.io".to_string()) };
    assert_eq!(
        found(5, AfterFind::Change(change), Ok(Some(held))),
        Step::Update {
            row: ActiveModel {
                id: ActiveValue::Unchanged(5),
                name: ActiveValue::Unchanged("Ada".to_string()),
                email: ActiveValue::Changed("ada@lovelace.io".to_string()),
                created_at: ActiveValue::Unchanged(created_at),
            },
        }
    );
}

#[test]
fn active_model_of_a_row_keeps_every_column() {
    let created_at =
        Some(Timestamp { seconds: -1, nanoseconds: 999_999_999, offset_seconds: -7200 });
    let held = Model { id: 8, name: "N".to_string(), email: "E".to_string(), created_at };
    assert_eq!(
        ActiveModel::from(held),
        ActiveModel {
            id: ActiveValue::Unchanged(8),
            name: ActiveValue::Unchanged("N".to_string()),
            email: ActiveValue::Unchanged("E".to_string()),
            created_at: ActiveValue::Unchanged(created_at),
        }
    );
}

#[test]
fn user_response_of_a_row_drops_created_at() {
    let created_at = Some(Timestamp { seconds: 1, nanoseconds: 2, offset_seconds: 3 });
    let held = Model { id: 8, name: "N".to_string(), email: "E".to_string(), created_at };
    assert_eq!(UserResponse::from(held), user(8, "N", "E"));
}

#[test]
fn updated_row_is_shown() {
    assert_eq!(updated(Ok(row(5, "X", "Y"))), shows(Status::Success, user(5, "X", "Y")));
}

#[test]
fn delete_user_asks_for_the_removal() {
    assert_eq!(delete_user(5), Step::DeleteById { id: 5 });
}

#[test]
fn deleted_with_several_rows_affected_is_confirmed() {
    assert_eq!(
        deleted(-3, Ok(DeleteResult { rows_affected: 2 })),
        says(Status::Success, "deleted user -3")
    );
}

#[test]
fn deleted_with_no_row_affected_gives_404() {
    assert_eq!(
        deleted(i32::MIN, Ok(DeleteResult { rows_affected: 0 })),
        says(Status::NotFound, "user -2147483648 not found")
    );
}

#[test]
fn storage_failure_ends_every_step_with_the_error_text() {
    let failure = Step::Fail("db error: Custom Error: boom".to_string());
    let boom = || DbErr::Custom("boom".to_string());
    assert_eq!(listed(Err(boom())), failure);
    assert_eq!(found(1, AfterFind::Show, Err(boom())), failure);
    assert_eq!(found(1, AfterFind::ShowCreated, Err(boom())), failure);
    let change = UpdateUser { name: None, email: None };
    assert_eq!(found(1, AfterFind::Change(change), Err(boom())), failure);
    assert_eq!(inserted(Err(boom())), failure);
    assert_eq!(updated(Err(boom())), failure);
    assert_eq!(deleted(1, Err(boom())), failure);
}

#[test]
fn update_of_a_row_that_vanished_is_a_storage_failure() {
    let mut table = empty_table();
    let gone = ActiveModel::from(row(4, "Ada", "ada@x.io"));
    assert_eq!(
        serve(&mut table, Step::Update { row: gone }),
        Step::Fail("db error: None of the records are updated".to_string())
    );
}

#[test]
fn fail_puts_the_text_behind_db_error() {
    assert_eq!(fail("connection refused"), Step::Fail("db error: connection refused".to_string()));
    assert_eq!(fail(""), Step::Fail("db error: ".to_string()));
}

#[test]
fn users_table_has_no_relations() {
    assert!(Relation::all().is_empty());
    assert_eq!(std::mem::size_of::<Relation>(), 0);
}

#[test]
fn status_codes_are_those_of_http() {
    assert_eq!(Status::Success.code(), 200);
    assert_eq!(Status::Created.code(), 201);
    assert_eq!(Status::NotFound.code(), 404);
    assert_eq!(Status::InternalServerError.code(), 500);
}
