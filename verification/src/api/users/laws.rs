//! What holds of the users API, whatever the table holds: each law is
//! proved of requests that are served against a store that works.

use crate::api::users::dto::{shown, CreateUserView, UpdateUserView, UserResponseView};
use crate::api::users::step::StepView;
use crate::api::users::store::{
    given, insert_id, is_listing, serve, well_formed, Choice, Table,
};
use crate::api::users::user::ModelView;
use crate::api::users::{
    create_user_step, delete_user_step, get_user_step, list_users_step, update_user_step,
};
use crate::http::{text_response, user_response, users_response, Status};
use crate::text::{deleted_text, not_found_text};
use vstd::prelude::*;

verus! {

/// Whatever request is served, every row of the table stays under its own
/// id, and the table stays finite.
pub proof fn serving_keeps_every_row_under_its_id(table: Table, step: StepView, choice: Choice)
    requires
        well_formed(table),
    ensures
        well_formed(serve(table, step, choice).0),
{
    reveal_with_fuel(serve, 4);
}

/// Every request comes to an end: with a response, or as an internal
/// server error.
pub proof fn every_request_ends(table: Table, step: StepView, choice: Choice)
    ensures
        serve(table, step, choice).1 is Respond || serve(table, step, choice).1 is Fail,
{
    reveal_with_fuel(serve, 4);
}

/// Whether two tables hold the same under every id but this one.
pub open spec fn same_but_for(before: Table, after: Table, id: i32) -> bool {
    forall|other: i32|
        other != id ==> {
            &&& after.contains_key(other) == #[trigger] before.contains_key(other)
            &&& before.contains_key(other) ==> after[other] == before[other]
        }
}

/// A request writes at most once: there is an id such that the table is
/// as it was under every other id.
pub proof fn a_request_writes_at_most_one_row(table: Table, step: StepView, choice: Choice)
    ensures
        exists|id: i32| same_but_for(table, serve(table, step, choice).0, id),
{
    reveal_with_fuel(serve, 4);
    let written = match step {
        StepView::Insert { row } => insert_id(row, choice),
        StepView::Update { row } => given(row.id).unwrap(),
        StepView::DeleteById { id } => id,
        StepView::FindById { id, .. } => if table.contains_key(id) {
            table[id].id
        } else {
            id
        },
        _ => 0,
    };
    assert(same_but_for(table, serve(table, step, choice).0, written));
}

/// Listing the users and showing one of them leave the table as it is.
pub proof fn reading_leaves_the_table(table: Table, id: i32, choice: Choice)
    ensures
        serve(table, list_users_step(), choice).0 == table,
        serve(table, get_user_step(id), choice).0 == table,
{
    reveal_with_fuel(serve, 4);
}

/// The user that a request to create one describes, under the id that the
/// store gave it.
pub open spec fn described(id: i32, body: CreateUserView) -> UserResponseView {
    UserResponseView { id, name: body.name, email: body.email }
}

/// A user that was created is answered with status 201, and is then shown
/// under the id of that answer with the name and the email of the request.
pub proof fn created_user_is_shown(
    table: Table,
    body: CreateUserView,
    choice: Choice,
    later: Choice,
)
    requires
        !table.contains_key(choice.next_id),
    ensures
        ({
            let user = described(choice.next_id, body);
            let (after, created) = serve(table, create_user_step(body), choice);
            &&& created == StepView::Respond(user_response(Status::Created, user))
            &&& serve(after, get_user_step(user.id), later) == (
                after,
                StepView::Respond(user_response(Status::Success, user)),
            )
        }),
{
    reveal_with_fuel(serve, 4);
}

/// Under an id that the table does not hold, showing, changing and
/// deleting a user are each answered with status 404 and a message that
/// names the id, and the table stays as it is.
pub proof fn absent_user_is_not_found(table: Table, id: i32, body: UpdateUserView, choice: Choice)
    requires
        !table.contains_key(id),
    ensures
        ({
            let not_found = StepView::Respond(text_response(Status::NotFound, not_found_text(id)));
            &&& serve(table, get_user_step(id), choice) == (table, not_found)
            &&& serve(table, update_user_step(id, body), choice) == (table, not_found)
            &&& serve(table, delete_user_step(id), choice) == (table, not_found)
        }),
{
    reveal_with_fuel(serve, 4);
}

/// The row that a change leaves: a field that the request holds is
/// replaced, every other is as it was.
pub open spec fn changed(held: ModelView, body: UpdateUserView) -> ModelView {
    ModelView {
        id: held.id,
        name: match body.name {
            Some(name) => name,
            None => held.name,
        },
        email: match body.email {
            Some(email) => email,
            None => held.email,
        },
        created_at: held.created_at,
    }
}

/// Changing a user that the table holds replaces the fields that the
/// request holds and nothing else: a request with only a name leaves the
/// email as it was, one with only an email leaves the name, and no other
/// row is touched. The answer shows the row as it then is, with status 200.
pub proof fn update_changes_only_what_is_given(
    table: Table,
    id: i32,
    body: UpdateUserView,
    choice: Choice,
)
    requires
        table.contains_key(id),
        table[id].id == id,
    ensures
        ({
            let row = changed(table[id], body);
            &&& serve(table, update_user_step(id, body), choice) == (
                table.insert(id, row),
                StepView::Respond(user_response(Status::Success, shown(row))),
            )
            &&& body.name is None ==> row.name == table[id].name
            &&& body.email is None ==> row.email == table[id].email
        }),
{
    reveal_with_fuel(serve, 4);
}

/// Deleting a user that the table holds is confirmed once, with status
/// 200; deleting the same id again is answered with status 404.
pub proof fn delete_succeeds_once(table: Table, id: i32, choice: Choice, later: Choice)
    requires
        table.contains_key(id),
    ensures
        ({
            let (after, first) = serve(table, delete_user_step(id), choice);
            &&& after == table.remove(id)
            &&& first == StepView::Respond(text_response(Status::Success, deleted_text(id)))
            &&& serve(after, delete_user_step(id), later) == (
                after,
                StepView::Respond(text_response(Status::NotFound, not_found_text(id))),
            )
        }),
{
    reveal_with_fuel(serve, 4);
}

/// The choice of a store that gives the next row this id.
pub open spec fn giving(id: i32) -> Choice {
    Choice { next_id: id, listing: Seq::empty(), error: Seq::empty() }
}

/// The table after the users of `bodies` were created one after another,
/// starting with no row at all, where the store gave the user of
/// `bodies[k]` the id `ids[k]`.
pub open spec fn created(bodies: Seq<CreateUserView>, ids: Seq<i32>) -> Table
    decreases bodies.len(),
{
    if bodies.len() == 0 {
        Map::empty()
    } else {
        serve(
            created(bodies.drop_last(), ids.drop_last()),
            create_user_step(bodies.last()),
            giving(ids.last()),
        ).0
    }
}

/// After some users were created, each under an id of its own, the table
/// holds a row under each of these ids and under no other, with the name
/// and the email of the request that created it.
pub proof fn created_users_are_held(bodies: Seq<CreateUserView>, ids: Seq<i32>)
    requires
        ids.len() == bodies.len(),
        ids.no_duplicates(),
    ensures
        well_formed(created(bodies, ids)),
        created(bodies, ids).dom() == ids.to_set(),
        forall|k: int|
            0 <= k < ids.len() ==> shown(created(bodies, ids)[#[trigger] ids[k]]) == described(
                ids[k],
                bodies[k],
            ),
    decreases bodies.len(),
{
    reveal_with_fuel(serve, 4);
    if bodies.len() > 0 {
        let earlier = ids.drop_last();
        let last = ids.last();
        created_users_are_held(bodies.drop_last(), earlier);
        assert(ids =~= earlier.push(last));
        earlier.lemma_push_to_set_commute(last);
        // The last id is none of the earlier ones, so the store takes the row.
        assert(!earlier.contains(last)) by {
            if earlier.contains(last) {
                assert(ids[earlier.index_of(last)] == ids[ids.len() - 1]);
            }
        }
        assert forall|k: int| 0 <= k < ids.len() implies shown(
            created(bodies, ids)[#[trigger] ids[k]],
        ) == described(ids[k], bodies[k]) by {
            if k < ids.len() - 1 {
                assert(earlier[k] == ids[k] && bodies.drop_last()[k] == bodies[k]);
            }
        }
    }
}

/// With no user created the list is empty; after some users were created
/// and none deleted, the list holds as many entries as were created, each
/// entry is one of the created users, and each created user is an entry.
/// The answer has status 200, and listing leaves the table as it is.
pub proof fn list_shows_the_created_users(
    bodies: Seq<CreateUserView>,
    ids: Seq<i32>,
    choice: Choice,
)
    requires
        ids.len() == bodies.len(),
        ids.no_duplicates(),
        is_listing(created(bodies, ids), choice.listing),
    ensures
        ({
            let table = created(bodies, ids);
            let users = choice.listing.map_values(|row: ModelView| shown(row));
            let users_created = Seq::new(ids.len(), |k: int| described(ids[k], bodies[k]));
            &&& serve(table, list_users_step(), choice) == (
                table,
                StepView::Respond(users_response(Status::Success, users)),
            )
            &&& users.len() == bodies.len()
            &&& forall|j: int| 0 <= j < users.len() ==> users_created.contains(#[trigger] users[j])
            &&& forall|k: int|
                0 <= k < ids.len() ==> users.contains(#[trigger] users_created[k])
        }),
{
    reveal_with_fuel(serve, 4);
    let table = created(bodies, ids);
    let rows = choice.listing;
    let users = rows.map_values(|row: ModelView| shown(row));
    let users_created = Seq::new(ids.len(), |k: int| described(ids[k], bodies[k]));
    created_users_are_held(bodies, ids);
    // The ids of the listed rows are the ids that were given, each once.
    let listed = rows.map_values(|row: ModelView| row.id);
    assert(listed.to_set() =~= ids.to_set()) by {
        assert forall|id: i32| ids.to_set().contains(id) implies listed.to_set().contains(id) by {
            let i = choose|i: int| 0 <= i < rows.len() && (#[trigger] rows[i]).id == id;
            assert(listed[i] == id);
        }
        assert forall|id: i32| listed.to_set().contains(id) implies ids.to_set().contains(id) by {
            assert(table.contains_key(rows[listed.index_of(id)].id));
        }
    }
    listed.unique_seq_to_set();
    ids.unique_seq_to_set();
    assert forall|j: int| 0 <= j < users.len() implies users_created.contains(
        #[trigger] users[j],
    ) by {
        assert(table.contains_key(rows[j].id));
        assert(users_created[ids.index_of(rows[j].id)] == users[j]);
    }
    assert forall|k: int| 0 <= k < ids.len() implies users.contains(
        #[trigger] users_created[k],
    ) by {
        assert(table.contains_key(ids[k]));
        let j = choose|j: int| 0 <= j < rows.len() && (#[trigger] rows[j]).id == ids[k];
        assert(users[j] == users_created[k]);
    }
}

} // verus!
