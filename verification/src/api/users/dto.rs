//! What goes in and out of the users API: the bodies of its requests, and
//! a user as its responses show it.

use crate::api::users::user::{Model, ModelView};
use vstd::prelude::*;

verus! {

/// The body of a request that creates a user.
#[derive(Clone, Debug, PartialEq, Eq)]
pub struct CreateUser {
    pub name: String,
    pub email: String,
}

/// A request to create a user, with its texts as sequences of characters.
pub struct CreateUserView {
    pub name: Seq<char>,
    pub email: Seq<char>,
}

impl View for CreateUser {
    type V = CreateUserView;

    open spec fn view(&self) -> CreateUserView {
        CreateUserView { name: self.name@, email: self.email@ }
    }
}

/// The body of a request that changes a user: a field that is absent is
/// left as it is.
#[derive(Clone, Debug, PartialEq, Eq)]
pub struct UpdateUser {
    pub name: Option<String>,
    pub email: Option<String>,
}

/// A request to change a user, with its texts as sequences of characters.
pub struct UpdateUserView {
    pub name: Option<Seq<char>>,
    pub email: Option<Seq<char>>,
}

impl View for UpdateUser {
    type V = UpdateUserView;

    open spec fn view(&self) -> UpdateUserView {
        UpdateUserView { name: self.name.deep_view(), email: self.email.deep_view() }
    }
}

/// A user as the API shows it. When the row was created is not shown.
#[derive(Clone, Debug, PartialEq, Eq)]
pub struct UserResponse {
    pub id: i32,
    pub name: String,
    pub email: String,
}

/// A user as the API shows it, with its texts as sequences of characters.
pub struct UserResponseView {
    pub id: i32,
    pub name: Seq<char>,
    pub email: Seq<char>,
}

impl View for UserResponse {
    type V = UserResponseView;

    open spec fn view(&self) -> UserResponseView {
        UserResponseView { id: self.id, name: self.name@, email: self.email@ }
    }
}

impl DeepView for UserResponse {
    type V = UserResponseView;

    open spec fn deep_view(&self) -> UserResponseView {
        self@
    }
}

/// The user that the API shows for a row.
pub open spec fn shown(row: ModelView) -> UserResponseView {
    UserResponseView { id: row.id, name: row.name, email: row.email }
}

impl From<Model> for UserResponse {
    /// The user that the API shows for a row.
    fn from(model: Model) -> (user: UserResponse)
        ensures
            user@ == shown(model@),
    {
        UserResponse { id: model.id, name: model.name, email: model.email }
    }
}

impl vstd::std_specs::convert::FromSpecImpl<Model> for UserResponse {
    open spec fn obeys_from_spec() -> bool {
        true
    }

    open spec fn from_spec(model: Model) -> UserResponse {
        UserResponse { id: model.id, name: model.name, email: model.email }
    }
}

} // verus!
