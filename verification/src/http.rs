//! The part of HTTP that the services decide on: a request's method, and the
//! status and body of a response.

use crate::api::users::dto::{UserResponse, UserResponseView};
use vstd::prelude::*;

verus! {

/// The method of a request.
#[derive(Clone, Copy, Debug, PartialEq, Eq, Structural)]
pub enum Method {
    Get,
    Post,
    Put,
    Delete,
}

/// The status of a response.
#[derive(Clone, Copy, Debug, PartialEq, Eq, Structural)]
pub enum Status {
    Success,
    Created,
    NotFound,
    InternalServerError,
}

impl Status {
    /// The status as the number that goes over the wire.
    pub open spec fn code_spec(self) -> u16 {
        match self {
            Status::Success => 200,
            Status::Created => 201,
            Status::NotFound => 404,
            Status::InternalServerError => 500,
        }
    }

    /// The status as the number that goes over the wire.
    #[verifier::when_used_as_spec(code_spec)]
    pub fn code(self) -> (code: u16)
        ensures
            code == self.code_spec(),
    {
        match self {
            Status::Success => 200,
            Status::Created => 201,
            Status::NotFound => 404,
            Status::InternalServerError => 500,
        }
    }
}

/// The body of a response.
#[derive(Clone, Debug, PartialEq, Eq)]
pub enum Body {
    /// Plain text.
    Text(String),
    /// One user, sent as a JSON object.
    User(UserResponse),
    /// Users, sent as a JSON array.
    Users(Vec<UserResponse>),
}

/// A body with its texts as sequences of characters.
pub enum BodyView {
    Text(Seq<char>),
    User(UserResponseView),
    Users(Seq<UserResponseView>),
}

impl View for Body {
    type V = BodyView;

    open spec fn view(&self) -> BodyView {
        match *self {
            Body::Text(text) => BodyView::Text(text@),
            Body::User(user) => BodyView::User(user@),
            Body::Users(users) => BodyView::Users(users.deep_view()),
        }
    }
}

/// A response: its status and its body.
#[derive(Clone, Debug, PartialEq, Eq)]
pub struct Response {
    pub status: Status,
    pub body: Body,
}

/// A response with its texts as sequences of characters.
pub struct ResponseView {
    pub status: Status,
    pub body: BodyView,
}

impl View for Response {
    type V = ResponseView;

    open spec fn view(&self) -> ResponseView {
        ResponseView { status: self.status, body: self.body@ }
    }
}

/// A plain-text response.
pub open spec fn text_response(status: Status, text: Seq<char>) -> ResponseView {
    ResponseView { status, body: BodyView::Text(text) }
}

/// A response that carries one user.
pub open spec fn user_response(status: Status, user: UserResponseView) -> ResponseView {
    ResponseView { status, body: BodyView::User(user) }
}

/// A response that carries a list of users.
pub open spec fn users_response(status: Status, users: Seq<UserResponseView>) -> ResponseView {
    ResponseView { status, body: BodyView::Users(users) }
}

} // verus!
