//! The demo service: a greeting, an echo, and a fixed reply.

use crate::http::{text_response, Body, Response, Status};
use crate::text::{greeting, greeting_text};
use vstd::prelude::*;

verus! {

/// What the demo service knows of itself.
#[derive(Clone, Debug, PartialEq, Eq)]
pub struct AppState {
    pub app_name: String,
}

/// The greeting under `/`: "Hello ", the application's name, and "!".
pub fn hello(data: &AppState) -> (body: String)
    ensures
        body@ == greeting_text(data.app_name@),
{
    greeting(data.app_name.as_str())
}

/// The answer under `/echo`: the request's body, sent back with status 200.
pub fn echo(req_body: String) -> (response: Response)
    ensures
        response@ == text_response(Status::Success, req_body@),
{
    Response { status: Status::Success, body: Body::Text(req_body) }
}

/// The answer under `/hey`: "Hey there!", with status 200.
pub fn manual_hello() -> (response: Response)
    ensures
        response@ == text_response(Status::Success, "Hey there!"@),
{
    Response { status: Status::Success, body: Body::Text(String::from_str("Hey there!")) }
}

} // verus!
