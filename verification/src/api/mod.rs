//! The API: every feature's routes under one common prefix.

pub mod users;

use crate::api::users::users_routes;
use crate::http::Method;
use vstd::prelude::*;

verus! {

/// The handlers that a route can lead to.
#[derive(Clone, Copy, Debug, PartialEq, Eq, Structural)]
pub enum Handler {
    ListUsers,
    CreateUser,
    GetUser,
    UpdateUser,
    DeleteUser,
}

/// One line of the routing table: requests with this method and this path
/// go to this handler. In a path, `{id}` stands for the id of a user.
#[derive(Clone, Debug, PartialEq, Eq)]
pub struct Route {
    pub method: Method,
    pub path: String,
    pub handler: Handler,
}

/// A route with its path as a sequence of characters.
pub struct RouteView {
    pub method: Method,
    pub path: Seq<char>,
    pub handler: Handler,
}

impl View for Route {
    type V = RouteView;

    open spec fn view(&self) -> RouteView {
        RouteView { method: self.method, path: self.path@, handler: self.handler }
    }
}

impl DeepView for Route {
    type V = RouteView;

    open spec fn deep_view(&self) -> RouteView {
        self@
    }
}

/// The routing table of the API: the users feature under `/api`.
pub open spec fn api_routes() -> Seq<RouteView> {
    seq![
        RouteView { method: Method::Get, path: "/api/users"@, handler: Handler::ListUsers },
        RouteView { method: Method::Post, path: "/api/users"@, handler: Handler::CreateUser },
        RouteView { method: Method::Get, path: "/api/users/{id}"@, handler: Handler::GetUser },
        RouteView { method: Method::Put, path: "/api/users/{id}"@, handler: Handler::UpdateUser },
        RouteView {
            method: Method::Delete,
            path: "/api/users/{id}"@,
            handler: Handler::DeleteUser,
        },
    ]
}

/// A routing table with every path put behind a prefix.
pub open spec fn mounted(prefix: Seq<char>, routes: Seq<RouteView>) -> Seq<RouteView> {
    routes.map_values(
        |route: RouteView|
            RouteView { method: route.method, path: prefix + route.path, handler: route.handler },
    )
}

/// The table of the API is that of the users feature behind `/api`.
pub proof fn api_routes_are_mounted_users_routes()
    ensures
        api_routes() == mounted("/api"@, users_routes()),
{
    reveal_strlit("/api");
    reveal_strlit("/users");
    reveal_strlit("/users/{id}");
    reveal_strlit("/api/users");
    reveal_strlit("/api/users/{id}");
    assert("/api"@ + "/users"@ =~= "/api/users"@);
    assert("/api"@ + "/users/{id}"@ =~= "/api/users/{id}"@);
}

/// All routes of the API, each feature's under the common prefix `/api`.
pub fn routes() -> (routes: Vec<Route>)
    ensures
        routes.deep_view() == api_routes(),
{
    let features = users::routes();
    let ghost all = features.deep_view();
    let mut routes: Vec<Route> = Vec::new();
    for feature in it: features.into_iter()
        invariant
            it.seq().len() == all.len(),
            forall|i: int| 0 <= i < all.len() ==> (#[trigger] it.seq()[i])@ == all[i],
            routes@.len() == it.index(),
            forall|i: int|
                0 <= i < routes@.len() ==> (#[trigger] routes@[i])@ == mounted("/api"@, all)[i],
    {
        let mut path = String::from_str("/api");
        path.append(feature.path.as_str());
        routes.push(Route { method: feature.method, path, handler: feature.handler });
    }
    proof {
        api_routes_are_mounted_users_routes();
    }
    routes
}

} // verus!
