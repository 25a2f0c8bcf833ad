//! The verified core of two small web services: an API for users that are
//! kept in a database table, with the history of that database's schema,
//! and a demo service that greets.
//!
//! Nothing here talks to a network or a database. A handler of the users
//! API is a chain of steps ([`api::users::Step`]): each step either asks
//! the store one question or ends the request, and the function that takes
//! the store's answer decides the next step. The program around the library
//! asks the questions. What the API promises is proved in
//! [`api::users::laws`], of every request that is served against a store
//! that behaves as [`api::users::store`] describes.

pub mod api;
pub mod hello_world;
pub mod http;
pub mod migration;
pub mod text;
