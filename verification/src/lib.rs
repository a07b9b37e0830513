//! An in-memory todo service: a store of todo records with list, create and
//! delete operations, and the request handlers that wrap them in HTTP replies.

pub mod clock;
pub mod handler;
pub mod ident;
pub mod model;
pub mod response;
pub mod route;
pub mod store;
