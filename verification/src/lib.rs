//! Core of a small school-registry HTTP service: the data model, the
//! error translation policy, an in-memory persistence gateway with the
//! transactional semantics of the school table, and the route dispatch
//! and handler layer that turn a request into a status and a body.
//! Process bootstrap, the HTTP transport and the on-disk store adapter
//! live outside this crate and call into it.

pub mod handlers;
pub mod json;
pub mod models;
pub mod routing;
pub mod schema_files;
pub mod store;
