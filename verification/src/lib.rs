//! A small posts service: a create/list/fetch data-access layer over a
//! document store, with request schemas, response envelopes and an error
//! taxonomy that maps each failure kind to one HTTP status and message.

pub mod db;
pub mod error;
pub mod handler;
pub mod model;
pub mod oid;
pub mod response;
pub mod schema;
