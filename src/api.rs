//! What the request handlers decide: the validation of request values, and
//! the per-item batch protocol with its statuses and messages.
pub mod batch;
pub mod handlers;
pub mod helpers;
pub mod routes;
