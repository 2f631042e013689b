//! Items ordered at the numbered tables of a restaurant: validated values, the
//! item entity, a repository contract with an in-memory backend, the decisions
//! of a persistent backend, and the per-item batch protocol.
pub mod text;
pub mod domain;
pub mod repository;
pub mod api;
