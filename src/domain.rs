//! The entity model and the use cases that run against a repository.
pub mod create_item;
pub mod delete_item;
pub mod read_item;
pub mod read_items;
pub mod types;
pub mod update_item;
