pub mod api;
pub mod router;
pub mod store;
pub mod todo;
