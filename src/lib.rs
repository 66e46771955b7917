pub mod errors;
pub mod models;
pub mod cache;
pub mod database;
pub mod datastore;
pub mod context_data;
pub mod event_handler;
pub mod traits;
