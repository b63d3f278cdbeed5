pub mod engine;
pub mod entry;
pub mod laws;
pub mod persist;
pub mod protocol;
pub mod store;
