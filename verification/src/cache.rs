pub mod file_backed;
pub mod store;
pub mod types;
