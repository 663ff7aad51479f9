pub mod auth;
pub mod filesystem;
