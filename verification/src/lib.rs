//! Decision logic of a file-storage backend: the operation protocol that
//! drives the database and the object store, session handling, request
//! validation and the notification hub.
pub mod cleanup;
pub mod config;
pub mod crypto;
pub mod ids;
pub mod notify;
pub mod ops;
pub mod routes;
pub mod text;
pub mod vecs;
