//! A minimal notes service, verified at its core: a repository of notes with
//! unique identifiers and unique titles, and the request-level logic that
//! validates identifiers and maps repository outcomes to HTTP status codes
//! and response bodies.
pub mod ext;
pub mod handler;
pub mod model;
