//! A small search relay for a movie and series metadata service: it builds
//! the upstream query from the caller's parameters and maps the upstream's
//! answer, with its own success flag, to a plain list of matches.
pub mod media;
pub mod query;
pub mod upstream;
pub mod handler;
