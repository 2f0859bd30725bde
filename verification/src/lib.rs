//! Backend of a desktop project launcher.
//!
//! Project metadata records live as individual files in a data directory.
//! The library decodes those records, looks them up by identifier, resolves
//! a preferred IDE name to an executable, and composes the environment for
//! the process that opens a project.

pub mod codec;
pub mod compose;
pub mod launcher;
pub mod platform;
pub mod record;
pub mod resolver;
pub mod store;
pub mod text;
