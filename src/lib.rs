//! File access scoped to one workspace directory.
//!
//! The library decides; the host performs the file-system work. A caller
//! starts a [`session::Session`] for one request, carries out each
//! [`session::Action`] it hands back, and feeds the outcome in as an
//! [`session::Event`] until the session finishes with a reply or an error.
mod text;

pub mod path;
pub mod error;
pub mod session;
pub mod disk;
