//! A terminal session manager: which shell a new session runs, where its
//! output is published, and how writes and teardown are routed to the
//! session they name.

pub mod error;
pub mod filesystem;
pub mod relay;
pub mod spawn;
pub mod table;
pub mod terminal;
