//! The signing backends.

pub mod dirk;
pub mod invariants;
pub mod local;
pub mod ownership;
pub mod protocol;
