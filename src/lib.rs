//! Effect and command composition for an Elm-style UI runtime.

pub mod modifier;
pub mod task;
pub mod effects;
pub mod cmd;
