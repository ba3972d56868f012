//! The rules of the client that stand between its input and its store.

pub mod player;
pub mod ui;
