//! A merge-queue bot core: persistent pull-request / build / workflow state,
//! comment command parsing, event handlers and a serialising event actor.
pub mod actor;
pub mod command;
pub mod database;
pub mod handlers;
pub mod laws;
pub mod model;
