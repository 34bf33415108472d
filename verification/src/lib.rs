//! Request handling for a local inference daemon.

pub mod app;
pub mod calendar;
pub mod chat;
pub mod clock;
pub mod digest;
pub mod error;
pub mod inference;
pub mod models;
pub mod module;
pub mod modules;
pub mod rpc;
pub mod text;
