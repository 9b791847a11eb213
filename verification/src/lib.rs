//! A workspace containerization runtime: a *box* is an isolated place where
//! code runs, and its isolation is something a caller can inspect before
//! relying on it.

pub mod backend;
pub mod box_spec;
pub mod capability;
pub mod command;
pub mod conversation;
pub mod docker;
pub mod error;
pub mod file_store;
pub mod forward;
pub mod identity;
pub mod local;
pub mod module;
pub mod number;
pub mod ordered;
pub mod passthrough;
pub mod path;
pub mod runtime;
pub mod session;
pub mod shell;
pub mod ssh;
pub mod store;
pub mod text;
pub mod walkthrough;
