//! Core of a session-lock client: the decisions of the lock session, its
//! renderers, its input translation and its credential check, stated over
//! plain values and proved.

pub mod auth;
pub mod config;
pub mod error;
pub mod event;
pub mod files;
pub mod inner;
pub mod lock;
pub mod registry;
pub mod seat;
pub mod shader;
pub mod state;
pub mod ui;
