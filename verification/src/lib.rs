//! A multi-tenant playback queue controller.
//!
//! Every tenant owns a queue of tracks, a slot for the track that is playing, a bounded
//! history, a loop mode and at most one event handler. The operations on that state and the
//! order of the hook calls they give rise to are stated as contracts over a mathematical
//! model and proved.

pub mod bridge;
pub mod command;
pub mod config;
pub mod data;
pub mod emoji;
pub mod error;
pub mod handler;
pub mod helper;
pub mod laws;
pub mod manager;
pub mod models;
pub mod resolver;
pub mod roles;
pub mod state;
pub mod track;
