//! What the gateway keeps on disk for each charge point, and how it is keyed.

pub mod auth;
pub mod config;
pub mod profiles;
pub mod queue;
pub mod reservations;
pub mod state;
