//! Authenticated now-playing state service.
//!
//! The library tracks a single "currently playing media" record, keeps an
//! append-only history of past records, and gates every operation behind a
//! bearer-credential check and an identity-based authorization policy.

pub mod auth;
pub mod config;
pub mod history;
pub mod identity;
pub mod laws;
pub mod relay;
pub mod service;
pub mod songs;
pub mod store;
