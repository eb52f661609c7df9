//! Session identity and lifecycle management for a desktop mail client
//! backend: derives a stable, non-reversible session identifier from login
//! credentials, keeps an in-memory cache of live client handles keyed by
//! that identifier, and decides how a session is rehydrated from the secure
//! credential store after a cache miss.

pub mod config;
pub mod errors;
pub mod identifier;
pub mod info;
pub mod sessions;
