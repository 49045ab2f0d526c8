//! Uploads text to paste-hosting services: a registry of backends keyed by a
//! stable identifier, the request and response handling of each backend, and
//! the configuration that decides which backends are available.
pub mod config;
pub mod pastebins;
