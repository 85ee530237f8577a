//! Locates, downloads and caches the pinned `quickmark-server` release for an
//! editor extension host.
//!
//! The crate holds the decisions only: which release asset belongs to a
//! platform, where the binary lives on disk, when a cached path may be reused
//! and in which order the host has to probe, clean up, download and verify.
//! Every effect is handed to the caller as a [`protocol::Action`]; the caller
//! performs it and reports back with a [`protocol::Reply`].

pub mod acquire;
pub mod cleanup;
pub mod command;
pub mod error;
pub mod guarantees;
pub mod layout;
pub mod paths;
pub mod platform;
pub mod protocol;
pub mod text;
pub mod trace;
