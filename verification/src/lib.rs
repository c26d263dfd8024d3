//! Dynamic DNS for a single Cloudflare `A` record.
//!
//! The crate holds the decisions of one reconciliation pass: which lookup
//! provider to ask next and how often, what a provider's answer means, whether
//! the answer differs from the address sent last time, which DNS record may be
//! changed and how. It performs no input or output itself. A caller carries out
//! each request the crate asks for and hands the reply back.

pub mod address;
pub mod cloudflare;
pub mod config;
pub mod ip_find;
pub mod logging;
pub mod outside;
pub mod service;
pub mod state;
