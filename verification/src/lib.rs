//! A verified port-reconciliation engine.
//!
//! The library keeps a provider-assigned ephemeral forwarded port
//! synchronized with downstream applications. It holds the decision
//! logic of the engine: the session and request state machines, the
//! parsers for the provider's semi-structured pages, the keep-or-replace
//! reconciliation rules, the downstream client registry, and the
//! adaptive scheduler. Network transport is left to the embedding
//! program, which feeds responses in as plain values.

pub mod cache;
pub mod client;
pub mod command;
pub mod config;
pub mod deluge;
pub mod errors;
pub mod html;
pub mod qbittorrent;
pub mod reconcile;
pub mod scheduler;
pub mod session;
pub mod text;
pub mod transmission;
pub mod windscribe;
