//! Core of a remote signing service for proposer commitments.
//!
//! Modules authenticate with a bearer token, list the consensus keys and
//! their own proxy keys, ask for signatures over 32-byte object roots, and
//! mint proxy keys that a consensus key delegates to. Keys live either in
//! this process (the local backend) or in a Dirk account manager.
//!
//! The library takes every decision and proves it against its contract; it
//! neither listens nor connects. For Dirk it works by conversations: each
//! step takes the reply to the last request and says what to ask next.
//!
//! - [`service`]: routing, admission, and the answer to each endpoint.
//! - [`registry`]: modules and their tokens.
//! - [`manager`]: the local backend, the Dirk backend, its conversations,
//!   and what holds of every step of them.
//! - [`signature`], [`crypto`]: signing domains, roots and signatures.
//! - [`config`], [`error`], [`types`], [`text`], [`encoding`], [`reload`]:
//!   what the others stand on.

pub mod config;
pub mod crypto;
pub mod encoding;
pub mod error;
pub mod manager;
pub mod registry;
pub mod reload;
pub mod service;
pub mod signature;
pub mod text;
pub mod types;
