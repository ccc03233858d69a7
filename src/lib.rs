//! Account provisioning and per-account automation preferences.
//!
//! The library holds the trust policy for externally asserted identities, the
//! preferences model with its wire codec, the persisted row layout with its
//! partial-update rule, an in-memory account store, and the translation of
//! storage failures into service failures and transport status codes.

pub mod account;
pub mod codec;
pub mod environment;
pub mod error;
pub mod handlers;
pub mod identity;
pub mod ids;
pub mod repository;
pub mod row;
pub mod service;
pub mod store;
pub mod text;
pub mod user;
