//! Verified core of the Caxton multi-agent message router and agent runtime.
//!
//! The crate holds the decision logic of the router, the registries, the
//! conversation bookkeeping, the resource accounting and the security policy,
//! each function with a contract proved by Verus.

pub mod ids;
pub mod table;
pub mod time;
pub mod bounds;
pub mod text;
pub mod base;
pub mod errors;
pub mod message_router;
pub mod config;
pub mod conversation;
pub mod security;
pub mod resource_manager;
pub mod registry;
pub mod delivery;
pub mod router;
pub mod sandbox;
pub mod wasm_runtime;
pub mod performance;
pub mod runtime;
pub mod rest_api;
pub mod storage;
