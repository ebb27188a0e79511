//! The message router's domain types: messages, agents, locations and routes.

pub mod domain_types;
