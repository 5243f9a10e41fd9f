//! Politeness gate for outbound requests: a per-host cache of parsed
//! `robots.txt` rules with a single-flight fetch protocol, the pluggable
//! policy that turns matched rules into a decision, and the per-request
//! coordinator that drives checking, fetching, waiting and dispatching.

pub mod address;
pub mod builder;
pub mod cache;
pub mod coordinator;
pub mod error;
pub mod flow;
pub mod laws;
pub mod policy;
pub mod rules;
