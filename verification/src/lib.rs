//! Core of an operator console for a security-monitoring platform.
//!
//! The library holds the verified logic: a filter-predicate language for
//! in-memory entities, a structured search-query builder, the authenticated
//! gateway's retry state machine, the domain-operation computations, and the
//! single-writer state reducer. Network and terminal I/O live outside.

pub mod domain;
pub mod endpoints;
pub mod events;
pub mod filter;
pub mod gateway;
pub mod json;
pub mod models;
pub mod query;
pub mod state;
pub mod text;
