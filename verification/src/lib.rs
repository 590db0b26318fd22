//! Core of a weather metrics exporter: a label-keyed gauge registry, the
//! configuration rules, the provider data model, and the poll-tick state
//! machine that feeds fetched readings into the registry.
//!
//! Gauge values are held as plain values — either the bit pattern of a
//! 64-bit IEEE-754 number or an exact whole number; the registry and the
//! tick logic never interpret them, they only route and store them, so the
//! whole core works without floating point.

pub mod config;
pub mod provider;
pub mod registry;
pub mod station;
