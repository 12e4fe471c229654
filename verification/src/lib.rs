//! Delivery resolver for the Opiumware loopback protocol.
//!
//! The library locates a reachable listener among a fixed set of candidate
//! loopback ports, decides what bytes (if any) to transmit, and folds the
//! per-port attempt outcomes into a single status report.  The caller performs
//! the actual TCP connections and hands the raw outcomes back; everything the
//! protocol decides — the attempt plan, the payload framing, the aggregation
//! and the report text — is verified here.

pub mod compress;
pub mod laws;
pub mod ports;
pub mod resolver;
pub mod text;
