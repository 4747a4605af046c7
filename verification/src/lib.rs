//! Backend-adapter layer for a personal media-server dashboard.
//!
//! The crate normalizes heterogeneous status responses from several
//! third-party services into one uniform `ServiceStatus` shape, implements
//! the Transmission session-token handshake and a bounded text scan over
//! Torznab indexer feeds, and provides the credential masking / merge
//! protocol used at the configuration boundary.  All network and database
//! traffic is left to the host; this crate holds the decision logic.

pub mod adapters;
pub mod aggregator;
pub mod audit;
pub mod config;
pub mod endpoints;
pub mod jsontext;
pub mod numfmt;
pub mod plex;
pub mod status;
pub mod text_scan;
pub mod torznab;
pub mod transmission;
