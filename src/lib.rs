//! A bridge from a stream of status updates to a metrics scrape endpoint:
//! identity parsing, a label-keyed metric store, the scrape response, and the
//! reconnecting consumer's decisions.

pub mod config;
pub mod consumer;
pub mod exposition;
pub mod identity;
pub mod laws;
pub mod scrape;
pub mod store;
