//! Record query engine for message-broker topics: criteria evaluated against
//! records, a record finder that turns per-topic scans into one bounded
//! stream of results, and the configuration tree that parameterizes a session.

pub mod domain;
pub mod iter;
pub mod properties;
