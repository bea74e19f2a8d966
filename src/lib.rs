//! Per-language line statistics of a repository, and the request handling
//! that fetches, classifies and reports them.

pub mod handler;
pub mod params;
pub mod stats;
