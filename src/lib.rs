//! Connection diagnostics for HTTP(S) requests: URL normalization,
//! reachability and protocol probing, and a multi-strategy request executor
//! that records a human-readable trace of every step.

pub mod text;
pub mod url;
pub mod method;
pub mod trace;
pub mod probe;
pub mod sniff;
pub mod strategy;
pub mod attempt;
pub mod diagnosis;
pub mod history;
pub mod headers;
