//! Planning, retrying and tallying of per-address airdrop queries.
//!
//! A run asks an upstream service, once per address, for the amount that the
//! address was awarded, retries failed queries a fixed number of times, may
//! route each address through one of a rotating list of proxies, and reports
//! one line per address and a total over the addresses that succeeded.
//!
//! The modules hold the decisions of such a run; sending requests, sleeping
//! and printing are left to the caller.

pub mod client;
pub mod fanout;
pub mod lines;
pub mod report;
pub mod request;
pub mod retry;
pub mod run;
pub mod tally;
pub mod text;

pub use crate::lines::read_lines;
