//! What the price-quoting gateway computes around its requests: the cache's
//! expiry, the requests it sends upstream and their signatures, and what it
//! makes of the answers.

pub mod cache;
pub mod config;
pub mod quotes;
pub mod requests;
pub mod signing;
