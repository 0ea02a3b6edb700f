//! A typed client for a price-oracle HTTP service: verified encoding of feed identifiers
//! and query strings, the requests of historical and latest price lookups, and the
//! classification of failed responses.
use vstd::prelude::*;

pub mod client;
pub mod encode;
pub mod error;
pub mod query;

pub use client::{ApiClient, Pyth};
pub use error::ApiError;
pub use query::{LatestParams, PriceParams};

verus! {

} // verus!
