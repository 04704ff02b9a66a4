//! Records of the CoinMarketCap quotes API.
use vstd::prelude::*;

verus! {

/// The status block of an API response.
#[derive(Clone, Debug, PartialEq, Eq)]
pub struct Status {
    pub timestamp: String,
    pub error_code: i32,
    pub error_message: Option<String>,
    pub elapsed: i32,
    pub credit_count: i32,
    pub notice: Option<String>,
}

/// A tag attached to a listed currency.
#[derive(Clone, Debug, PartialEq, Eq)]
pub struct Tag {
    pub slug: String,
    pub name: String,
    pub category: String,
}

} // verus!
