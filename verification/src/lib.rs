//! Verified core of an escrow that meters agent usage of paid services and
//! settles it against per-service prices.
pub mod table;
pub mod types;
pub mod error;
pub mod events;
pub mod env;
pub mod billing;
pub mod rate_limit;
pub mod model;
pub mod escrow;
pub mod helpers;
pub mod laws;
