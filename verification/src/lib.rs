//! Market-data reconciliation engine for a tabular watchlist application.
//!
//! The crate models the state that a periodically refreshed market view
//! needs: per-symbol watch items, an order book for one tracked pair,
//! a resizable, scroll-synchronized column layout, and the aggregation
//! policy that turns a batch of per-symbol fetch outcomes into a state
//! update. Network transport and rendering live outside this crate and
//! exchange plain values with it.

pub mod aggregate;
pub mod book;
mod clock;
pub mod decimal;
pub mod fetch;
pub mod krader;
pub mod sched;
pub mod table;
pub mod watch;

pub use decimal::Decimal;
pub use fetch::FetchError;
pub use krader::Krader;
