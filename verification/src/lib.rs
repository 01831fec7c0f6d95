//! A verified model of a single shared optional price value and of the
//! HTTP operations that read, set and clear it.

pub mod decimal;
pub mod handlers;
pub mod laws;
pub mod store;
