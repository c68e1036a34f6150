//! Tenure registry: permission-gated management of yearly membership
//! periods, with at most one active tenure and unique years.

pub mod claims;
pub mod tenure;
pub mod error;
pub mod auth;
pub mod api;
pub mod laws;
