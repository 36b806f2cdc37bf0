//! Shared helpers.

pub mod error;
