//! What each endpoint decides, from plain values to plain values.

pub mod auth;
pub mod dashboard;
