//! Dealings with the storefront platform.

pub mod shopify;
