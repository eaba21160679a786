//! OAuth2 authorization-code handshake with a storefront platform, and the
//! session gate that guards every other route.
//!
//! The library decides; it sends and receives nothing. Every function takes
//! plain values and gives plain values back, and says in its contract what
//! they are:
//!
//! - `config`: the settings, resolved from a snapshot of the environment;
//! - `services::shopify`: the authorize address, the request to the token
//!   endpoint, and the reading of its answer;
//! - `handlers`: what each endpoint answers, with the callback as a state
//!   machine;
//! - `session`: the session cookie, and the session gate that looks for it;
//! - `proxy`: the address and the failure answer of the asset proxy;
//! - `response`: the answer type that the handlers share;
//! - `text`: predicates on strings;
//! - `json`, `cookie`: what is trusted of the JSON parser and of the cookie
//!   formatter.

pub mod config;
pub mod cookie;
pub mod handlers;
pub mod json;
pub mod proxy;
pub mod response;
pub mod services;
pub mod session;
pub mod text;
