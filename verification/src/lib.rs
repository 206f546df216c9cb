//! Typed models and a rate-limit aware request pipeline for the Neos API.
//!
//! The crate is a pure core. It decides when a request may be sent, how it is
//! decorated, and what a response means. Sleeping and the HTTP transport are
//! left to the caller, who feeds clock readings and responses back in.

pub mod api_client;
pub mod assets;
pub mod clock;
pub mod http;
pub mod id;
pub mod json;
pub mod model;
pub mod query;
pub mod text;
