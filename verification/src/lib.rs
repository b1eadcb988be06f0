//! A sans-I/O client core for a container engine's remote API: it builds the
//! requests that create, start and attach to a sandboxed container, and it
//! decodes the multiplexed stream that an attach session answers with.

pub mod api;
pub mod container;
pub mod decimal;
pub mod engine;
pub mod error;
pub mod json;
pub mod reply;
pub mod request;
pub mod response;
pub mod run;
pub mod stream;
pub mod text;
pub mod wire;
