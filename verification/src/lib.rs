//! Decision core of the container dev agent.
pub mod backoff;
pub mod bootstrap;
pub mod dial;
pub mod engine;
pub mod fetch;
pub mod headers;
pub mod idle;
pub mod json;
pub mod laws;
pub mod proxy;
pub mod run;
pub mod serve;
pub mod session;
pub mod settings;
pub mod span;
pub mod state;
pub mod sync;
pub mod text;
pub mod tls;
pub mod wire;
