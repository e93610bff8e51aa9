//! What the operations are for: laws over what their contracts promise of their arguments and
//! results.
//!
//! Each law takes the arguments and the result of one or more calls, and says what holds between
//! them.
pub mod agent;
pub mod bulk;
pub mod control;
pub mod engine;
pub mod settings;
pub mod sync;
pub mod text;
pub mod trust;
