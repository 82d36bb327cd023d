//! Typed adapter for a browser analytics engine.
//!
//! The engine itself (session heartbeats, batching, network transport) is an
//! external collaborator; this crate is the marshaling layer in front of it.
//! It turns typed calls into wire-shaped command tuples appended to the
//! engine's shared command queue, and typed configuration into the wire
//! object the engine's initialization entry point consumes.

pub mod config;
pub mod countly;
pub mod gdpr;
pub mod wire;
pub use config::Config;
pub use countly::CallbackRef;
pub use countly::Command;
pub use countly::Countly;
pub use countly::DirectCall;
pub use countly::ElementRef;
pub use countly::UserDetails;
pub use gdpr::ConsentFeatures;
pub use wire::Number;
pub use wire::Value;
pub use wire::WireError;
pub use wire::WireValue;
