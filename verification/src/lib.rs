//! Event-sourced dispensing workflow: the aggregate state machine, its read
//! model, and the decisions of the stream consumers around them.

pub mod analyzer;
pub mod api;
pub mod clock;
pub mod dispenses;
pub mod errors;
pub mod event;
pub mod execution;
pub mod ids;
pub mod keys;
pub mod metadata;
pub mod publisher;
pub mod stream;
pub mod text;

pub use errors::Error;
pub use event::DomainEvent;
