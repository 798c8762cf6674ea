//! The dispense aggregate, its commands and events, and its read model.

pub mod aggregate;
pub mod commands;
pub mod cqrs;
pub mod events;
pub mod inputs;
pub mod laws;
pub mod view;
pub mod view_laws;

pub use aggregate::{Dispense, DispenseStatus, DrugItem, Services, AGGREGATE_TYPE};
pub use commands::Command;
pub use events::Event;
pub use view::View;
