//! The single-value select: options and groups, its in-memory data source, the popup's
//! interaction state, and the trigger's key handling.

pub mod types;
pub mod source;
pub mod state;
pub mod trigger;
pub mod view;
