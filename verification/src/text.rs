//! Unicode text helpers shared by the editable components.

pub mod boundary;
pub mod edit;
pub mod segment;
pub mod utf;
