//! The single-line text input: display masking, accessibility runs, editing state and key
//! handling decisions.

pub mod a11y;
pub mod caret;
pub mod clear;
pub mod display;
pub mod editor;
pub mod keys;
pub mod style;
