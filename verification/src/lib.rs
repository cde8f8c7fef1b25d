//! Verified core logic of the Vektra component library.

pub mod button;
pub mod checkbox;
pub mod control;
pub mod data_source;
pub mod icon;
pub mod icon_button;
pub mod input;
pub mod radio;
pub mod scrollbar;
pub mod select;
pub mod size;
pub mod switch;
pub mod tooltip;
pub mod traits;
pub mod virtual_list;
pub mod text;
