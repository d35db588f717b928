//! Scroll state, list direction, item selection and focus handling for list and table widgets.

pub mod focus;
mod hashing;
pub mod list;
pub mod style_types;
pub mod table;
