//! The scroll state of the table widget.

mod state;

pub use self::state::{TableState, TableStateView};
