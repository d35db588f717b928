//! Focus management for stateful widgets.
//!
//! This module provides the [`Focusable`] trait, which allows widgets to track
//! whether they currently have input focus. An implementation is provided for
//! [`List`](crate::list::List).

use vstd::prelude::*;

verus! {

/// A widget that can receive and report input focus.
pub trait Focusable {
    /// Whether the widget has focus.
    spec fn has_focus(&self) -> bool;

    /// Sets the focus state and returns the modified widget.
    fn focus(self, focus: bool) -> (r: Self)
        ensures
            r.has_focus() == focus,
    ;

    /// Returns `true` if the widget currently has focus.
    fn is_focused(&self) -> (b: bool)
        ensures
            b == self.has_focus(),
    ;
}

} // verus!
