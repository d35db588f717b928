//! The `Hash` implementations of std and `ratatui_core` that a list's hash feeds its fields to.
//!
//! Each writes its value into the hasher; what the hasher's state becomes is not modelled, so
//! these declarations state nothing of it. They let verified code make the calls.

use core::hash::{Hash, Hasher};
use ratatui_core::style::Style;
use vstd::prelude::*;

verus! {

/// `<[V] as Hash>::hash` writes the length, then each element.
pub assume_specification<V: Hash, H: Hasher>[ <[V] as Hash>::hash::<H> ](
    data: &[V],
    state: &mut H,
);

/// `<Option<V> as Hash>::hash`, derived in core, writes the variant, then the value if any.
pub assume_specification<V: Hash, H: Hasher>[ <Option<V> as Hash>::hash::<H> ](
    data: &Option<V>,
    state: &mut H,
);

/// `<Style as Hash>::hash`, derived by `ratatui_core`, writes each color and modifier.
pub assume_specification<H: Hasher>[ <Style as Hash>::hash::<H> ](data: &Style, state: &mut H);

/// `<bool as Hash>::hash` writes the boolean as a byte.
pub assume_specification<H: Hasher>[ <bool as Hash>::hash::<H> ](data: &bool, state: &mut H);

/// `<isize as Hash>::hash` writes the integer.
pub assume_specification<H: Hasher>[ <isize as Hash>::hash::<H> ](data: &isize, state: &mut H);

/// `<usize as Hash>::hash` writes the integer.
pub assume_specification<H: Hasher>[ <usize as Hash>::hash::<H> ](data: &usize, state: &mut H);

} // verus!
