//! The style and text types of `ratatui_core` that the widgets carry.

use ratatui_core::style::Style;
use ratatui_core::text::Line;
use vstd::prelude::*;

verus! {

#[verifier::external_type_specification]
#[verifier::external_body]
pub struct ExStyle(Style);

#[verifier::external_type_specification]
#[verifier::external_body]
pub struct ExLine<'a>(Line<'a>);

/// The style that `<Style as Default>::default` returns. `Style` is opaque here, so its
/// fields are not modelled; the name only records that it is one fixed value.
pub closed spec fn default_style() -> Style {
    arbitrary()
}

/// `<Style as Default>::default` is derived by `ratatui_core`: it fills every field with its
/// own default and takes no input, so every call returns the same style, named
/// [`default_style`].
pub assume_specification[ <Style as Default>::default ]() -> (r: Style)
    ensures
        r == default_style(),
;

/// `Style` is `Copy`, and the `Clone` that `ratatui_core` derives for it returns the same
/// style.
pub assume_specification[ <Style as Clone>::clone ](s: &Style) -> (r: Style)
    ensures
        r == *s,
;

/// `<Line as Clone>::clone`, derived by `ratatui_core`, copies the style, the alignment and
/// each span. Of the copy nothing is stated: a span's owned text becomes a new string, which
/// the verifier does not equate with the old one.
pub assume_specification<'a>[ <Line<'a> as Clone>::clone ](l: &Line<'a>) -> Line<'a>;

/// The `PartialEq` that `ratatui_core` derives for `Style` compares its colors and modifiers,
/// all plain values compared field by field, so it holds exactly of two equal styles.
#[verifier::external_body]
pub(crate) fn styles_equal(a: &Style, b: &Style) -> (r: bool)
    ensures
        r == (*a == *b),
{
    a == b
}

/// Whether two optional lines compare equal under the `PartialEq` that `ratatui_core` derives
/// for `Line` (and core derives for `Option`): both absent, or both present with equal style,
/// alignment and spans, a span's text being compared by content.
pub uninterp spec fn symbols_match(a: Option<Line<'_>>, b: Option<Line<'_>>) -> bool;

/// The `PartialEq` that `ratatui_core` derives for `Line` compares style, alignment and spans;
/// a span's text is compared by content, whether it is borrowed or owned. Equal values are
/// therefore reported equal, and since `Option`'s `PartialEq` is derived, a symbol is never
/// equal to no symbol. The result is a function of the two values alone, named
/// [`symbols_match`].
#[verifier::external_body]
pub(crate) fn symbols_equal<'a>(a: &Option<Line<'a>>, b: &Option<Line<'a>>) -> (r: bool)
    ensures
        r == symbols_match(*a, *b),
        *a == *b ==> r,
        r ==> (a is Some <==> b is Some),
{
    a == b
}

} // verus!
