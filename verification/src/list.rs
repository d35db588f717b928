//! The list widget: a sequence of items among which one can be selected, and its scroll state.

use core::hash::{Hash, Hasher};
use ratatui_core::style::Style;
use ratatui_core::text::Line;
use vstd::prelude::*;
use vstd::std_specs::cmp::PartialEqSpec;
use vstd::std_specs::convert::IntoSpec;

use crate::focus::Focusable;
use crate::style_types::{default_style, styles_equal, symbols_equal, symbols_match};

mod state;

pub use self::state::{ListState, ListStateView};

verus! {

/// Defines the direction in which the list will be rendered.
///
/// If there are too few items to fill the screen, the list will stick to the starting edge.
#[derive(Debug, Clone, Copy, PartialEq, Eq, Structural, Hash)]
pub enum ListDirection {
    /// The first value is on the top, going to the bottom
    TopToBottom,
    /// The first value is on the bottom, going to the top.
    BottomToTop,
}

impl ListDirection {
    /// The variant's discriminant, the value that a derived `Hash` writes for it.
    fn discriminant(&self) -> (d: isize)
        ensures
            d == (if *self == ListDirection::TopToBottom { 0isize } else { 1isize }),
    {
        match self {
            ListDirection::TopToBottom => 0,
            ListDirection::BottomToTop => 1,
        }
    }
}

impl Default for ListDirection {
    /// Lists run from top to bottom unless told otherwise.
    fn default() -> (r: Self)
        ensures
            r == ListDirection::TopToBottom,
    {
        ListDirection::TopToBottom
    }
}

/// `i` is the index of the first item of `items` that equals `target`.
pub open spec fn is_first_match<Item: PartialEq>(items: Seq<Item>, target: Item, i: int) -> bool {
    &&& 0 <= i < items.len()
    &&& items[i].eq_spec(&target)
    &&& forall|j: int| 0 <= j < i ==> !items[j].eq_spec(&target)
}

/// No item of `items` equals `target`.
pub open spec fn has_no_match<Item: PartialEq>(items: Seq<Item>, target: Item) -> bool {
    forall|j: int| 0 <= j < items.len() ==> !items[j].eq_spec(&target)
}

/// The index at which a list of `items` marks `selected` as chosen: the first item equal to
/// it, and none where nothing was selected or no item equals it.
pub open spec fn selection_matches<Item: PartialEq>(
    items: Seq<Item>,
    selected: Option<Item>,
    index: Option<nat>,
) -> bool {
    match selected {
        None => index is None,
        Some(target) => match index {
            Some(i) => is_first_match(items, target, i as int),
            None => has_no_match(items, target),
        },
    }
}

/// The selection a list computes is determined by its items and the selected item: two indexes
/// that both match them are the same.
pub proof fn lemma_selection_is_unique<Item: PartialEq>(
    items: Seq<Item>,
    selected: Option<Item>,
    a: Option<nat>,
    b: Option<nat>,
)
    requires
        selection_matches(items, selected, a),
        selection_matches(items, selected, b),
    ensures
        a == b,
{
    if let Some(target) = selected {
        match (a, b) {
            (Some(i), Some(j)) => {
                if i < j {
                    assert(!items[i as int].eq_spec(&target));
                } else if j < i {
                    assert(!items[j as int].eq_spec(&target));
                }
            },
            (Some(i), None) => {
                assert(items[i as int].eq_spec(&target));
            },
            (None, Some(j)) => {
                assert(items[j as int].eq_spec(&target));
            },
            (None, None) => {},
        }
    }
}

/// When some item of the list equals the selected item, the list has a selection, and the
/// selected item is equal to it.
pub proof fn lemma_present_item_is_selected<Item: PartialEq>(
    items: Seq<Item>,
    target: Item,
    index: Option<nat>,
    k: int,
)
    requires
        selection_matches(items, Some(target), index),
        0 <= k < items.len(),
        items[k].eq_spec(&target),
    ensures
        index matches Some(i) && i <= k && items[i as int].eq_spec(&target),
{
}

/// The items of two lists are pairwise equal.
pub open spec fn items_match<Item: PartialEq>(a: Seq<Item>, b: Seq<Item>) -> bool {
    &&& a.len() == b.len()
    &&& forall|i: int| 0 <= i < a.len() ==> a[i].eq_spec(&b[i])
}

/// Two lists agree on every setting that is a plain value: the selected index, the styles,
/// the direction, the highlight repetition, the scroll padding and the focus.
pub open spec fn settings_match<'a, Item, OnSelect>(
    a: ListModel<'a, Item, OnSelect>,
    b: ListModel<'a, Item, OnSelect>,
) -> bool {
    &&& a.selected == b.selected
    &&& a.style == b.style
    &&& a.direction == b.direction
    &&& a.highlight_style == b.highlight_style
    &&& a.repeat_highlight_symbol == b.repeat_highlight_symbol
    &&& a.scroll_padding == b.scroll_padding
    &&& a.focus == b.focus
}

/// Two states of a list hold the same items, the same selection and the same callback: what
/// every setter and every change of focus keeps.
pub open spec fn keeps_contents<'a, Item, OnSelect>(
    a: ListModel<'a, Item, OnSelect>,
    b: ListModel<'a, Item, OnSelect>,
) -> bool {
    &&& a.items == b.items
    &&& a.selected == b.selected
    &&& a.on_select == b.on_select
}

/// Through any sequence of calls that each keep a list's contents (the setters and `focus`),
/// the last list holds the first one's items, selection and callback. So a list built by
/// [`List::new`] and then configured still selects the first item equal to the selected one.
pub proof fn lemma_setter_chain_keeps_contents<'a, Item: PartialEq, OnSelect>(
    states: Seq<ListModel<'a, Item, OnSelect>>,
    items: Seq<Item>,
    selected: Option<Item>,
)
    requires
        states.len() > 0,
        forall|i: int|
            0 <= i < states.len() - 1 ==> #[trigger] keeps_contents(states[i], states[i + 1]),
    ensures
        keeps_contents(states[0], states.last()),
        selection_matches(items, selected, states[0].selected) && states[0].items == items
            ==> selection_matches(items, selected, states.last().selected)
            && states.last().items == items,
    decreases states.len(),
{
    if states.len() > 1 {
        let prefix = states.drop_last();
        assert forall|i: int| 0 <= i < prefix.len() - 1 implies #[trigger] keeps_contents(
            prefix[i],
            prefix[i + 1],
        ) by {
            assert(keeps_contents(states[i], states[i + 1]));
        }
        lemma_setter_chain_keeps_contents(prefix, items, selected);
        let k = states.len() - 2;
        assert(keeps_contents(states[k], states[k + 1]));
    }
}

/// The mathematical model of a [`List`]: each of its settings as a plain value.
pub struct ListModel<'a, Item, OnSelect> {
    pub items: Seq<Item>,
    pub selected: Option<nat>,
    pub style: Style,
    pub direction: ListDirection,
    pub highlight_style: Style,
    pub highlight_symbol: Option<Line<'a>>,
    pub repeat_highlight_symbol: bool,
    pub scroll_padding: nat,
    pub on_select: OnSelect,
    pub focus: bool,
}

/// A widget to display several items among which one can be selected (optional)
///
/// The index of the selected item is computed once, when the list is built, by searching the
/// items for one equal to the item given as selected. `on_select` is the callback invoked when
/// an item is selected.
///
/// # Fluent setters
///
/// - [`List::highlight_style`] sets the style of the selected item.
/// - [`List::highlight_symbol`] sets the symbol to be displayed in front of the selected item.
/// - [`List::repeat_highlight_symbol`] sets whether to repeat the symbol and style over selected
///   multi-line items
/// - [`List::direction`] sets the list direction
#[derive(Debug)]
pub struct List<'a, Item, OnSelect> {
    /// The items in the list
    pub(crate) items: Vec<Item>,
    /// Precomputed index of the selected item
    pub(crate) selected: Option<usize>,
    /// Style used as a base style for the widget
    pub(crate) style: Style,
    /// List display direction
    pub(crate) direction: ListDirection,
    /// Style used to render selected item
    pub(crate) highlight_style: Style,
    /// Symbol in front of the selected item (Shift all items to the right)
    pub(crate) highlight_symbol: Option<Line<'a>>,
    /// Whether to repeat the highlight symbol for each line of the selected item
    pub(crate) repeat_highlight_symbol: bool,
    /// How many items to try to keep visible before and after the selected item
    pub(crate) scroll_padding: usize,
    /// Callback invoked when an item is selected
    pub(crate) on_select: OnSelect,
    /// Whether this widget currently has focus
    pub(crate) focus: bool,
}

impl<'a, Item, OnSelect> View for List<'a, Item, OnSelect> {
    type V = ListModel<'a, Item, OnSelect>;

    closed spec fn view(&self) -> ListModel<'a, Item, OnSelect> {
        ListModel {
            items: self.items@,
            selected: match self.selected {
                Some(i) => Some(i as nat),
                None => None,
            },
            style: self.style,
            direction: self.direction,
            highlight_style: self.highlight_style,
            highlight_symbol: self.highlight_symbol,
            repeat_highlight_symbol: self.repeat_highlight_symbol,
            scroll_padding: self.scroll_padding as nat,
            on_select: self.on_select,
            focus: self.focus,
        }
    }
}

impl<'a, Item, OnSelect> List<'a, Item, OnSelect> {
    /// The selected index, when there is one, designates an item of the list.
    #[verifier::type_invariant]
    spec fn selection_in_range(self) -> bool {
        self.selected matches Some(i) ==> i < self.items.len()
    }
}

impl<'a, Item: Clone, OnSelect: Clone> Clone for List<'a, Item, OnSelect> {
    /// Clones each item and the callback, and copies every other setting.
    fn clone(&self) -> (r: Self)
        ensures
            r@.items.len() == self@.items.len(),
            forall|i: int|
                #![trigger r@.items[i]]
                0 <= i < self@.items.len() ==> cloned(self@.items[i], r@.items[i]),
            cloned(self@.on_select, r@.on_select),
            r@.selected == self@.selected,
            r@.style == self@.style,
            r@.direction == self@.direction,
            r@.highlight_style == self@.highlight_style,
            r@.highlight_symbol is Some <==> self@.highlight_symbol is Some,
            self@.highlight_symbol matches Some(h) ==> (r@.highlight_symbol matches Some(h2)
                && cloned(h, h2)),
            r@.repeat_highlight_symbol == self@.repeat_highlight_symbol,
            r@.scroll_padding == self@.scroll_padding,
            r@.focus == self@.focus,
    {
        proof {
            use_type_invariant(self);
        }
        List {
            items: self.items.clone(),
            selected: self.selected,
            style: self.style.clone(),
            direction: self.direction,
            highlight_style: self.highlight_style.clone(),
            highlight_symbol: self.highlight_symbol.clone(),
            repeat_highlight_symbol: self.repeat_highlight_symbol,
            scroll_padding: self.scroll_padding,
            on_select: self.on_select.clone(),
            focus: self.focus,
        }
    }
}

impl<'a, Item: PartialEq, OnSelect> List<'a, Item, OnSelect> {
    /// Creates a new list.
    ///
    /// The `selected` parameter is an optional reference to the currently selected item.
    /// Its index is computed by searching `items` for an equal element: the first such item is
    /// selected, and none when no item is equal to it.
    ///
    /// The `on_select` callback is invoked when an item is selected.
    pub fn new(items: Vec<Item>, selected: Option<&Item>, on_select: OnSelect) -> (r: Self)
        ensures
            r@.items == items@,
            Item::obeys_eq_spec() ==> selection_matches(
                items@,
                match selected {
                    Some(s) => Some(*s),
                    None => None,
                },
                r@.selected,
            ),
            selected is None ==> r@.selected is None,
            r@.selected matches Some(i) ==> i < items@.len(),
            r@.style == default_style(),
            r@.highlight_style == default_style(),
            r@.direction == ListDirection::TopToBottom,
            r@.highlight_symbol is None,
            !r@.repeat_highlight_symbol,
            r@.scroll_padding == 0,
            r@.on_select == on_select,
            !r@.focus,
    {
        let selected_index = match selected {
            None => None,
            Some(s) => {
                let mut i: usize = 0;
                let mut found: Option<usize> = None;
                while i < items.len()
                    invariant_except_break
                        found is None,
                    invariant
                        i <= items@.len(),
                        forall|j: int|
                            Item::obeys_eq_spec() && 0 <= j < i ==> !items@[j].eq_spec(s),
                    ensures
                        found matches Some(k) ==> k < items@.len() && (Item::obeys_eq_spec()
                            ==> is_first_match(items@, *s, k as int)),
                        found is None ==> (Item::obeys_eq_spec() ==> has_no_match(items@, *s)),
                    decreases items@.len() - i,
                {
                    if items[i] == *s {
                        found = Some(i);
                        break;
                    }
                    i += 1;
                }
                found
            },
        };
        List {
            items,
            selected: selected_index,
            style: Style::default(),
            direction: ListDirection::default(),
            highlight_style: Style::default(),
            highlight_symbol: None,
            repeat_highlight_symbol: false,
            scroll_padding: 0,
            on_select,
            focus: false,
        }
    }
}

impl<'a, Item: PartialEq, OnSelect> List<'a, Item, OnSelect> {
    /// Compares two lists: their items, selection, styles, direction, highlight symbol and
    /// settings, and their focus. The callbacks are not compared.
    pub fn eq(&self, other: &Self) -> (r: bool)
        ensures
            Item::obeys_eq_spec() ==> r == (items_match(self@.items, other@.items)
                && settings_match(self@, other@) && symbols_match(
                self@.highlight_symbol,
                other@.highlight_symbol,
            )),
            r ==> settings_match(self@, other@),
            r ==> symbols_match(self@.highlight_symbol, other@.highlight_symbol),
            r ==> (self@.highlight_symbol is Some <==> other@.highlight_symbol is Some),
            r && Item::obeys_eq_spec() ==> items_match(self@.items, other@.items),
            Item::obeys_eq_spec() && items_match(self@.items, other@.items) && settings_match(
                self@,
                other@,
            ) && self@.highlight_symbol == other@.highlight_symbol ==> r,
    {
        self.items == other.items && self.selected == other.selected && styles_equal(
            &self.style,
            &other.style,
        ) && self.direction == other.direction && styles_equal(
            &self.highlight_style,
            &other.highlight_style,
        ) && symbols_equal(&self.highlight_symbol, &other.highlight_symbol)
            && self.repeat_highlight_symbol == other.repeat_highlight_symbol
            && self.scroll_padding == other.scroll_padding && self.focus == other.focus
    }
}

impl<'a, Item, OnSelect> List<'a, Item, OnSelect> {
    /// Returns the list items as a slice.
    pub fn items(&self) -> (r: &[Item])
        ensures
            r@ == self@.items,
    {
        self.items.as_slice()
    }

    /// Returns the current [`ListDirection`].
    pub fn direction_ref(&self) -> (r: ListDirection)
        ensures
            r == self@.direction,
    {
        self.direction
    }

    /// Returns the precomputed index of the selected item, if any. It is always the index of
    /// an item of the list.
    pub fn selected(&self) -> (r: Option<usize>)
        ensures
            r matches Some(i) ==> self@.selected == Some(i as nat) && i < self@.items.len(),
            r is None ==> self@.selected is None,
    {
        proof {
            use_type_invariant(self);
        }
        self.selected
    }

    /// Returns the current `on_select` callback.
    pub fn on_select_fn(&self) -> (r: OnSelect)
        where
            OnSelect: Copy,
        ensures
            r == self@.on_select,
    {
        self.on_select
    }

    /// Sets the base style of the widget
    ///
    /// `style` accepts any type that is convertible to [`Style`] (e.g. [`Style`], a color, or
    /// your own type that implements [`Into<Style>`]).
    ///
    /// This is a fluent setter method which must be chained or used as it consumes self
    #[must_use]
    pub fn style<S: Into<Style>>(self, style: S) -> (r: Self)
        ensures
            S::obeys_into_spec() ==> r@.style == style.into_spec(),
            r@ == (ListModel { style: r@.style, ..self@ }),
            keeps_contents(self@, r@),
    {
        let mut list = self;
        proof {
            use_type_invariant(&list);
        }
        list.style = style.into();
        list
    }

    /// Set the symbol to be displayed in front of the selected item
    ///
    /// By default there are no highlight symbol.
    ///
    /// This is a fluent setter method which must be chained or used as it consumes self
    #[must_use]
    pub fn highlight_symbol<L: Into<Line<'a>>>(self, highlight_symbol: L) -> (r: Self)
        ensures
            r@.highlight_symbol is Some,
            L::obeys_into_spec() ==> r@.highlight_symbol == Some(highlight_symbol.into_spec()),
            r@ == (ListModel { highlight_symbol: r@.highlight_symbol, ..self@ }),
            keeps_contents(self@, r@),
    {
        let mut list = self;
        proof {
            use_type_invariant(&list);
        }
        list.highlight_symbol = Some(highlight_symbol.into());
        list
    }

    /// Set the style of the selected item
    ///
    /// `style` accepts any type that is convertible to [`Style`] (e.g. [`Style`], a color, or
    /// your own type that implements [`Into<Style>`]).
    ///
    /// This style will be applied to the entire item, including the highlight symbol if it is
    /// displayed, and will override any style set on the item or on the individual cells.
    ///
    /// This is a fluent setter method which must be chained or used as it consumes self
    #[must_use]
    pub fn highlight_style<S: Into<Style>>(self, style: S) -> (r: Self)
        ensures
            S::obeys_into_spec() ==> r@.highlight_style == style.into_spec(),
            r@ == (ListModel { highlight_style: r@.highlight_style, ..self@ }),
            keeps_contents(self@, r@),
    {
        let mut list = self;
        proof {
            use_type_invariant(&list);
        }
        list.highlight_style = style.into();
        list
    }

    /// Set whether to repeat the highlight symbol and style over selected multi-line items
    ///
    /// This is `false` by default.
    ///
    /// This is a fluent setter method which must be chained or used as it consumes self
    #[must_use]
    pub fn repeat_highlight_symbol(self, repeat: bool) -> (r: Self)
        ensures
            r@ == (ListModel { repeat_highlight_symbol: repeat, ..self@ }),
            keeps_contents(self@, r@),
    {
        let mut list = self;
        proof {
            use_type_invariant(&list);
        }
        list.repeat_highlight_symbol = repeat;
        list
    }

    /// Defines the list direction (up or down)
    ///
    /// Defines if the `List` is displayed *top to bottom* (default) or *bottom to top*.
    /// If there is too few items to fill the screen, the list will stick to the starting edge.
    ///
    /// This is a fluent setter method which must be chained or used as it consumes self
    #[must_use]
    pub fn direction(self, direction: ListDirection) -> (r: Self)
        ensures
            r@ == (ListModel { direction, ..self@ }),
            keeps_contents(self@, r@),
    {
        let mut list = self;
        proof {
            use_type_invariant(&list);
        }
        list.direction = direction;
        list
    }

    /// Sets the number of items around the currently selected item that should be kept visible
    ///
    /// This is a fluent setter method which must be chained or used as it consumes self
    #[must_use]
    pub fn scroll_padding(self, padding: usize) -> (r: Self)
        ensures
            r@ == (ListModel { scroll_padding: padding as nat, ..self@ }),
            keeps_contents(self@, r@),
    {
        let mut list = self;
        proof {
            use_type_invariant(&list);
        }
        list.scroll_padding = padding;
        list
    }

    /// Returns the number of items in the list
    pub fn len(&self) -> (n: usize)
        ensures
            n == self@.items.len(),
    {
        self.items.len()
    }

    /// Returns true if the list contains no elements.
    pub fn is_empty(&self) -> (b: bool)
        ensures
            b <==> self@.items.len() == 0,
    {
        self.items.len() == 0
    }
}

impl<'a, Item: Hash, OnSelect> Hash for List<'a, Item, OnSelect> {
    /// Feeds every field but the callback and the focus to the hasher.
    fn hash<H: Hasher>(&self, state: &mut H) {
        self.items.as_slice().hash(state);
        self.selected.hash(state);
        self.style.hash(state);
        self.direction.discriminant().hash(state);
        self.highlight_style.hash(state);
        self.highlight_symbol.hash(state);
        self.repeat_highlight_symbol.hash(state);
        self.scroll_padding.hash(state);
    }
}

impl<'a, Item, OnSelect> Focusable for List<'a, Item, OnSelect> {
    open spec fn has_focus(&self) -> bool {
        self@.focus
    }

    fn focus(self, focus: bool) -> (r: Self)
        ensures
            r@ == (ListModel { focus, ..self@ }),
            keeps_contents(self@, r@),
    {
        let mut list = self;
        proof {
            use_type_invariant(&list);
        }
        list.focus = focus;
        list
    }

    fn is_focused(&self) -> (b: bool) {
        self.focus
    }
}

} // verus!
