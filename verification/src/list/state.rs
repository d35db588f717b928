use vstd::prelude::*;

verus! {

/// The mathematical model of a [`ListState`]: the index of the first displayed item and the
/// number of items in the list.
pub struct ListStateView {
    pub offset: nat,
    pub length: nat,
}

/// State of the list widget
///
/// This state tracks the scroll offset and list length. Selection is managed by the
/// list widget itself via the `selected` parameter passed to its constructor.
///
/// The state consists of:
/// - `offset`: the index of the first item to be displayed
/// - `length`: the total number of items in the list, managed externally by the caller
#[derive(Debug, Clone, Copy, PartialEq, Eq, Structural, Hash)]
pub struct ListState {
    pub(crate) offset: usize,
    pub(crate) length: usize,
}

impl View for ListState {
    type V = ListStateView;

    closed spec fn view(&self) -> ListStateView {
        ListStateView { offset: self.offset as nat, length: self.length as nat }
    }
}

impl Default for ListState {
    /// An empty list scrolled to the top.
    fn default() -> (r: Self)
        ensures
            r@ == (ListStateView { offset: 0, length: 0 }),
    {
        ListState { offset: 0, length: 0 }
    }
}

impl ListState {
    /// Creates a new [`ListState`] with the given list length.
    ///
    /// The `length` is managed externally by the caller and is not updated by the widget
    /// during rendering.
    pub fn new(length: usize) -> (r: Self)
        ensures
            r@ == (ListStateView { offset: 0, length: length as nat }),
    {
        ListState { offset: 0, length }
    }

    /// Sets the index of the first item to be displayed
    ///
    /// This is a fluent setter method which must be chained or used as it consumes self
    #[must_use]
    pub fn with_offset(self, offset: usize) -> (r: Self)
        ensures
            r@ == (ListStateView { offset: offset as nat, length: self@.length }),
    {
        let mut s = self;
        s.offset = offset;
        s
    }

    /// Returns the total number of items in the list, as set by the caller.
    pub fn len(&self) -> (n: usize)
        ensures
            n as nat == self@.length,
    {
        self.length
    }

    /// Returns `true` if the list has no items.
    pub fn is_empty(&self) -> (b: bool)
        ensures
            b <==> self@.length == 0,
    {
        self.length == 0
    }

    /// Index of the first item to be displayed
    pub fn offset(&self) -> (o: usize)
        ensures
            o as nat == self@.offset,
    {
        self.offset
    }

    /// Mutable reference to the index of the first item to be displayed
    pub fn offset_mut(&mut self) -> (r: &mut usize)
        ensures
            *r as nat == old(self)@.offset,
            final(self)@ == (ListStateView { offset: *final(r) as nat, length: old(self)@.length }),
    {
        &mut self.offset
    }
}

} // verus!
