use vstd::prelude::*;

verus! {

/// The mathematical model of a [`TableState`]: the index of the first displayed row and the
/// number of rows in the table.
pub struct TableStateView {
    pub offset: nat,
    pub length: nat,
}

/// State of a table widget
///
/// This state tracks the scroll offset and table length.
/// Row selection is managed by the table widget itself via the `selected`
/// parameter passed to its constructor.
#[derive(Debug, Clone, Copy, PartialEq, Eq, Structural, Hash)]
pub struct TableState {
    pub(crate) offset: usize,
    pub(crate) length: usize,
}

impl View for TableState {
    type V = TableStateView;

    closed spec fn view(&self) -> TableStateView {
        TableStateView { offset: self.offset as nat, length: self.length as nat }
    }
}

impl Default for TableState {
    /// An empty table scrolled to the top.
    fn default() -> (r: Self)
        ensures
            r@ == (TableStateView { offset: 0, length: 0 }),
    {
        TableState { offset: 0, length: 0 }
    }
}

impl TableState {
    /// Creates a new [`TableState`] for a table of `length` rows, scrolled to the top.
    pub fn new(length: usize) -> (r: Self)
        ensures
            r@ == (TableStateView { offset: 0, length: length as nat }),
    {
        TableState { offset: 0, length }
    }

    /// Sets the index of the first row to be displayed
    ///
    /// This is a fluent setter method which must be chained or used as it consumes self
    #[must_use]
    pub fn with_offset(self, offset: usize) -> (r: Self)
        ensures
            r@ == (TableStateView { offset: offset as nat, length: self@.length }),
    {
        let mut s = self;
        s.offset = offset;
        s
    }

    /// Returns the total number of rows in the table.
    pub fn len(&self) -> (n: usize)
        ensures
            n as nat == self@.length,
    {
        self.length
    }

    /// Returns `true` if the table has no rows.
    pub fn is_empty(&self) -> (b: bool)
        ensures
            b <==> self@.length == 0,
    {
        self.length == 0
    }

    /// Index of the first row to be displayed
    pub fn offset(&self) -> (o: usize)
        ensures
            o as nat == self@.offset,
    {
        self.offset
    }

    /// Mutable reference to the index of the first row to be displayed
    pub fn offset_mut(&mut self) -> (r: &mut usize)
        ensures
            *r as nat == old(self)@.offset,
            final(self)@ == (TableStateView { offset: *final(r) as nat, length: old(self)@.length }),
    {
        &mut self.offset
    }
}

} // verus!
