//! Selection state of the list and table widgets that the interface shows.
//!
//! The interface only ever reads which row (and, for the headers table, which
//! column) is selected, so these types hold exactly that. Moving a selection
//! follows the rules of ratatui's `TableState` and `ListState`, which draw
//! them.

use vstd::prelude::*;

verus! {

/// Selection of a table: an optional row and an optional column.
#[derive(Debug, Clone, Copy, PartialEq, Eq, Default)]
pub struct TableState {
    pub selected: Option<usize>,
    pub selected_column: Option<usize>,
}

/// The row that `select_next` moves a table or list selection to.
pub open spec fn next_index(sel: Option<usize>) -> usize {
    match sel {
        Some(i) => if i == usize::MAX { usize::MAX } else { (i + 1) as usize },
        None => 0,
    }
}

/// The row that `select_previous` moves a table selection to.
pub open spec fn previous_index(sel: Option<usize>) -> usize {
    match sel {
        Some(i) => if i == 0 { 0 } else { (i - 1) as usize },
        None => usize::MAX,
    }
}

impl TableState {
    /// A table with nothing selected.
    pub fn new() -> (s: TableState)
        ensures
            s.selected is None,
            s.selected_column is None,
    {
        TableState { selected: None, selected_column: None }
    }

    /// The selected row.
    pub fn selected(&self) -> (r: Option<usize>)
        ensures
            r == self.selected,
    {
        self.selected
    }

    /// The selected column.
    pub fn selected_column(&self) -> (r: Option<usize>)
        ensures
            r == self.selected_column,
    {
        self.selected_column
    }

    /// Selects a row (or none); the column is kept.
    pub fn select(&mut self, index: Option<usize>)
        ensures
            final(self).selected == index,
            final(self).selected_column == old(self).selected_column,
    {
        self.selected = index;
    }

    /// Selects a column (or none); the row is kept.
    pub fn select_column(&mut self, index: Option<usize>)
        ensures
            final(self).selected == old(self).selected,
            final(self).selected_column == index,
    {
        self.selected_column = index;
    }

    /// Moves the row selection one down (the first row when none is selected).
    pub fn select_next(&mut self)
        ensures
            final(self).selected == Some(next_index(old(self).selected)),
            final(self).selected_column == old(self).selected_column,
    {
        let next = match self.selected {
            Some(i) => i.saturating_add(1),
            None => 0,
        };
        self.select(Some(next));
    }

    /// Moves the row selection one up (the last possible row when none is
    /// selected).
    pub fn select_previous(&mut self)
        ensures
            final(self).selected == Some(previous_index(old(self).selected)),
            final(self).selected_column == old(self).selected_column,
    {
        let previous = match self.selected {
            Some(i) => i.saturating_sub(1),
            None => usize::MAX,
        };
        self.select(Some(previous));
    }

    /// Moves the column selection one right (the first column when none is
    /// selected).
    pub fn select_next_column(&mut self)
        ensures
            final(self).selected == old(self).selected,
            final(self).selected_column == Some(next_index(old(self).selected_column)),
    {
        let next = match self.selected_column {
            Some(i) => i.saturating_add(1),
            None => 0,
        };
        self.select_column(Some(next));
    }
}

/// Selection of a list: an optional item.
#[derive(Debug, Clone, Copy, PartialEq, Eq, Default)]
pub struct ListState {
    pub selected: Option<usize>,
}

impl ListState {
    /// A list with nothing selected.
    pub fn new() -> (s: ListState)
        ensures
            s.selected is None,
    {
        ListState { selected: None }
    }

    /// The selected item.
    pub fn selected(&self) -> (r: Option<usize>)
        ensures
            r == self.selected,
    {
        self.selected
    }

    /// Selects an item (or none).
    pub fn select(&mut self, index: Option<usize>)
        ensures
            final(self).selected == index,
    {
        self.selected = index;
    }
}

} // verus!
