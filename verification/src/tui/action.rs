//! What a key press asks the terminal interface to do.
use vstd::prelude::*;

verus! {

/// An action of the terminal interface.
#[derive(Debug, Clone, Copy, PartialEq, Eq, Structural)]
pub enum Action {
    JournalNextPage,
    JournalPreviousPage,
    Quit,
    Refresh,
    ScrollDown,
    ScrollEnd,
    ScrollPageDown,
    ScrollPageUp,
    ScrollStart,
    ScrollUp,
    SelectNextStatement,
    SelectPreviousStatement,
    ShowEntries,
    ShowTotals,
}

} // verus!
