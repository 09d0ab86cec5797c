//! Rules of the answer history: the favourite mark and the size of a
//! listing.

use vstd::prelude::*;

verus! {

/// The most records that one listing returns.
pub const MAX_LISTED: u32 = 200;

/// The stored value of the favourite mark when it is set.
pub const MARKED: i64 = 1;

/// The stored value of the favourite mark when it is not set.
pub const UNMARKED: i64 = 0;

/// Whether a stored value of the favourite mark says that it is set.
pub fn is_favourite(stored: i64) -> (marked: bool)
    ensures
        marked == (stored == MARKED),
{
    stored == MARKED
}

/// The stored value of the favourite mark after a toggle: set where it
/// was not, not set in every other case.
pub fn toggled_favourite(stored: i64) -> (toggled: i64)
    ensures
        toggled == (if stored == UNMARKED {
            MARKED
        } else {
            UNMARKED
        }),
{
    if stored == UNMARKED {
        MARKED
    } else {
        UNMARKED
    }
}

} // verus!
