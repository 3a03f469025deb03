//! A multi-file pager: scrollable, incrementally filled text buffers, the
//! list that owns them, and the keyboard-driven state around them.

pub mod cursor;
pub mod input;
pub mod io;
pub mod resource;
pub mod text;
pub mod utils;

use vstd::prelude::*;

verus! {

/// `value + other`, stopping at the largest `usize`.
pub open spec fn saturating_add(value: usize, other: usize) -> usize {
    if value + other > usize::MAX {
        usize::MAX
    } else {
        (value + other) as usize
    }
}

/// `value - other`, stopping at zero.
pub open spec fn saturating_sub(value: usize, other: usize) -> usize {
    if value < other {
        0
    } else {
        (value - other) as usize
    }
}

/// What [`bounded_add`] returns.
pub open spec fn spec_bounded_add(value: usize, other: usize, bound: usize) -> usize {
    if value < bound {
        saturating_add(value, other)
    } else {
        value
    }
}

/// Advances `value` by `other` while it is still below `bound`, and leaves
/// it alone once the bound is reached.
pub fn bounded_add(value: usize, other: usize, bound: usize) -> (res: usize)
    ensures
        res == spec_bounded_add(value, other, bound),
{
    if value < bound {
        return value.saturating_add(other);
    }
    value
}

} // verus!
