//! Positions counted from either end of a sequence.

use vstd::prelude::*;

verus! {

/// The position that `index` names in a sequence of `len` items: itself
/// where it is not negative, else counted back from the end.
pub open spec fn wrapped(len: nat, index: int) -> int {
    if index >= 0 {
        index
    } else {
        index + len
    }
}

/// The position that `index` names in a sequence of `len` items. An index
/// from zero up is the position itself, whether or not the sequence reaches
/// that far; a negative one counts back from the end, `-1` being the last
/// item.
pub fn wrapped_index(len: usize, index: i128) -> (position: usize)
    requires
        0 <= wrapped(len as nat, index as int) <= usize::MAX,
    ensures
        position == wrapped(len as nat, index as int),
{
    if index >= 0 {
        index as usize
    } else {
        (index + len as i128) as usize
    }
}

/// As `wrapped_index`, for any index: `None` where the index names no
/// position that a `usize` can hold.
pub fn checked_wrapped_index(len: usize, index: i128) -> (position: Option<usize>)
    ensures
        position == if 0 <= wrapped(len as nat, index as int) <= usize::MAX {
            Some(wrapped(len as nat, index as int) as usize)
        } else {
            None
        },
{
    let in_reach = if index >= 0 {
        index <= usize::MAX as i128
    } else {
        index + len as i128 >= 0
    };
    if in_reach {
        Some(wrapped_index(len, index))
    } else {
        None
    }
}

} // verus!
