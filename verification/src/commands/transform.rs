//! The rules of the tool that turns stored channel texts into rows of points.

use vstd::prelude::*;

verus! {

/// The index under which the sample at `position` of a channel is stored, where the
/// store's 32-bit index can hold it.
pub fn point_index(position: usize) -> (index: Option<i32>)
    ensures
        match index {
            Some(index) => index == position,
            None => position > i32::MAX,
        },
{
    if position <= 0x7fff_ffff {
        Some(position as i32)
    } else {
        None
    }
}

} // verus!
