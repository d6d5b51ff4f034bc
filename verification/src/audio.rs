//! Choice of the audio input device to record from next.
use vstd::prelude::*;

verus! {

/// Position, in a list of `count` recording devices, of the device that
/// follows the one at `current`: the next one, wrapping round to the first;
/// the first when no listed device is current; none when the list is empty.
pub open spec fn next_device_index_spec(current: Option<usize>, count: usize) -> Option<usize> {
    if count == 0 {
        None
    } else {
        match current {
            Some(i) if i + 1 < count => Some((i + 1) as usize),
            _ => Some(0usize),
        }
    }
}

/// The position of the device to switch to when asked for the next input
/// device.
pub fn next_device_index(current: Option<usize>, count: usize) -> (next: Option<usize>)
    ensures
        next == next_device_index_spec(current, count),
        next matches Some(i) ==> i < count,
{
    if count == 0 {
        return None;
    }
    match current {
        Some(i) => {
            if i < count - 1 {
                Some(i + 1)
            } else {
                Some(0)
            }
        },
        None => Some(0),
    }
}

} // verus!
