//! Walking the chain of frame records for a stack trace.
use vstd::prelude::*;

verus! {

/// The addresses of the two words a frame record keeps right below the
/// frame pointer `fp`: the saved return address (one word below) and the
/// caller's frame pointer (two words below).
pub fn frame_record_slots(fp: usize) -> (slots: (usize, usize))
    requires
        fp >= 2 * vstd::layout::size_of::<usize>(),
    ensures
        slots.0 == fp - vstd::layout::size_of::<usize>(),
        slots.1 == fp - 2 * vstd::layout::size_of::<usize>(),
{
    broadcast use vstd::layout::layout_of_primitives;
    let word = core::mem::size_of::<usize>();
    (fp - word, fp - 2 * word)
}

} // verus!
