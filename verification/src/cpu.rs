//! The processor's own state.

use vstd::prelude::*;

verus! {

/// The exception level the processor runs at, from the value of its
/// CurrentEL register: the register shifted right by two.
pub fn get_el(current_el: u64) -> (el: u64)
    ensures
        el == current_el >> 2u64,
        el == current_el / 4,
{
    proof {
        assert(current_el >> 2u64 == current_el / 4) by (bit_vector);
    }
    current_el >> 2u64
}

} // verus!
