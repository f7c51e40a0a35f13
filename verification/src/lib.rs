//! Verified decision core of a GPU resource and command layer.
//!
//! The renderer's device negotiation, synchronization barriers, memory
//! allocation policy, resource descriptors and shader header dependency
//! tracking are all decisions over plain values. This crate states those
//! decisions as contracts and proves the implementations against them;
//! the surrounding program performs the actual driver and file-system
//! calls and feeds their results back in.

pub mod device;
pub mod memory;
pub mod negotiate;
pub mod paths;
pub mod resources;
pub mod shader;
pub mod sync;

use vstd::prelude::*;

verus! {

/// Rounds `value` up to the next multiple of `alignment`.
pub fn align_to(value: u32, alignment: u32) -> (r: u32)
    requires
        alignment > 0,
        value + alignment - 1 <= u32::MAX,
    ensures
        r % alignment == 0,
        value <= r < value + alignment,
{
    let rem = value % alignment;
    if rem == 0 {
        value
    } else {
        proof {
            let v = value as int;
            let a = alignment as int;
            vstd::arithmetic::div_mod::lemma_fundamental_div_mod(v, a);
            assert(v + (a - v % a) == a * (v / a + 1)) by (nonlinear_arith)
                requires
                    a > 0,
                    v == a * (v / a) + v % a,
            ;
            vstd::arithmetic::div_mod::lemma_mod_multiples_basic(v / a + 1, a);
        }
        value + (alignment - rem)
    }
}

} // verus!
