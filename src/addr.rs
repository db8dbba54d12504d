use vstd::arithmetic::div_mod::{lemma_mod_add_multiples_vanish, lemma_small_mod};
use vstd::prelude::*;

verus! {

/// The linear memory index of `seg:off`: the segment base shifted left by
/// four bits plus the offset, reduced to the width of `usize`.
pub open spec fn phys_spec(seg: u16, off: u32) -> int {
    (seg as int * 16 + off as int) % (usize::MAX as int + 1)
}

/// Translates a segment base and an offset into a linear memory index.
/// No bounds check is made: the caller compares the index with the memory
/// length before using it.
pub fn phys(seg: u16, off: u32) -> (r: usize)
    ensures
        r as int == phys_spec(seg, off),
{
    let base: usize = seg as usize * 16;
    let r = base.wrapping_add(off as usize);
    proof {
        let m = usize::MAX as int + 1;
        let x = base as int + off as int;
        if x < m {
            lemma_small_mod(x as nat, m as nat);
        } else {
            lemma_small_mod((x - m) as nat, m as nat);
            lemma_mod_add_multiples_vanish(x - m, m);
        }
    }
    r
}

} // verus!
