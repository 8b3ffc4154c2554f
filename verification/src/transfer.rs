//! Block transfers between the registers and memory.

use vstd::prelude::*;
use crate::machine::{bcd_digits, cell, loaded, offset_from, stored};

verus! {

/// The cell `k` bytes above address `i` lies `k` above `i`, and no other
/// cell does.
pub proof fn lemma_offset_of_cell(i: u16, k: int)
    requires
        0 <= k < 4096,
    ensures
        0 <= cell(i as int + k) < 4096,
        offset_from(cell(i as int + k), i) == k,
        forall|a: int| 0 <= a < 4096 && offset_from(a, i) == k ==> a == cell(i as int + k),
{
}

/// Stores `values[0..=last]` to memory from address `i` on; addresses wrap
/// around the end of memory.
pub fn store_block(memory: &mut [u8; 4096], i: u16, values: &[u8], last: usize)
    requires
        last < values@.len(),
        last < 4096,
    ensures
        final(memory)@ == stored(old(memory)@, i, values@, last as int),
{
    let ghost before = memory@;
    let mut k: usize = 0;
    while k <= last
        invariant
            k <= last + 1,
            last < values@.len(),
            last < 4096,
            before.len() == 4096,
            forall|a: int|
                0 <= a < 4096 ==> #[trigger] memory[a] == (if offset_from(a, i) < k {
                    values@[offset_from(a, i)]
                } else {
                    before[a]
                }),
        decreases last + 1 - k,
    {
        let target = (i as usize + k) % 4096;
        proof {
            lemma_offset_of_cell(i, k as int);
        }
        memory[target] = values[k];
        k += 1;
    }
    assert(memory@ =~= stored(before, i, values@, last as int));
}

/// Loads `V0..=V[last]` from memory at address `i` on; addresses wrap
/// around the end of memory.
pub fn load_block(v: &mut [u8; 16], memory: &[u8; 4096], i: u16, last: usize)
    requires
        last < 16,
    ensures
        final(v)@ == loaded(old(v)@, memory@, i, last as int),
{
    let ghost before = v@;
    let mut k: usize = 0;
    while k <= last
        invariant
            k <= last + 1,
            last < 16,
            before.len() == 16,
            forall|j: int|
                0 <= j < 16 ==> #[trigger] v[j] == (if j < k {
                    memory@[cell(i as int + j)]
                } else {
                    before[j]
                }),
        decreases last + 1 - k,
    {
        v[k] = memory[(i as usize + k) % 4096];
        k += 1;
    }
    assert(v@ =~= loaded(before, memory@, i, last as int));
}

/// The three decimal digits of a byte, hundreds first.
pub fn decimal_digits(value: u8) -> (digits: [u8; 3])
    ensures
        digits@ == bcd_digits(value),
{
    let digits: [u8; 3] = [value / 100, (value / 10) % 10, value % 10];
    assert(digits@ =~= bcd_digits(value));
    digits
}

} // verus!
