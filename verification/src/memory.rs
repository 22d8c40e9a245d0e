//! Byte-addressed memory.
//!
//! A stretch of the address space is a vector of bytes, indexed from the
//! start of the stretch. Registers are 32 bits wide and stored least
//! significant byte first; the bring-up code clears memory 64 bits at a
//! time.

use vstd::prelude::*;

verus! {

/// The number held in bytes `at .. at + 4` of `memory`, least significant
/// byte first.
pub open spec fn le_u32(memory: Seq<u8>, at: int) -> nat {
    (memory[at] + 0x100 * memory[at + 1] + 0x1_0000 * memory[at + 2] + 0x100_0000 * memory[at
        + 3]) as nat
}

/// The number held in bytes `at .. at + 8` of `memory`, least significant
/// byte first.
pub open spec fn le_u64(memory: Seq<u8>, at: int) -> nat {
    le_u32(memory, at) + 0x1_0000_0000 * le_u32(memory, at + 4)
}

/// Reads the 32-bit word at `addr`.
pub fn load_word(memory: &Vec<u8>, addr: usize) -> (value: u32)
    requires
        addr + 4 <= memory.len(),
    ensures
        value == le_u32(memory@, addr as int),
{
    let b0: u32 = memory[addr] as u32;
    let b1: u32 = memory[addr + 1] as u32;
    let b2: u32 = memory[addr + 2] as u32;
    let b3: u32 = memory[addr + 3] as u32;
    b0 + 0x100 * b1 + 0x1_0000 * b2 + 0x100_0000 * b3
}

/// Writes the 32-bit word `value` at `addr`; no other byte changes.
pub fn store_word(memory: &mut Vec<u8>, addr: usize, value: u32)
    requires
        addr + 4 <= old(memory).len(),
    ensures
        final(memory).len() == old(memory).len(),
        le_u32(final(memory)@, addr as int) == value,
        forall|i: int|
            0 <= i < old(memory).len() && !(addr <= i < addr + 4) ==> final(memory)@[i] == old(
                memory,
            )@[i],
{
    memory.set(addr, (value % 0x100) as u8);
    memory.set(addr + 1, ((value / 0x100) % 0x100) as u8);
    memory.set(addr + 2, ((value / 0x1_0000) % 0x100) as u8);
    memory.set(addr + 3, (value / 0x100_0000) as u8);
}

/// Writes the 64-bit doubleword `value` at `addr`; no other byte changes.
pub fn store_doubleword(memory: &mut Vec<u8>, addr: usize, value: u64)
    requires
        addr + 8 <= old(memory).len(),
    ensures
        final(memory).len() == old(memory).len(),
        le_u64(final(memory)@, addr as int) == value,
        forall|i: int|
            0 <= i < old(memory).len() && !(addr <= i < addr + 8) ==> final(memory)@[i] == old(
                memory,
            )@[i],
{
    store_word(memory, addr, (value % 0x1_0000_0000) as u32);
    store_word(memory, addr + 4, (value / 0x1_0000_0000) as u32);
}

/// Clears the region `[start, end)`, a doubleword at a time from `start`
/// upwards, stopping when the cursor reaches `end`.
///
/// Every byte of the region is zero afterwards and every byte outside it is
/// as it was. A region whose start is not below its end is empty: nothing is
/// written.
pub fn zero_region(memory: &mut Vec<u8>, start: usize, end: usize)
    requires
        end <= old(memory).len(),
        start <= end ==> (end - start) % 8 == 0,
    ensures
        final(memory).len() == old(memory).len(),
        forall|i: int|
            0 <= i < old(memory).len() ==> final(memory)@[i] == (if start <= i < end {
                0u8
            } else {
                old(memory)@[i]
            }),
{
    let ghost before: Seq<u8> = memory@;
    let mut cursor: usize = start;
    while cursor < end
        invariant
            memory.len() == before.len(),
            end <= memory.len(),
            start <= end ==> start <= cursor <= end && (end - cursor) % 8 == 0,
            start > end ==> cursor == start,
            forall|i: int|
                0 <= i < before.len() ==> memory@[i] == (if start <= i < cursor {
                    0u8
                } else {
                    before[i]
                }),
        decreases end - cursor,
    {
        store_doubleword(memory, cursor, 0);
        cursor = cursor + 8;
    }
}

} // verus!
