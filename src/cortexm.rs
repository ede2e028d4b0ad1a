//! ARM Cortex-M specific constants and code-address helpers.
use vstd::prelude::*;

verus! {

/// Size in bytes of a target address.
pub const ADDRESS_SIZE: u8 = 4;

/// Lowest LR value that denotes an exception return (EXC_RETURN).
pub const EXC_RETURN_MARKER: u32 = 0xFFFF_FFE0;

/// Bit 0 of a code address: set for Thumb code.
pub const THUMB_BIT: u32 = 1;

/// Start of the architectural RAM window.
pub const VALID_RAM_START: u32 = 0x2000_0000;

/// End (exclusive) of the architectural RAM window.
pub const VALID_RAM_END: u32 = 0x4000_0000;

/// The vector table of the target program.
#[derive(Clone, Copy, Debug, PartialEq, Eq, Structural)]
pub struct VectorTable {
    pub location: u32,
    pub initial_stack_pointer: u32,
    pub reset: u32,
    pub hard_fault: u32,
}

/// A half-open address range `[start, end)` of target RAM.
#[derive(Clone, Copy, Debug, PartialEq, Eq, Structural)]
pub struct RamRange {
    pub start: u32,
    pub end: u32,
}

/// The RAM window that the architecture reserves; used when no region is known.
pub fn valid_ram_address() -> (r: RamRange)
    ensures
        r.start == VALID_RAM_START,
        r.end == VALID_RAM_END,
{
    RamRange { start: VALID_RAM_START, end: VALID_RAM_END }
}

/// `a` with its Thumb bit cleared.
pub open spec fn clear_thumb(a: u32) -> u32 {
    a & 0xFFFF_FFFEu32
}

/// Whether `a` has its Thumb bit set.
pub open spec fn thumb_set(a: u32) -> bool {
    a & 1u32 == 1u32
}

/// Whether two code addresses denote the same subroutine address.
pub open spec fn same_subroutine(a: u32, b: u32) -> bool {
    clear_thumb(a) == clear_thumb(b)
}

/// Whether `pc` is the HardFault handler of `vector_table`.
pub open spec fn hard_fault_at(pc: u32, vector_table: VectorTable) -> bool {
    same_subroutine(pc, vector_table.hard_fault)
}

/// A cleared Thumb bit reads as zero.
pub proof fn lemma_clear_thumb_even(a: u32)
    ensures
        clear_thumb(a) & 1u32 == 0,
        !thumb_set(clear_thumb(a)),
        clear_thumb(clear_thumb(a)) == clear_thumb(a),
{
    assert(((a & 0xFFFF_FFFEu32) & 1u32) == 0u32) by (bit_vector);
    assert(((a & 0xFFFF_FFFEu32) & 0xFFFF_FFFEu32) == (a & 0xFFFF_FFFEu32)) by (bit_vector);
}

/// An address without its Thumb bit is its own cleared form.
pub proof fn lemma_even_is_cleared(a: u32)
    requires
        a & 1u32 == 0,
    ensures
        clear_thumb(a) == a,
{
    assert((a & 1u32) == 0 ==> (a & 0xFFFF_FFFEu32) == a) by (bit_vector);
}

/// The complement of the Thumb bit is the mask that clears it.
pub proof fn lemma_thumb_mask()
    ensures
        !THUMB_BIT == 0xFFFF_FFFEu32,
{
    assert(!1u32 == 0xFFFF_FFFEu32) by (bit_vector);
}

/// Clears the Thumb bit of `addr`.
pub fn clear_thumb_bit(addr: u32) -> (r: u32)
    ensures
        r == clear_thumb(addr),
        r & 1u32 == 0,
        r == addr || r + 1 == addr,
{
    proof {
        lemma_clear_thumb_even(addr);
        lemma_thumb_mask();
        assert((addr & 0xFFFF_FFFEu32) == addr || (addr & 0xFFFF_FFFEu32) + 1 == addr)
            by (bit_vector);
    }
    addr & !THUMB_BIT
}

/// Sets the Thumb bit of `addr`.
pub fn set_thumb_bit(addr: u32) -> (r: u32)
    ensures
        r == addr | 1u32,
        thumb_set(r),
        clear_thumb(r) == clear_thumb(addr),
{
    proof {
        assert(((addr | 1u32) & 1u32) == 1u32) by (bit_vector);
        assert(((addr | 1u32) & 0xFFFF_FFFEu32) == (addr & 0xFFFF_FFFEu32)) by (bit_vector);
    }
    addr | THUMB_BIT
}

/// Whether the Thumb bit of `addr` is set.
pub fn is_thumb_bit_set(addr: u32) -> (r: bool)
    ensures
        r == thumb_set(addr),
{
    addr & THUMB_BIT == THUMB_BIT
}

/// Whether two subroutine addresses are equal once their Thumb bits are cleared.
pub fn subroutine_eq(addr1: u32, addr2: u32) -> (r: bool)
    ensures
        r == same_subroutine(addr1, addr2),
{
    proof {
        lemma_thumb_mask();
    }
    addr1 & !THUMB_BIT == addr2 & !THUMB_BIT
}

/// Whether `pc` is the HardFault handler of `vector_table`.
pub fn is_hard_fault(pc: u32, vector_table: &VectorTable) -> (r: bool)
    ensures
        r == hard_fault_at(pc, *vector_table),
{
    subroutine_eq(pc, vector_table.hard_fault)
}

} // verus!
