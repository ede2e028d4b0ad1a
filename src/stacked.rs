//! The register frame that the hardware pushes on exception entry.
use crate::cortexm::RamRange;
use vstd::prelude::*;

verus! {

/// Words in the basic frame: R0 to R3, R12, LR, PC, xPSR.
pub const BASIC_FRAME_WORDS: u32 = 8;

/// Words in the extended frame: the basic frame plus S0 to S15, FPSCR and a reserved word.
pub const EXTENDED_FRAME_WORDS: u32 = 26;

/// Number of words the hardware stacked.
pub open spec fn frame_words(fpu_used: bool) -> u32 {
    if fpu_used {
        EXTENDED_FRAME_WORDS
    } else {
        BASIC_FRAME_WORDS
    }
}

/// Size in bytes of the stacked frame.
pub open spec fn frame_size(fpu_used: bool) -> u32 {
    if fpu_used {
        104
    } else {
        32
    }
}

/// Whether the frame stacked at `sp` lies within the half-open `bounds`.
pub open spec fn frame_fits(sp: u32, fpu_used: bool, bounds: RamRange) -> bool {
    bounds.start <= sp && sp as int + frame_size(fpu_used) as int <= bounds.end as int
}

/// The number of words to read for a stacked frame.
pub fn words_for(fpu_used: bool) -> (r: u32)
    ensures
        r == frame_words(fpu_used),
        r as int * 4 == frame_size(fpu_used) as int,
{
    if fpu_used {
        EXTENDED_FRAME_WORDS
    } else {
        BASIC_FRAME_WORDS
    }
}

/// Whether `[sp, sp + size)` of the stacked frame lies within `bounds`.
pub fn fits(sp: u32, fpu_used: bool, bounds: &RamRange) -> (r: bool)
    ensures
        r == frame_fits(sp, fpu_used, *bounds),
{
    let words = words_for(fpu_used);
    bounds.start <= sp && (sp as u64) + (words as u64) * 4 <= bounds.end as u64
}

/// The registers of a stacked exception frame that unwinding needs.
#[derive(Clone, Copy, Debug, PartialEq, Eq, Structural)]
pub struct Stacked {
    pub lr: u32,
    pub pc: u32,
    pub fpu_used: bool,
}

impl Stacked {
    /// Picks LR and PC out of the words read at the stack pointer.
    pub fn from_words(words: &Vec<u32>, fpu_used: bool) -> (r: Stacked)
        requires
            words@.len() == frame_words(fpu_used),
        ensures
            r.lr == words@[5],
            r.pc == words@[6],
            r.fpu_used == fpu_used,
    {
        Stacked { lr: words[5], pc: words[6], fpu_used }
    }

    /// Size in bytes of the frame on the stack.
    pub fn size(&self) -> (r: u32)
        ensures
            r == frame_size(self.fpu_used),
    {
        if self.fpu_used {
            104
        } else {
            32
        }
    }
}

} // verus!
