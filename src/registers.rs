//! A mirror of the core registers that CFI rules roll back to the caller's state.
use crate::cfi::CfaRule;
use vstd::prelude::*;

verus! {

/// DWARF number of the stack pointer.
pub const SP: u16 = 13;

/// DWARF number of the link register.
pub const LR: u16 = 14;

/// DWARF number of the program counter.
pub const PC: u16 = 15;

/// Number of core registers that the mirror holds (r0 to r15).
pub const NUM_CORE_REGISTERS: usize = 16;

/// LR value that marks the end of the call stack.
pub const LR_END: u32 = 0xFFFF_FFFF;

/// Why an unwind step could not be completed.
#[derive(Clone, Copy, Debug, PartialEq, Eq, Structural)]
pub enum UnwindError {
    /// No CFI row covers the current PC.
    MissingDebugInfo,
    /// A register could not be read.
    UnreadableRegister { register: u16 },
    /// Target memory at `address` could not be read.
    UnreadableMemory { address: u32 },
    /// A CFA or register rule of a form that is not evaluated.
    UnsupportedRule,
    /// LR lies in the EXC_RETURN range but is none of its legal encodings.
    InvalidExcReturn { lr: u32 },
    /// An ordinary return address without its Thumb bit.
    MissingThumbBit { lr: u32 },
    /// An address computed from the CFA does not fit in 32 bits.
    CfaOverflow,
}

/// `base + offset`, where it lies in the 32-bit address space.
pub open spec fn offset_address(base: u32, offset: i64) -> Option<u32> {
    let a = base as int + offset as int;
    if 0 <= a && a <= u32::MAX as int {
        Some(a as u32)
    } else {
        None
    }
}

/// Computes `base + offset` without leaving the 32-bit address space.
pub fn add_offset(base: u32, offset: i64) -> (r: Option<u32>)
    ensures
        r == offset_address(base, offset),
{
    if offset >= 0 {
        if offset > (u32::MAX - base) as i64 {
            None
        } else {
            Some(base + offset as u32)
        }
    } else if offset < -(base as i64) {
        None
    } else {
        Some(base - (-offset) as u32)
    }
}

/// `values` with register `reg` set to `value`; registers outside the mirror are not kept.
pub open spec fn set_register(values: Seq<Option<u32>>, reg: u16, value: u32) -> Seq<Option<u32>> {
    if (reg as int) < values.len() {
        values.update(reg as int, Some(value))
    } else {
        values
    }
}

/// The value of `reg` in the mirror `values`; registers beyond r15, and those that
/// could not be read from the core, are unavailable.
pub open spec fn register_value(values: Seq<Option<u32>>, reg: u16) -> Result<u32, UnwindError> {
    if (reg as int) < NUM_CORE_REGISTERS {
        match values[reg as int] {
            Some(v) => Ok(v),
            None => Err(UnwindError::UnreadableRegister { register: reg }),
        }
    } else {
        Err(UnwindError::UnreadableRegister { register: reg })
    }
}

/// The register file of the frame being unwound, with the CFA last computed.
/// A register that could not be read from the core holds `None`.
pub struct Registers {
    pub values: Vec<Option<u32>>,
    pub cfa: Option<u32>,
}

impl Registers {
    pub open spec fn wf(&self) -> bool {
        &&& self.values@.len() == NUM_CORE_REGISTERS
        &&& self.values@[LR as int].is_some()
    }

    /// A mirror seeded from a snapshot of r0 to r15; no CFA yet.
    pub fn new(core: Vec<Option<u32>>) -> (r: Registers)
        requires
            core@.len() == NUM_CORE_REGISTERS,
            core@[LR as int].is_some(),
        ensures
            r.wf(),
            r.values@ == core@,
            r.cfa.is_none(),
    {
        Registers { values: core, cfa: None }
    }

    /// The mirrored value of `reg`.
    pub fn get(&self, reg: u16) -> (r: Result<u32, UnwindError>)
        requires
            self.wf(),
        ensures
            r == register_value(self.values@, reg),
    {
        if (reg as usize) < NUM_CORE_REGISTERS {
            match self.values[reg as usize] {
                Some(v) => Ok(v),
                None => Err(UnwindError::UnreadableRegister { register: reg }),
            }
        } else {
            Err(UnwindError::UnreadableRegister { register: reg })
        }
    }

    /// Sets `reg` to `value`.
    pub fn insert(&mut self, reg: u16, value: u32)
        requires
            old(self).wf(),
        ensures
            final(self).wf(),
            final(self).values@ == set_register(old(self).values@, reg, value),
            final(self).cfa == old(self).cfa,
    {
        if (reg as usize) < NUM_CORE_REGISTERS {
            self.values.set(reg as usize, Some(value));
        }
    }

    /// Evaluates `rule` into the new CFA; the result tells whether it differs from
    /// the CFA recorded before. That one is held in SP: the halted SP at the first
    /// frame, the caller's CFA after a return, and the SP past the stacked frame
    /// after an exception entry.
    pub fn update_cfa(&mut self, rule: &CfaRule) -> (r: Result<bool, UnwindError>)
        requires
            old(self).wf(),
        ensures
            final(self).wf(),
            final(self).values@ == old(self).values@,
            match cfa_update(old(self).values@, *rule) {
                Ok(c) => final(self).cfa == Some(c) && r == Ok::<bool, UnwindError>(
                    register_value(old(self).values@, SP) != Ok::<u32, UnwindError>(c),
                ),
                Err(e) => final(self).cfa == old(self).cfa && r == Err::<bool, UnwindError>(e),
            },
    {
        match rule {
            CfaRule::RegisterAndOffset { register, offset } => {
                let base = match self.get(*register) {
                    Ok(v) => v,
                    Err(e) => return Err(e),
                };
                match add_offset(base, *offset) {
                    Some(cfa) => {
                        let changed = match self.get(SP) {
                            Ok(prev) => prev != cfa,
                            Err(_) => true,
                        };
                        self.cfa = Some(cfa);
                        Ok(changed)
                    },
                    None => Err(UnwindError::CfaOverflow),
                }
            },
            CfaRule::Expression => Err(UnwindError::UnsupportedRule),
        }
    }
}

/// The CFA that `rule` gives over the register values `values`.
pub open spec fn cfa_update(values: Seq<Option<u32>>, rule: CfaRule) -> Result<u32, UnwindError> {
    match rule {
        CfaRule::RegisterAndOffset { register, offset } => match register_value(values, register) {
            Ok(base) => match offset_address(base, offset) {
                Some(c) => Ok(c),
                None => Err(UnwindError::CfaOverflow),
            },
            Err(e) => Err(e),
        },
        CfaRule::Expression => Err(UnwindError::UnsupportedRule),
    }
}

} // verus!
