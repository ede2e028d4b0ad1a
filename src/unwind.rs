//! The unwinder: a state machine that walks the call stack frame by frame.
//!
//! The caller owns the target. It seeds the unwinder with a snapshot of the
//! core registers, then calls [`Unwinder::advance`] until it answers
//! [`Request::Finished`]; a request for target memory is answered with
//! [`Unwinder::supply_word`] or [`Unwinder::supply_stacked`].
use crate::cfi::{cfa_rule_for_address, cfi_row_of, register_rules_for_address, CfaRule, RegisterRule};
use crate::cortexm::{
    clear_thumb, clear_thumb_bit, hard_fault_at, is_hard_fault, is_thumb_bit_set,
    lemma_clear_thumb_even, lemma_even_is_cleared, same_subroutine, subroutine_eq, thumb_set, valid_ram_address,
    RamRange, VectorTable, EXC_RETURN_MARKER, VALID_RAM_END, VALID_RAM_START,
};
use crate::registers::{
    add_offset, cfa_update, offset_address, register_value, set_register, Registers, UnwindError, LR, LR_END,
    NUM_CORE_REGISTERS, PC, SP,
};
use crate::stacked::{fits, frame_fits, frame_size, frame_words, words_for, Stacked};
use vstd::prelude::*;

verus! {

/// How the target came to be halted.
#[derive(Clone, Copy, Debug, PartialEq, Eq, Structural)]
pub enum Outcome {
    Success,
    HardFault,
    StackOverflow,
}

/// A backtrace frame before symbolication.
#[derive(Clone, Copy, Debug, PartialEq, Eq, Structural)]
pub enum RawFrame {
    /// A return address, with the Thumb bit cleared.
    Subroutine { pc: u32 },
    /// The next subroutine frame was reached through exception entry.
    Exception,
}

impl RawFrame {
    /// Whether this is an exception marker.
    pub fn is_exception(&self) -> (r: bool)
        ensures
            r == (*self is Exception),
    {
        match self {
            RawFrame::Exception => true,
            RawFrame::Subroutine { .. } => false,
        }
    }
}

/// What unwinding produced.
#[derive(Clone, Debug)]
pub struct Output {
    /// Set unless unwinding reached the end-of-stack marker.
    pub corrupted: bool,
    pub outcome: Outcome,
    /// Innermost frame first.
    pub raw_frames: Vec<RawFrame>,
    /// Why unwinding stopped early, if it did; the frames are those collected before.
    pub processing_error: Option<UnwindError>,
}

impl Output {
    /// The output when the registers of the halted core could not be read.
    pub fn unreadable(register: u16) -> (r: Output)
        ensures
            r.corrupted,
            r.outcome == Outcome::Success,
            r.raw_frames@.len() == 0,
            r.processing_error == Some(UnwindError::UnreadableRegister { register }),
    {
        Output {
            corrupted: true,
            outcome: Outcome::Success,
            raw_frames: Vec::new(),
            processing_error: Some(UnwindError::UnreadableRegister { register }),
        }
    }
}

/// Whether `sp` lies outside `[start, end]` of the RAM region holding the stack.
/// The upper bound is inclusive: a full-descending stack's SP may equal `end`.
/// Without a region nothing can be told, and no overflow is reported.
pub open spec fn overflowed(sp: u32, sp_ram_region: Option<RamRange>) -> bool {
    match sp_ram_region {
        Some(r) => !(r.start <= sp && sp <= r.end),
        None => false,
    }
}

/// The outcome for a core halted at `pc` with stack pointer `sp`.
pub open spec fn classify(pc: u32, sp: u32, vector_table: VectorTable, ram: Option<RamRange>) -> Outcome {
    if hard_fault_at(pc, vector_table) {
        if overflowed(sp, ram) {
            Outcome::StackOverflow
        } else {
            Outcome::HardFault
        }
    } else {
        Outcome::Success
    }
}

/// Whether the stack pointer `sp` overflowed the stack's RAM region.
pub fn overflowed_stack(sp: u32, sp_ram_region: &Option<RamRange>) -> (r: bool)
    ensures
        r == overflowed(sp, *sp_ram_region),
{
    match sp_ram_region {
        Some(region) => !(region.start <= sp && sp <= region.end),
        None => false,
    }
}

/// Whether an EXC_RETURN value says the FPU context was stacked; `None` for an
/// illegal encoding.
pub open spec fn exc_return_fpu(lr: u32) -> Option<bool> {
    if lr == 0xFFFF_FFF1u32 || lr == 0xFFFF_FFF9u32 || lr == 0xFFFF_FFFDu32 {
        Some(false)
    } else if lr == 0xFFFF_FFE1u32 || lr == 0xFFFF_FFE9u32 || lr == 0xFFFF_FFEDu32 {
        Some(true)
    } else {
        None
    }
}

/// Decodes whether the FPU context was stacked from an EXC_RETURN value.
pub fn fpu_used(lr: u32) -> (r: Option<bool>)
    ensures
        r == exc_return_fpu(lr),
{
    match lr {
        0xFFFF_FFF1u32 | 0xFFFF_FFF9u32 | 0xFFFF_FFFDu32 => Some(false),
        0xFFFF_FFE1u32 | 0xFFFF_FFE9u32 | 0xFFFF_FFEDu32 => Some(true),
        _ => None,
    }
}

/// Whether any frame is an exception marker.
pub fn contains_exception(frames: &Vec<RawFrame>) -> (r: bool)
    ensures
        r == exists|i: int| 0 <= i < frames@.len() && (#[trigger] frames@[i]) is Exception,
{
    let mut i: usize = 0;
    while i < frames.len()
        invariant
            i <= frames@.len(),
            forall|j: int| 0 <= j < i ==> !((#[trigger] frames@[j]) is Exception),
        decreases frames@.len() - i,
    {
        if frames[i].is_exception() {
            return true;
        }
        i = i + 1;
    }
    false
}

/// Whether the backtrace is worth showing: when asked for, or when the halt or
/// the unwind was anything but ordinary; never when the length limit is zero.
pub fn should_print(output: &Output, force_backtrace: bool, max_backtrace_len: u32) -> (r: bool)
    ensures
        r == (max_backtrace_len > 0 && (force_backtrace || output.outcome == Outcome::StackOverflow
            || output.corrupted || exists|i: int|
            0 <= i < output.raw_frames@.len() && (#[trigger] output.raw_frames@[i]) is Exception)),
{
    let print_backtrace = force_backtrace || output.outcome == Outcome::StackOverflow || output.corrupted
        || contains_exception(&output.raw_frames);
    print_backtrace && max_backtrace_len > 0
}

/// The CFI row of `debug_frame` that covers `pc`: its CFA rule and register rules.
pub fn row_for_address(debug_frame: &[u8], pc: u32) -> (r: Option<(CfaRule, Vec<(u16, RegisterRule)>)>)
    ensures
        match r {
            Some(row) => cfi_row_of(debug_frame@, pc) == Some((row.0, row.1@)),
            None => cfi_row_of(debug_frame@, pc).is_none(),
        },
{
    match cfa_rule_for_address(debug_frame, pc) {
        Some(cfa_rule) => match register_rules_for_address(debug_frame, pc) {
            Some(rules) => Some((cfa_rule, rules)),
            None => None,
        },
        None => None,
    }
}

/// Where the unwinder stands.
#[derive(Clone, Copy, Debug, PartialEq, Eq, Structural)]
pub enum Phase {
    /// About to emit the frame at `pc`.
    FrameStart,
    /// The frame at `pc` is emitted; its CFI row is to be loaded.
    Lookup,
    /// Applying the register rules of the current row.
    Rules,
    /// Waiting for the word at `address`, the saved value of `reg`.
    AwaitWord { reg: u16, address: u32 },
    /// All rules applied; the caller's LR decides what comes next.
    Decide,
    /// Waiting for the exception frame stacked at `sp`.
    AwaitStacked { sp: u32, fpu_used: bool },
    /// Done.
    Finished,
}

/// What the unwinder needs from its caller next.
#[derive(Clone, Copy, Debug, PartialEq, Eq, Structural)]
pub enum Request {
    /// Call `advance` again.
    Continue,
    /// Read one 32-bit word and hand it to `supply_word`.
    ReadWord { address: u32 },
    /// Read `words` 32-bit words from `address` and hand them to `supply_stacked`.
    ReadStacked { address: u32, words: u32 },
    /// Unwinding is over; the output is complete.
    Finished,
}

/// The request that stands for a phase.
pub open spec fn request_of(phase: Phase) -> Request {
    match phase {
        Phase::AwaitWord { reg, address } => Request::ReadWord { address },
        Phase::AwaitStacked { sp, fpu_used } => Request::ReadStacked { address: sp, words: frame_words(fpu_used) },
        Phase::Finished => Request::Finished,
        _ => Request::Continue,
    }
}

/// Every subroutine frame has its Thumb bit cleared.
pub open spec fn subroutines_even(f: Seq<RawFrame>) -> bool {
    forall|i: int|
        0 <= i < f.len() ==> match #[trigger] f[i] {
            RawFrame::Subroutine { pc } => pc & 1u32 == 0,
            RawFrame::Exception => true,
        }
}

/// Every exception marker but the last frame is followed by a subroutine frame.
pub open spec fn exceptions_followed(f: Seq<RawFrame>) -> bool {
    forall|i: int| 0 <= i < f.len() - 1 && (#[trigger] f[i]) is Exception ==> f[i + 1] is Subroutine
}

/// The value that a register rule other than `Offset` gives: `Ok(None)` leaves
/// the register as it is.
pub open spec fn rule_value(values: Seq<Option<u32>>, cfa: u32, rule: RegisterRule) -> Result<Option<u32>, UnwindError> {
    match rule {
        RegisterRule::ValOffset(n) => match offset_address(cfa, n) {
            Some(a) => Ok(Some(a)),
            None => Err(UnwindError::CfaOverflow),
        },
        RegisterRule::Register(src) => match register_value(values, src) {
            Ok(v) => Ok(Some(v)),
            Err(e) => Err(e),
        },
        RegisterRule::Unsupported => Err(UnwindError::UnsupportedRule),
        _ => Ok(None),
    }
}

/// Unwinding state of one halted core.
pub struct Unwinder {
    pub output: Output,
    pub phase: Phase,
    /// Program counter of the current frame, Thumb bit cleared.
    pub pc: u32,
    pub registers: Registers,
    pub vector_table: VectorTable,
    pub ram: Option<RamRange>,
    /// Register rules of the current row.
    pub rules: Vec<(u16, RegisterRule)>,
    pub next_rule: usize,
    /// Whether the current row's CFA differs from the previous one.
    pub cfa_changed: bool,
    /// PC and SP at which the core was halted.
    pub initial_pc: u32,
    pub initial_sp: u32,
}

impl Unwinder {
    pub open spec fn frames(&self) -> Seq<RawFrame> {
        self.output.raw_frames@
    }

    pub open spec fn wf(&self) -> bool {
        let f = self.frames();
        &&& self.registers.wf()
        &&& self.pc & 1u32 == 0
        &&& subroutines_even(f)
        &&& exceptions_followed(f)
        &&& self.output.outcome == (if f.len() == 0 {
            Outcome::Success
        } else {
            classify(self.initial_pc, self.initial_sp, self.vector_table, self.ram)
        })
        &&& (f.len() == 0 ==> self.phase is FrameStart && self.pc == clear_thumb(self.initial_pc))
        &&& (f.len() > 0 ==> f[0] == RawFrame::Subroutine { pc: clear_thumb(self.initial_pc) })
        &&& (!(self.phase is FrameStart) ==> f.len() > 0)
        &&& (f.len() > 0 && f.last() is Exception ==> !(self.phase is Finished) || self.output.corrupted)
        &&& (self.phase is Lookup || self.phase is Rules || self.phase is AwaitWord || self.phase is Decide)
            ==> f.len() > 0 && f.last() == RawFrame::Subroutine { pc: self.pc }
        &&& (self.phase is Rules || self.phase is AwaitWord || self.phase is Decide)
            ==> self.registers.cfa.is_some()
        &&& (self.phase is Rules ==> self.next_rule <= self.rules@.len())
        &&& (self.phase is AwaitWord ==> self.next_rule <= self.rules@.len())
        &&& match self.phase {
            Phase::AwaitStacked { sp, fpu_used } => f.len() > 0 && f.last() is Exception && sp as int
                + frame_size(fpu_used) as int <= u32::MAX as int,
            _ => true,
        }
        &&& (!self.output.corrupted ==> self.phase is Finished && self.output.processing_error.is_none())
        &&& (self.output.processing_error.is_some() ==> self.phase is Finished)
    }

    /// What the unwinder waits for.
    pub open spec fn request(&self) -> Request {
        request_of(self.phase)
    }

    /// The halt being classified stays as it was: the halted PC and SP, the vector
    /// table and the RAM region; once the first frame is out, so does the outcome.
    pub open spec fn keeps_context(&self, next: Unwinder) -> bool {
        &&& next.initial_pc == self.initial_pc
        &&& next.initial_sp == self.initial_sp
        &&& next.vector_table == self.vector_table
        &&& next.ram == self.ram
        &&& (self.frames().len() > 0 ==> next.output.outcome == self.output.outcome)
    }

    /// `next` has loaded the CFI row `row` (`None` where none covers `pc`): the new
    /// CFA is computed from the register values, and the register rules are ready.
    pub open spec fn row_loaded(&self, next: Unwinder, row: Option<(CfaRule, Seq<(u16, RegisterRule)>)>) -> bool {
        &&& next.pc == self.pc
        &&& next.registers.values@ == self.registers.values@
        &&& match row {
            None => next.phase is Finished && next.output.processing_error == Some(
                UnwindError::MissingDebugInfo,
            ),
            Some(row) => match cfa_update(self.registers.values@, row.0) {
                Err(e) => next.phase is Finished && next.output.processing_error == Some(e),
                Ok(c) => next.phase is Rules && next.rules@ == row.1 && next.next_rule == 0
                    && next.registers.cfa == Some(c) && next.cfa_changed == (register_value(
                    self.registers.values@,
                    SP,
                ) != Ok::<u32, UnwindError>(c)),
            },
        }
    }

    /// `next` has emitted the frame at `pc` and loaded the row `row`.
    pub open spec fn frame_started(&self, next: Unwinder, row: Option<(CfaRule, Seq<(u16, RegisterRule)>)>) -> bool {
        &&& next.frames() == self.frames().push(RawFrame::Subroutine { pc: self.pc })
        &&& self.row_loaded(next, row)
    }

    /// `next` has applied the next register rule, or moved on to the decision.
    pub open spec fn rule_applied(&self, next: Unwinder) -> bool {
        &&& next.frames() == self.frames()
        &&& next.pc == self.pc
        &&& next.registers.cfa == self.registers.cfa
        &&& next.rules@ == self.rules@
        &&& next.cfa_changed == self.cfa_changed
        &&& self.next_rule == self.rules@.len() ==> next.phase is Decide
            && next.registers.values@ == self.registers.values@
        &&& self.next_rule < self.rules@.len() ==> ({
            let reg = self.rules@[self.next_rule as int].0;
            let rule = self.rules@[self.next_rule as int].1;
            let cfa = self.registers.cfa.unwrap();
            let values = self.registers.values@;
            match rule {
                RegisterRule::Offset(n) => if (reg as int) < NUM_CORE_REGISTERS {
                    match offset_address(cfa, n) {
                        Some(a) => next.phase == Phase::AwaitWord { reg, address: a }
                            && next.next_rule == self.next_rule + 1 && next.registers.values@ == values,
                        None => next.phase is Finished
                            && next.output.processing_error == Some(UnwindError::CfaOverflow),
                    }
                } else {
                    next.phase is Rules && next.next_rule == self.next_rule + 1
                        && next.registers.values@ == values
                },
                _ => match rule_value(values, cfa, rule) {
                    Ok(v) => next.phase is Rules && next.next_rule
                        == self.next_rule + 1 && next.registers.values@ == match v {
                        Some(x) => set_register(values, reg, x),
                        None => values,
                    },
                    Err(e) => next.phase is Finished && next.output.processing_error
                        == Some(e),
                },
            }
        })
    }

    /// `next` has taken the decision on the caller's LR.
    pub open spec fn decided(&self, next: Unwinder) -> bool {
        &&& ({
            let cfa = self.registers.cfa.unwrap();
            let values = set_register(self.registers.values@, SP, cfa);
            let lr = values[LR as int].unwrap();
            let f = self.frames();
            if lr == LR_END {
                next.phase is Finished && !next.output.corrupted
                    && next.output.processing_error.is_none() && next.frames() == f
            } else if !self.cfa_changed && same_subroutine(lr, self.pc) {
                next.phase is Finished && next.output.corrupted
                    && next.output.processing_error.is_none() && next.frames() == f
            } else if lr >= EXC_RETURN_MARKER {
                next.frames() == f.push(RawFrame::Exception) && match exc_return_fpu(lr) {
                    None => next.phase is Finished && next.output.processing_error
                        == Some(UnwindError::InvalidExcReturn { lr }),
                    Some(fpu) => {
                        let bounds = match self.ram {
                            Some(region) => region,
                            None => RamRange { start: VALID_RAM_START, end: VALID_RAM_END },
                        };
                        if frame_fits(cfa, fpu, bounds) {
                            next.phase == Phase::AwaitStacked { sp: cfa, fpu_used: fpu }
                                && next.registers.values@ == values
                        } else {
                            next.phase is Finished && next.output.corrupted
                                && next.output.processing_error.is_none()
                        }
                    },
                }
            } else if thumb_set(lr) {
                next.phase is FrameStart && next.pc == clear_thumb(lr)
                    && next.registers.values@ == values && next.frames() == f
            } else {
                next.phase is Finished && next.output.processing_error == Some(
                    UnwindError::MissingThumbBit { lr },
                ) && next.frames() == f
            }
        })
        &&& next.phase is FrameStart ==> self.cfa_changed || next.pc != self.pc
    }

    /// Starts unwinding from a snapshot of r0 to r15 of the halted core; a
    /// register that could not be read holds `None`, but PC, SP and LR were read.
    pub fn new(core: Vec<Option<u32>>, vector_table: VectorTable, ram: Option<RamRange>) -> (r: Unwinder)
        requires
            core@.len() == NUM_CORE_REGISTERS,
            core@[PC as int].is_some(),
            core@[SP as int].is_some(),
            core@[LR as int].is_some(),
        ensures
            r.wf(),
            r.phase is FrameStart,
            r.frames().len() == 0,
            r.output.corrupted,
            r.output.outcome == Outcome::Success,
            r.output.processing_error.is_none(),
            r.initial_pc == core@[PC as int].unwrap(),
            r.initial_sp == core@[SP as int].unwrap(),
            r.pc == clear_thumb(core@[PC as int].unwrap()),
            r.registers.values@ == core@,
            r.registers.cfa.is_none(),
            r.vector_table == vector_table,
            r.ram == ram,
    {
        let initial_pc = match core[PC as usize] {
            Some(v) => v,
            None => 0,
        };
        let initial_sp = match core[SP as usize] {
            Some(v) => v,
            None => 0,
        };
        let pc = clear_thumb_bit(initial_pc);
        Unwinder {
            output: Output {
                corrupted: true,
                outcome: Outcome::Success,
                raw_frames: Vec::new(),
                processing_error: None,
            },
            phase: Phase::FrameStart,
            pc,
            registers: Registers::new(core),
            vector_table,
            ram,
            rules: Vec::new(),
            next_rule: 0,
            cfa_changed: false,
            initial_pc,
            initial_sp,
        }
    }

    /// What the unwinder waits for.
    pub fn pending(&self) -> (r: Request)
        ensures
            r == self.request(),
    {
        match self.phase {
            Phase::AwaitWord { reg, address } => Request::ReadWord { address },
            Phase::AwaitStacked { sp, fpu_used } => Request::ReadStacked { address: sp, words: words_for(fpu_used) },
            Phase::Finished => Request::Finished,
            _ => Request::Continue,
        }
    }

    /// Emits the frame at `pc`; at the first frame it also classifies the halt.
    pub fn emit_frame(&mut self)
        requires
            old(self).wf(),
            old(self).phase is FrameStart,
        ensures
            old(self).keeps_context(*final(self)),
            final(self).wf(),
            final(self).phase is Lookup,
            final(self).frames() == old(self).frames().push(RawFrame::Subroutine { pc: old(self).pc }),
            final(self).pc == old(self).pc,
            final(self).registers == old(self).registers,
            final(self).output.processing_error == old(self).output.processing_error,
    {
        if self.output.raw_frames.len() == 0 {
            proof {
                lemma_clear_thumb_even(self.initial_pc);
            }
            self.output.outcome = if is_hard_fault(self.pc, &self.vector_table) {
                if overflowed_stack(self.initial_sp, &self.ram) {
                    Outcome::StackOverflow
                } else {
                    Outcome::HardFault
                }
            } else {
                Outcome::Success
            };
        }
        self.output.raw_frames.push(RawFrame::Subroutine { pc: self.pc });
        self.phase = Phase::Lookup;
    }

    /// Takes the CFI row that covers `pc` (`None` where none does): computes the
    /// new CFA from its CFA rule and readies its register rules.
    pub fn load_row(&mut self, row: Option<(CfaRule, Vec<(u16, RegisterRule)>)>) -> (r: Request)
        requires
            old(self).wf(),
            old(self).phase is Lookup,
        ensures
            final(self).wf(),
            r == final(self).request(),
            old(self).keeps_context(*final(self)),
            final(self).frames() == old(self).frames(),
            old(self).row_loaded(
                *final(self),
                match row {
                    Some(row) => Some((row.0, row.1@)),
                    None => None,
                },
            ),
    {
        let (cfa_rule, rules) = match row {
            Some(row) => row,
            None => {
                self.finish(Some(UnwindError::MissingDebugInfo));
                return Request::Finished;
            },
        };
        match self.registers.update_cfa(&cfa_rule) {
            Err(e) => {
                self.finish(Some(e));
                Request::Finished
            },
            Ok(changed) => {
                self.cfa_changed = changed;
                self.rules = rules;
                self.next_rule = 0;
                self.phase = Phase::Rules;
                Request::Continue
            },
        }
    }

    /// Emits the frame at `pc`, looks up in `debug_frame` the CFI row that covers
    /// `pc` and loads it.
    pub fn start_frame(&mut self, debug_frame: &[u8]) -> (r: Request)
        requires
            old(self).wf(),
            old(self).phase is FrameStart,
        ensures
            final(self).wf(),
            r == final(self).request(),
            old(self).keeps_context(*final(self)),
            old(self).frame_started(*final(self), cfi_row_of(debug_frame@, old(self).pc)),
    {
        self.emit_frame();
        self.load_row(row_for_address(debug_frame, self.pc))
    }

    /// Applies the next register rule of the row; once all are applied, moves on
    /// to the decision. A rule that saves a core register in memory asks for the
    /// word; one for a register beyond r15 is passed over, as nothing reads it.
    pub fn apply_rule(&mut self) -> (r: Request)
        requires
            old(self).wf(),
            old(self).phase is Rules,
        ensures
            final(self).wf(),
            r == final(self).request(),
            old(self).keeps_context(*final(self)),
            old(self).rule_applied(*final(self)),
    {
        if self.next_rule >= self.rules.len() {
            self.phase = Phase::Decide;
            return Request::Continue;
        }
        let (reg, rule) = self.rules[self.next_rule];
        let cfa = match self.registers.cfa {
            Some(c) => c,
            None => 0,
        };
        match rule {
            RegisterRule::Offset(n) => {
                if (reg as usize) < NUM_CORE_REGISTERS {
                    match add_offset(cfa, n) {
                        Some(address) => {
                            self.next_rule = self.next_rule + 1;
                            self.phase = Phase::AwaitWord { reg, address };
                            Request::ReadWord { address }
                        },
                        None => {
                            self.finish(Some(UnwindError::CfaOverflow));
                            Request::Finished
                        },
                    }
                } else {
                    self.next_rule = self.next_rule + 1;
                    Request::Continue
                }
            },
            RegisterRule::ValOffset(n) => match add_offset(cfa, n) {
                Some(value) => {
                    self.registers.insert(reg, value);
                    self.next_rule = self.next_rule + 1;
                    Request::Continue
                },
                None => {
                    self.finish(Some(UnwindError::CfaOverflow));
                    Request::Finished
                },
            },
            RegisterRule::Register(src) => match self.registers.get(src) {
                Ok(value) => {
                    self.registers.insert(reg, value);
                    self.next_rule = self.next_rule + 1;
                    Request::Continue
                },
                Err(e) => {
                    self.finish(Some(e));
                    Request::Finished
                },
            },
            RegisterRule::Unsupported => {
                self.finish(Some(UnwindError::UnsupportedRule));
                Request::Finished
            },
            RegisterRule::Undefined | RegisterRule::SameValue => {
                self.next_rule = self.next_rule + 1;
                Request::Continue
            },
        }
    }

    /// Hands over the word read for a pending `ReadWord`; `None` when the read failed.
    pub fn supply_word(&mut self, value: Option<u32>)
        requires
            old(self).wf(),
            old(self).phase is AwaitWord,
        ensures
            old(self).keeps_context(*final(self)),
            final(self).wf(),
            final(self).frames() == old(self).frames(),
            final(self).pc == old(self).pc,
            final(self).registers.cfa == old(self).registers.cfa,
            final(self).rules@ == old(self).rules@,
            final(self).cfa_changed == old(self).cfa_changed,
            match old(self).phase {
                Phase::AwaitWord { reg, address } => match value {
                    Some(v) => final(self).phase is Rules && final(self).next_rule == old(self).next_rule
                        && final(self).registers.values@ == set_register(
                        old(self).registers.values@,
                        reg,
                        v,
                    ),
                    None => final(self).phase is Finished && final(self).output.processing_error
                        == Some(UnwindError::UnreadableMemory { address }),
                },
                _ => false,
            },
    {
        if let Phase::AwaitWord { reg, address } = self.phase {
            match value {
                Some(v) => {
                    self.registers.insert(reg, v);
                    self.phase = Phase::Rules;
                },
                None => self.finish(Some(UnwindError::UnreadableMemory { address })),
            }
        }
    }

    /// Reads the caller's LR from the rolled-back registers (SP taking the CFA)
    /// and decides how unwinding goes on: it ends cleanly at the end-of-stack
    /// marker, stops as corrupted where neither the CFA nor the PC would change,
    /// crosses an exception entry, or returns to the caller's PC.
    pub fn decide(&mut self) -> (r: Request)
        requires
            old(self).wf(),
            old(self).phase is Decide,
        ensures
            final(self).wf(),
            r == final(self).request(),
            old(self).keeps_context(*final(self)),
            old(self).decided(*final(self)),
    {
        let cfa = match self.registers.cfa {
            Some(c) => c,
            None => 0,
        };
        self.registers.insert(SP, cfa);
        let lr = match self.registers.get(LR) {
            Ok(v) => v,
            Err(_) => 0,
        };
        if lr == LR_END {
            self.phase = Phase::Finished;
            self.output.corrupted = false;
            return Request::Finished;
        }
        // The whole EXC_RETURN range counts, reserved encodings included, so that
        // a corrupt value is caught by the decoding below.
        let exception_entry = lr >= EXC_RETURN_MARKER;
        let program_counter_changed = !subroutine_eq(lr, self.pc);
        if !self.cfa_changed && !program_counter_changed {
            self.finish(None);
            return Request::Finished;
        }
        if exception_entry {
            self.enter_exception(lr, cfa)
        } else if is_thumb_bit_set(lr) {
            proof {
                lemma_even_is_cleared(self.pc);
            }
            self.pc = clear_thumb_bit(lr);
            self.phase = Phase::FrameStart;
            Request::Continue
        } else {
            self.finish(Some(UnwindError::MissingThumbBit { lr }));
            Request::Finished
        }
    }

    /// Hands over the words read for a pending `ReadStacked`; `None` when the read
    /// failed. Unwinding goes on at the stacked PC, with the stacked LR and SP past
    /// the stacked frame.
    pub fn supply_stacked(&mut self, words: Option<Vec<u32>>)
        requires
            old(self).wf(),
            match old(self).phase {
                Phase::AwaitStacked { sp, fpu_used } => match words {
                    Some(w) => w@.len() == frame_words(fpu_used),
                    None => true,
                },
                _ => false,
            },
        ensures
            old(self).keeps_context(*final(self)),
            final(self).wf(),
            final(self).frames() == old(self).frames(),
            match old(self).phase {
                Phase::AwaitStacked { sp, fpu_used } => match words {
                    Some(w) => final(self).phase is FrameStart && final(self).pc == clear_thumb(w@[6])
                        && final(self).registers.values@ == set_register(
                        set_register(old(self).registers.values@, LR, w@[5]),
                        SP,
                        (sp + frame_size(fpu_used)) as u32,
                    ),
                    None => final(self).phase is Finished && final(self).output.processing_error
                        == Some(UnwindError::UnreadableMemory { address: sp }),
                },
                _ => false,
            },
    {
        if let Phase::AwaitStacked { sp, fpu_used } = self.phase {
            match words {
                Some(w) => {
                    let stacked = Stacked::from_words(&w, fpu_used);
                    self.registers.insert(LR, stacked.lr);
                    self.registers.insert(SP, sp + stacked.size());
                    // The hardware stacks PC without its Thumb bit; clear it all the same.
                    self.pc = clear_thumb_bit(stacked.pc);
                    self.phase = Phase::FrameStart;
                },
                None => self.finish(Some(UnwindError::UnreadableMemory { address: sp })),
            }
        }
    }

    /// Takes the next step that needs nothing from the target: emits a frame,
    /// applies a rule, or decides. While a read is pending, or once finished, it
    /// changes nothing and repeats the request.
    pub fn advance(&mut self, debug_frame: &[u8]) -> (r: Request)
        requires
            old(self).wf(),
        ensures
            final(self).wf(),
            r == final(self).request(),
            old(self).keeps_context(*final(self)),
            final(self).frames().len() >= old(self).frames().len(),
            final(self).frames().subrange(0, old(self).frames().len() as int) == old(self).frames(),
            old(self).phase is FrameStart ==> final(self).frames().len() >= 1,
            old(self).phase is FrameStart ==> old(self).frame_started(
                *final(self),
                cfi_row_of(debug_frame@, old(self).pc),
            ),
            old(self).phase is Lookup ==> final(self).frames() == old(self).frames()
                && old(self).row_loaded(*final(self), cfi_row_of(debug_frame@, old(self).pc)),
            old(self).phase is Rules ==> old(self).rule_applied(*final(self)),
            old(self).phase is Decide ==> old(self).decided(*final(self)),
            !(old(self).phase is FrameStart || old(self).phase is Lookup || old(self).phase is Rules
                || old(self).phase is Decide) ==> final(self).phase == old(self).phase
                && final(self).frames() == old(self).frames(),
    {
        match self.phase {
            Phase::FrameStart => self.start_frame(debug_frame),
            Phase::Lookup => self.load_row(row_for_address(debug_frame, self.pc)),
            Phase::Rules => self.apply_rule(),
            Phase::Decide => self.decide(),
            _ => self.pending(),
        }
    }

    /// Crosses an exception entry: emits the marker, decodes the EXC_RETURN value
    /// in `lr` and asks for the frame stacked at `cfa` when it lies in RAM.
    fn enter_exception(&mut self, lr: u32, cfa: u32) -> (r: Request)
        requires
            old(self).wf(),
            old(self).phase is Decide,
        ensures
            old(self).keeps_context(*final(self)),
            final(self).wf(),
            r == final(self).request(),
            final(self).registers == old(self).registers,
            final(self).frames() == old(self).frames().push(RawFrame::Exception),
            match exc_return_fpu(lr) {
                None => final(self).phase is Finished && final(self).output.processing_error
                    == Some(UnwindError::InvalidExcReturn { lr }),
                Some(fpu) => {
                    let bounds = match old(self).ram {
                        Some(region) => region,
                        None => RamRange { start: VALID_RAM_START, end: VALID_RAM_END },
                    };
                    if frame_fits(cfa, fpu, bounds) {
                        final(self).phase == Phase::AwaitStacked { sp: cfa, fpu_used: fpu }
                    } else {
                        final(self).phase is Finished && final(self).output.corrupted
                            && final(self).output.processing_error.is_none()
                    }
                },
            },
    {
        // Unwinding stops here unless the stacked frame can be read.
        self.phase = Phase::Finished;
        self.output.raw_frames.push(RawFrame::Exception);
        match fpu_used(lr) {
            None => {
                self.output.processing_error = Some(UnwindError::InvalidExcReturn { lr });
                Request::Finished
            },
            Some(fpu) => {
                let bounds = match self.ram {
                    Some(region) => region,
                    None => valid_ram_address(),
                };
                if fits(cfa, fpu, &bounds) {
                    self.phase = Phase::AwaitStacked { sp: cfa, fpu_used: fpu };
                    Request::ReadStacked { address: cfa, words: words_for(fpu) }
                } else {
                    Request::Finished
                }
            },
        }
    }

    fn finish(&mut self, error: Option<UnwindError>)
        requires
            old(self).wf(),
            old(self).output.corrupted,
            old(self).frames().len() > 0,
        ensures
            old(self).keeps_context(*final(self)),
            final(self).wf(),
            final(self).phase is Finished,
            final(self).output.processing_error == error,
            final(self).output.corrupted,
            final(self).frames() == old(self).frames(),
            final(self).output.outcome == old(self).output.outcome,
            final(self).pc == old(self).pc,
            final(self).registers == old(self).registers,
            final(self).rules@ == old(self).rules@,
            final(self).next_rule == old(self).next_rule,
            final(self).cfa_changed == old(self).cfa_changed,
            final(self).initial_pc == old(self).initial_pc,
            final(self).initial_sp == old(self).initial_sp,
            final(self).vector_table == old(self).vector_table,
            final(self).ram == old(self).ram,
    {
        self.phase = Phase::Finished;
        self.output.processing_error = error;
    }
}

} // verus!
