use std::collections::HashMap;

use probe_unwind::cortexm::{RamRange, VectorTable};
use probe_unwind::registers::UnwindError;
use probe_unwind::cfi::{CfaRule, RegisterRule};
use probe_unwind::unwind::{row_for_address, Outcome, Output, Phase, RawFrame, Request, Unwinder};

const HARD_FAULT: u32 = 0x0800_0401;

fn vector_table() -> VectorTable {
    VectorTable { location: 0, initial_stack_pointer: 0x2001_0000, reset: 0x0800_0001, hard_fault: HARD_FAULT }
}

fn push_u32(out: &mut Vec<u8>, v: u32) {
    out.extend_from_slice(&v.to_le_bytes());
}

fn pad(body: &mut Vec<u8>) {
    while (body.len() + 4) % 4 != 0 {
        body.push(0); // DW_CFA_nop
    }
}

/// A version-1 CIE: code alignment 2, data alignment -4, return address in r14,
/// CFA = SP.
fn cie() -> Vec<u8> {
    let mut body = Vec::new();
    push_u32(&mut body, 0xFFFF_FFFF);
    body.extend_from_slice(&[1, 0, 2, 0x7c, 14, 0x0c, 13, 0]);
    pad(&mut body);
    let mut out = Vec::new();
    push_u32(&mut out, body.len() as u32);
    out.extend(body);
    out
}

fn fde(start: u32, len: u32, instructions: &[u8]) -> Vec<u8> {
    let mut body = Vec::new();
    push_u32(&mut body, 0);
    push_u32(&mut body, start);
    push_u32(&mut body, len);
    body.extend_from_slice(instructions);
    pad(&mut body);
    let mut out = Vec::new();
    push_u32(&mut out, body.len() as u32);
    out.extend(body);
    out
}

/// CFA = SP + 8, LR saved at CFA - 4.
const PUSH_LR: [u8; 4] = [0x0e, 8, 0x8e, 1];

fn debug_frame(fdes: &[(u32, &[u8])]) -> Vec<u8> {
    let mut out = cie();
    for (start, ins) in fdes {
        out.extend(fde(*start, 0x100, ins));
    }
    out
}

fn core_regs(pc: u32, sp: u32, lr: u32) -> Vec<Option<u32>> {
    let mut regs = vec![Some(0u32); 16];
    regs[13] = Some(sp);
    regs[14] = Some(lr);
    regs[15] = Some(pc);
    regs
}

fn run(regs: Vec<Option<u32>>, ram: Option<RamRange>, df: &[u8], mem: &HashMap<u32, u32>) -> Output {
    let mut u = Unwinder::new(regs, vector_table(), ram);
    for _ in 0..10_000 {
        match u.advance(df) {
            Request::Continue => {}
            Request::ReadWord { address } => u.supply_word(mem.get(&address).copied()),
            Request::ReadStacked { address, words } => {
                let w: Option<Vec<u32>> = (0..words).map(|i| mem.get(&(address + 4 * i)).copied()).collect();
                u.supply_stacked(w);
            }
            Request::Finished => return u.output,
        }
    }
    panic!("unwinding did not finish");
}

fn subs(frames: &[RawFrame]) -> Vec<Option<u32>> {
    frames
        .iter()
        .map(|f| match f {
            RawFrame::Subroutine { pc } => Some(*pc),
            RawFrame::Exception => None,
        })
        .collect()
}

#[test]
fn clean_return_chain() {
    let df = debug_frame(&[(0x0800_0100, &PUSH_LR), (0x0800_0200, &PUSH_LR), (0x0800_0300, &PUSH_LR)]);
    let mut mem = HashMap::new();
    mem.insert(0x2000_0F04, 0x0800_0201);
    mem.insert(0x2000_0F0C, 0x0800_0301);
    mem.insert(0x2000_0F14, 0xFFFF_FFFF);
    let out = run(core_regs(0x0800_0100, 0x2000_0F00, 0), None, &df, &mem);
    assert_eq!(subs(&out.raw_frames), vec![Some(0x0800_0100), Some(0x0800_0200), Some(0x0800_0300)]);
    assert_eq!(out.outcome, Outcome::Success);
    assert!(!out.corrupted);
    assert_eq!(out.processing_error, None);
}

#[test]
fn hard_fault_with_stack_overflow() {
    let df = debug_frame(&[(0x0800_0400, &PUSH_LR)]);
    let ram = RamRange { start: 0x2000_0000, end: 0x2000_1000 };
    let mem = HashMap::new();
    let out = run(core_regs(0x0800_0400, 0x2000_1004, 0), Some(ram), &df, &mem);
    assert_eq!(out.outcome, Outcome::StackOverflow);
    assert_eq!(out.raw_frames[0], RawFrame::Subroutine { pc: 0x0800_0400 });
}

#[test]
fn sp_at_ram_end_is_hard_fault() {
    let ram = RamRange { start: 0x2000_0000, end: 0x2000_1000 };
    let out = run(core_regs(0x0800_0400, 0x2000_1000, 0), Some(ram), &debug_frame(&[]), &HashMap::new());
    assert_eq!(out.outcome, Outcome::HardFault);
    assert_eq!(out.processing_error, Some(UnwindError::MissingDebugInfo));
}

#[test]
fn sp_one_past_ram_end_is_stack_overflow() {
    let ram = RamRange { start: 0x2000_0000, end: 0x2000_1000 };
    let out = run(core_regs(0x0800_0400, 0x2000_1001, 0), Some(ram), &debug_frame(&[]), &HashMap::new());
    assert_eq!(out.outcome, Outcome::StackOverflow);
}

#[test]
fn hard_fault_without_ram_region_is_not_overflow() {
    let out = run(core_regs(0x0800_0400, 0x1000_0000, 0), None, &debug_frame(&[]), &HashMap::new());
    assert_eq!(out.outcome, Outcome::HardFault);
}

#[test]
fn exception_in_the_middle() {
    // A returns into handler B; B was entered by exception; the interrupted code
    // at 0x0800_1234 has no saved LR, and returns into 0x0800_5678, the outermost.
    let df = debug_frame(&[
        (0x0800_0100, &PUSH_LR),
        (0x0800_0200, &PUSH_LR),
        (0x0800_1200, &[]),
        (0x0800_5600, &PUSH_LR),
    ]);
    let mut mem = HashMap::new();
    mem.insert(0x2000_0F04, 0x0800_0201);
    mem.insert(0x2000_0F0C, 0xFFFF_FFF9);
    for i in 0..8u32 {
        mem.insert(0x2000_0F10 + 4 * i, 0);
    }
    mem.insert(0x2000_0F10 + 20, 0x0800_5679);
    mem.insert(0x2000_0F10 + 24, 0x0800_1234);
    // the stacked frame ends at 0x2000_0F30; the last frame saves LR at its CFA - 4
    mem.insert(0x2000_0F34, 0xFFFF_FFFF);
    let out = run(core_regs(0x0800_0100, 0x2000_0F00, 0), None, &df, &mem);
    assert_eq!(
        subs(&out.raw_frames),
        vec![Some(0x0800_0100), Some(0x0800_0200), None, Some(0x0800_1234), Some(0x0800_5678)]
    );
    assert!(!out.corrupted);
    assert_eq!(out.processing_error, None);
}

#[test]
fn invalid_exc_return() {
    let df = debug_frame(&[(0x0800_0100, &PUSH_LR)]);
    let mut mem = HashMap::new();
    mem.insert(0x2000_0F04, 0xFFFF_FFE4);
    let out = run(core_regs(0x0800_0100, 0x2000_0F00, 0), None, &df, &mem);
    assert_eq!(out.raw_frames, vec![RawFrame::Subroutine { pc: 0x0800_0100 }, RawFrame::Exception]);
    assert_eq!(out.processing_error, Some(UnwindError::InvalidExcReturn { lr: 0xFFFF_FFE4 }));
}

#[test]
fn missing_debug_info() {
    let df = debug_frame(&[(0x0800_0100, &PUSH_LR)]);
    let mut mem = HashMap::new();
    mem.insert(0x2000_0F04, 0x0800_0901);
    let out = run(core_regs(0x0800_0100, 0x2000_0F00, 0), None, &df, &mem);
    assert_eq!(subs(&out.raw_frames), vec![Some(0x0800_0100), Some(0x0800_0900)]);
    assert_eq!(out.processing_error, Some(UnwindError::MissingDebugInfo));
    assert!(out.corrupted);
}

#[test]
fn missing_debug_info_at_first_frame() {
    let out = run(core_regs(0x0800_0100, 0x2000_0F00, 0), None, &debug_frame(&[]), &HashMap::new());
    assert_eq!(out.raw_frames, vec![RawFrame::Subroutine { pc: 0x0800_0100 }]);
    assert_eq!(out.processing_error, Some(UnwindError::MissingDebugInfo));
}

#[test]
fn corruption_loop_is_stopped() {
    // CFA = SP and LR points back at the frame itself: nothing moves.
    let df = debug_frame(&[(0x0800_0100, &[])]);
    let out = run(core_regs(0x0800_0100, 0x2000_0F00, 0x0800_0101), None, &df, &HashMap::new());
    assert!(out.corrupted);
    assert_eq!(out.processing_error, None);
    assert_eq!(subs(&out.raw_frames), vec![Some(0x0800_0100)]);
}

#[test]
fn stacked_frame_past_ram_end_is_corrupted() {
    let df = debug_frame(&[(0x0800_0100, &PUSH_LR)]);
    let mut mem = HashMap::new();
    mem.insert(0x2000_0F04, 0xFFFF_FFF9);
    // the CFA is 0x2000_0F08; a basic frame would end at 0x2000_0F28
    let ram = RamRange { start: 0x2000_0000, end: 0x2000_0F27 };
    let out = run(core_regs(0x0800_0100, 0x2000_0F00, 0), Some(ram), &df, &mem);
    assert!(out.corrupted);
    assert_eq!(out.processing_error, None);
    assert_eq!(out.raw_frames, vec![RawFrame::Subroutine { pc: 0x0800_0100 }, RawFrame::Exception]);
}

#[test]
fn missing_thumb_bit() {
    let df = debug_frame(&[(0x0800_0100, &PUSH_LR)]);
    let mut mem = HashMap::new();
    mem.insert(0x2000_0F04, 0x0800_0200);
    let out = run(core_regs(0x0800_0100, 0x2000_0F00, 0), None, &df, &mem);
    assert_eq!(out.processing_error, Some(UnwindError::MissingThumbBit { lr: 0x0800_0200 }));
}

#[test]
fn unreadable_memory() {
    let df = debug_frame(&[(0x0800_0100, &PUSH_LR)]);
    let out = run(core_regs(0x0800_0100, 0x2000_0F00, 0), None, &df, &HashMap::new());
    assert_eq!(out.processing_error, Some(UnwindError::UnreadableMemory { address: 0x2000_0F04 }));
    assert_eq!(out.raw_frames.len(), 1);
}

#[test]
fn unsupported_rule() {
    // DW_CFA_expression for r4: a rule form that is not evaluated.
    let df = debug_frame(&[(0x0800_0100, &[0x10, 4, 1, 0x30])]);
    let out = run(core_regs(0x0800_0100, 0x2000_0F00, 0), None, &df, &HashMap::new());
    assert_eq!(out.processing_error, Some(UnwindError::UnsupportedRule));
}

#[test]
fn unreadable_register_and_overflowing_cfa() {
    // DW_CFA_def_cfa r20, 0: no such core register.
    let df = debug_frame(&[(0x0800_0100, &[0x0c, 20, 0])]);
    let out = run(core_regs(0x0800_0100, 0x2000_0F00, 0), None, &df, &HashMap::new());
    assert_eq!(out.processing_error, Some(UnwindError::UnreadableRegister { register: 20 }));
    // DW_CFA_def_cfa_offset 16 with SP near the top of the address space.
    let df = debug_frame(&[(0x0800_0100, &[0x0e, 16])]);
    let out = run(core_regs(0x0800_0100, 0xFFFF_FFF8, 0), None, &df, &HashMap::new());
    assert_eq!(out.processing_error, Some(UnwindError::CfaOverflow));
}

#[test]
fn unreadable_registers_output() {
    let out = Output::unreadable(15);
    assert!(out.raw_frames.is_empty());
    assert!(out.corrupted);
    assert_eq!(out.outcome, Outcome::Success);
}

#[test]
fn synthetic_chain_of_depth_four() {
    // Frame i runs at pc_0 + i * k and was called from pc_0 + (i + 1) * k.
    let pc0: u32 = 0x0800_1000;
    let k: u32 = 0x100;
    let depth: u32 = 4;
    let mut fdes: Vec<(u32, &[u8])> = Vec::new();
    for i in 0..=depth {
        fdes.push((pc0 + i * k, &PUSH_LR));
    }
    let df = debug_frame(&fdes);
    let sp0: u32 = 0x2000_0800;
    let mut mem = HashMap::new();
    for i in 0..=depth {
        let lr = if i == depth { 0xFFFF_FFFF } else { (pc0 + (i + 1) * k) | 1 };
        mem.insert(sp0 + 8 * i + 4, lr);
    }
    let out = run(core_regs(pc0, sp0, 0), None, &df, &mem);
    let expected: Vec<Option<u32>> = (0..=depth).map(|i| Some(pc0 + i * k)).collect();
    assert_eq!(subs(&out.raw_frames), expected);
    assert!(!out.corrupted);
    assert_eq!(out.processing_error, None);
    assert_eq!(out.outcome, Outcome::Success);
}

#[test]
fn extended_frame_with_fpu_context() {
    let df = debug_frame(&[(0x0800_0100, &PUSH_LR), (0x0800_1200, &PUSH_LR)]);
    let mut mem = HashMap::new();
    mem.insert(0x2000_0F04, 0xFFFF_FFE9);
    for i in 0..26u32 {
        mem.insert(0x2000_0F08 + 4 * i, 0);
    }
    mem.insert(0x2000_0F08 + 20, 0x0800_0001);
    mem.insert(0x2000_0F08 + 24, 0x0800_1235);
    // SP moves past the 104-byte frame, to 0x2000_0F70; CFA = SP + 8
    mem.insert(0x2000_0F74, 0xFFFF_FFFF);
    let out = run(core_regs(0x0800_0100, 0x2000_0F00, 0), None, &df, &mem);
    assert_eq!(subs(&out.raw_frames), vec![Some(0x0800_0100), None, Some(0x0800_1234)]);
    assert!(!out.corrupted);
}

#[test]
fn row_lookup_converts_rules() {
    let df = debug_frame(&[(0x0800_0100, &PUSH_LR)]);
    let (cfa, rules) = row_for_address(&df, 0x0800_0180).unwrap();
    assert_eq!(cfa, CfaRule::RegisterAndOffset { register: 13, offset: 8 });
    assert_eq!(rules, vec![(14, RegisterRule::Offset(-4))]);
    assert!(row_for_address(&df, 0x0800_0200).is_none());
    assert!(row_for_address(&df, 0x0800_00FF).is_none());
}

#[test]
fn given_rows_drive_the_steps() {
    let mut u = Unwinder::new(core_regs(0x0800_0101, 0x2000_0F00, 0x0800_0101), vector_table(), None);
    assert_eq!(u.pc, 0x0800_0100);
    u.emit_frame();
    assert_eq!(u.phase, Phase::Lookup);
    let row = (CfaRule::RegisterAndOffset { register: 13, offset: 8 }, vec![(4, RegisterRule::ValOffset(16))]);
    assert_eq!(u.load_row(Some(row)), Request::Continue);
    assert!(u.cfa_changed);
    assert_eq!(u.registers.cfa, Some(0x2000_0F08));
    assert_eq!(u.apply_rule(), Request::Continue);
    assert_eq!(u.registers.values[4], Some(0x2000_0F18));
    assert_eq!(u.apply_rule(), Request::Continue);
    assert_eq!(u.phase, Phase::Decide);
    // LR points back at this frame, but the CFA is new: go on.
    assert_eq!(u.decide(), Request::Continue);
    assert_eq!(u.pc, 0x0800_0100);
    assert_eq!(u.registers.values[13], Some(0x2000_0F08));
    u.emit_frame();
    let row = (CfaRule::RegisterAndOffset { register: 13, offset: 0 }, vec![]);
    assert_eq!(u.load_row(Some(row)), Request::Continue);
    assert!(!u.cfa_changed);
    while u.phase == Phase::Rules {
        u.apply_rule();
    }
    // Neither the CFA nor the PC moves: stop as corrupted.
    assert_eq!(u.decide(), Request::Finished);
    assert!(u.output.corrupted);
    assert_eq!(u.output.processing_error, None);
    assert_eq!(u.output.raw_frames.len(), 2);
}

#[test]
fn given_row_missing() {
    let mut u = Unwinder::new(core_regs(0x0800_0100, 0x2000_0F00, 0), vector_table(), None);
    u.emit_frame();
    assert_eq!(u.load_row(None), Request::Finished);
    assert_eq!(u.output.processing_error, Some(UnwindError::MissingDebugInfo));
    assert_eq!(u.pending(), Request::Finished);
}

#[test]
fn register_copy_rule() {
    let mut u = Unwinder::new(core_regs(0x0800_0100, 0x2000_0F00, 0), vector_table(), None);
    u.emit_frame();
    let rules = vec![(14, RegisterRule::Register(3)), (4, RegisterRule::Register(300))];
    let mut regs = core_regs(0x0800_0100, 0x2000_0F00, 0);
    regs[3] = Some(0xFFFF_FFFF);
    let mut v = Unwinder::new(regs, vector_table(), None);
    v.emit_frame();
    v.load_row(Some((CfaRule::RegisterAndOffset { register: 13, offset: 0 }, rules.clone())));
    v.apply_rule();
    assert_eq!(v.registers.values[14], Some(0xFFFF_FFFF));
    assert_eq!(v.apply_rule(), Request::Finished);
    assert_eq!(v.output.processing_error, Some(UnwindError::UnreadableRegister { register: 300 }));
    u.load_row(Some((CfaRule::Expression, rules)));
    assert_eq!(u.output.processing_error, Some(UnwindError::UnsupportedRule));
}

#[test]
fn unread_register_fails_only_when_used() {
    let df = debug_frame(&[(0x0800_0100, &[0x0c, 7, 8])]);
    let mut regs = core_regs(0x0800_0100, 0x2000_0F00, 0);
    regs[7] = None;
    let out = run(regs, None, &df, &HashMap::new());
    assert_eq!(out.raw_frames, vec![RawFrame::Subroutine { pc: 0x0800_0100 }]);
    assert_eq!(out.processing_error, Some(UnwindError::UnreadableRegister { register: 7 }));
    // The same register left unread does not matter to a row that does not use it.
    let df = debug_frame(&[(0x0800_0100, &PUSH_LR)]);
    let mut regs = core_regs(0x0800_0100, 0x2000_0F00, 0);
    regs[7] = None;
    let mut mem = HashMap::new();
    mem.insert(0x2000_0F04, 0xFFFF_FFFF);
    let out = run(regs, None, &df, &mem);
    assert!(!out.corrupted);
    assert_eq!(out.processing_error, None);
}

#[test]
fn stuck_frame_after_exception_entry_is_emitted_once() {
    // The interrupted code's row gives CFA = SP and its stacked LR points back at it.
    let df = debug_frame(&[(0x0800_0100, &PUSH_LR), (0x0800_1200, &[])]);
    let mut mem = HashMap::new();
    mem.insert(0x2000_0F04, 0xFFFF_FFF9);
    for i in 0..8u32 {
        mem.insert(0x2000_0F08 + 4 * i, 0);
    }
    mem.insert(0x2000_0F08 + 20, 0x0800_1235);
    mem.insert(0x2000_0F08 + 24, 0x0800_1234);
    let out = run(core_regs(0x0800_0100, 0x2000_0F00, 0), None, &df, &mem);
    assert_eq!(subs(&out.raw_frames), vec![Some(0x0800_0100), None, Some(0x0800_1234)]);
    assert!(out.corrupted);
    assert_eq!(out.processing_error, None);
}

#[test]
fn first_frame_is_the_halted_pc() {
    let out = run(core_regs(0x0800_0133, 0x2000_0F00, 0), None, &debug_frame(&[]), &HashMap::new());
    assert_eq!(out.raw_frames[0], RawFrame::Subroutine { pc: 0x0800_0132 });
}
