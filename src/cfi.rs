//! DWARF Call Frame Information rows, as plain values.
use gimli::{
    BaseAddresses, CfaRule as GimliCfaRule, DebugFrame, LittleEndian, RegisterRule as GimliRule,
    UnwindContext, UnwindSection,
};
use vstd::prelude::*;

verus! {

/// How the Canonical Frame Address of a row is computed.
#[derive(Clone, Copy, Debug, PartialEq, Eq, Structural)]
pub enum CfaRule {
    /// The value of `register` plus `offset`.
    RegisterAndOffset { register: u16, offset: i64 },
    /// A DWARF expression, which this library does not evaluate.
    Expression,
}

/// How the caller's value of one register is recovered.
#[derive(Clone, Copy, Debug, PartialEq, Eq, Structural)]
pub enum RegisterRule {
    /// The caller's value cannot be recovered.
    Undefined,
    /// The register is unchanged from the callee's value.
    SameValue,
    /// Saved in memory at `CFA + n`.
    Offset(i64),
    /// The value is `CFA + n`.
    ValOffset(i64),
    /// Saved in another register.
    Register(u16),
    /// A rule form this library does not evaluate (expressions, constants,
    /// architectural rules).
    Unsupported,
}

/// The row of `.debug_frame` (little endian, 4-byte addresses) that covers `pc`:
/// its CFA rule and its register rules, in the order the row yields them (gimli
/// promises no particular order); `None` where no row covers `pc` or the section
/// cannot be parsed.
pub uninterp spec fn cfi_row_of(debug_frame: Seq<u8>, pc: u32) -> Option<(CfaRule, Seq<(u16, RegisterRule)>)>;

/// Relies on gimli's `UnwindSection::unwind_info_for_address` on a `DebugFrame`
/// section: it finds the unwind-table row covering `pc`; its CFA rule is handed
/// back converted one for one.
#[verifier::external_body]
pub(crate) fn cfa_rule_for_address(debug_frame: &[u8], pc: u32) -> (r: Option<CfaRule>)
    ensures
        match r {
            Some(c) => cfi_row_of(debug_frame@, pc).is_some() && cfi_row_of(debug_frame@, pc).unwrap().0 == c,
            None => cfi_row_of(debug_frame@, pc).is_none(),
        },
{
    let mut section = DebugFrame::new(debug_frame, LittleEndian);
    section.set_address_size(4);
    let mut ctx = UnwindContext::new();
    let row = section.unwind_info_for_address(&BaseAddresses::default(), &mut ctx, pc as u64, DebugFrame::cie_from_offset).ok()?;
    Some(match row.cfa() {
        GimliCfaRule::RegisterAndOffset { register, offset } => CfaRule::RegisterAndOffset { register: register.0, offset: *offset },
        GimliCfaRule::Expression(_) => CfaRule::Expression,
    })
}

/// Relies on gimli's `UnwindSection::unwind_info_for_address`, as above: the
/// register rules of the row covering `pc`, as its iterator yields them, each converted
/// one for one (the forms this library does not evaluate all become `Unsupported`).
#[verifier::external_body]
pub(crate) fn register_rules_for_address(debug_frame: &[u8], pc: u32) -> (r: Option<Vec<(u16, RegisterRule)>>)
    ensures
        match r {
            Some(rules) => cfi_row_of(debug_frame@, pc).is_some() && cfi_row_of(debug_frame@, pc).unwrap().1 == rules@,
            None => cfi_row_of(debug_frame@, pc).is_none(),
        },
{
    let mut section = DebugFrame::new(debug_frame, LittleEndian);
    section.set_address_size(4);
    let mut ctx = UnwindContext::new();
    let row = section.unwind_info_for_address(&BaseAddresses::default(), &mut ctx, pc as u64, DebugFrame::cie_from_offset).ok()?;
    Some(row.registers().map(|(reg, rule)| (reg.0, match rule {
        GimliRule::Undefined => RegisterRule::Undefined,
        GimliRule::SameValue => RegisterRule::SameValue,
        GimliRule::Offset(n) => RegisterRule::Offset(*n),
        GimliRule::ValOffset(n) => RegisterRule::ValOffset(*n),
        GimliRule::Register(r) => RegisterRule::Register(r.0),
        _ => RegisterRule::Unsupported,
    })).collect())
}

} // verus!
