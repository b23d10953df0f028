//! The rows of an unwind table, as plain values.
//!
//! A frame descriptor covers a range of addresses and decodes into rows. Each
//! row holds, for a part of that range, the rule that gives the canonical
//! frame address (CFA) of the frame and one rule for each register that a walk
//! tracks: how to find the value that the register had in the caller.

use vstd::prelude::*;

verus! {

/// The canonical frame address (CFA) recovery rules.
#[derive(Clone, Copy, Debug, PartialEq, Eq, Structural)]
pub enum CfaRule {
    /// The CFA is found through the given register's value and the given
    /// offset from it.
    RegisterAndOffset {
        /// The DWARF number of the register that holds the base value.
        register: u16,
        /// The offset from the register's base value.
        offset: i64,
    },
    /// The CFA is obtained by evaluating a DWARF expression program.
    Expression,
}

/// How to find the value that a register had in the previous frame.
#[derive(Clone, Copy, Debug, PartialEq, Eq, Structural)]
pub enum RegisterRule {
    /// The register has no recoverable value in the previous frame.
    Undefined,
    /// The register has not been modified from the previous frame.
    SameValue,
    /// The previous value of the register is saved at the address CFA+N.
    Offset(i64),
    /// The previous value of the register is the value CFA+N.
    ValOffset(i64),
    /// The previous value of the register is stored in the register with the
    /// given DWARF number.
    Register(u16),
    /// The previous value of the register is located at the address produced
    /// by a DWARF expression.
    Expression,
    /// The previous value of the register is the value produced by a DWARF
    /// expression.
    ValExpression,
    /// The rule is defined externally, by the augmenter.
    Architectural,
    /// The register is a pseudo-register with a constant value.
    Constant(u64),
}

impl RegisterRule {
    /// Whether this rule is given as a DWARF expression.
    pub open spec fn is_expression(self) -> bool {
        self is Expression || self is ValExpression
    }

    /// Whether this rule is given as a DWARF expression.
    pub fn uses_expression(&self) -> (b: bool)
        ensures
            b == self.is_expression(),
    {
        match self {
            RegisterRule::Expression => true,
            RegisterRule::ValExpression => true,
            _ => false,
        }
    }
}

/// A row in the virtual unwind table: how to find the values of the tracked
/// registers in the previous frame, for the addresses from `start_address` up
/// to and not including `end_address`.
#[derive(Clone, Copy, Debug, PartialEq, Eq, Structural)]
pub struct UnwindTableRow {
    /// The first address that this row applies to, before the load bias.
    pub start_address: u64,
    /// The address at which this row's rules stop to apply, before the load
    /// bias.
    pub end_address: u64,
    /// The rule that gives the canonical frame address.
    pub cfa: CfaRule,
    /// The rule for the base pointer.
    pub bp: RegisterRule,
    /// The rule for the stack pointer.
    pub sp: RegisterRule,
    /// The rule for the instruction pointer: the return address.
    pub ip: RegisterRule,
}

impl UnwindTableRow {
    /// Whether one of the tracked registers has a rule given as a DWARF
    /// expression.
    pub open spec fn has_expression_rule(self) -> bool {
        self.bp.is_expression() || self.sp.is_expression() || self.ip.is_expression()
    }

    /// Whether one of the tracked registers has a rule given as a DWARF
    /// expression.
    pub fn uses_expression(&self) -> (b: bool)
        ensures
            b == self.has_expression_rule(),
    {
        self.bp.uses_expression() || self.sp.uses_expression() || self.ip.uses_expression()
    }
}

} // verus!
