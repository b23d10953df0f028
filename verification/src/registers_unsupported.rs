//! No-op registers for architectures that the walker does not know.

use crate::error::WalkError;
use crate::reader::MemoryReader;
use crate::registers::Registers;
use crate::rules::{CfaRule, UnwindTableRow};
use crate::tagged_word::TaggedWord;
use vstd::prelude::*;

verus! {

/// An empty register set: it tracks no register, every accessor reports
/// invalid, and no step can be taken from it.
#[derive(Clone, Copy, Debug, PartialEq, Eq, Structural)]
pub struct FrameUnwindRegisters;

impl Registers for FrameUnwindRegisters {
    /// There is no step from an empty register set: the register that the
    /// row's CFA rule names is not tracked.
    fn from_unwind_table_row<Reader>(
        row: &UnwindTableRow,
        old_registers: &FrameUnwindRegisters,
        reader: &Reader,
    ) -> (result: Result<FrameUnwindRegisters, WalkError>) where Reader: MemoryReader
        ensures
            result == Err::<FrameUnwindRegisters, WalkError>(
                match row.cfa {
                    CfaRule::RegisterAndOffset { register, offset } => WalkError::UnknownRegister(
                        register,
                    ),
                    CfaRule::Expression => WalkError::UnsupportedRule,
                },
            ),
    {
        match row.cfa {
            CfaRule::RegisterAndOffset { register, offset: _ } => Err(
                WalkError::UnknownRegister(register),
            ),
            CfaRule::Expression => Err(WalkError::UnsupportedRule),
        }
    }

    fn bp(&self) -> (w: TaggedWord)
        ensures
            w == TaggedWord::Invalid,
    {
        TaggedWord::invalid()
    }

    fn sp(&self) -> (w: TaggedWord)
        ensures
            w == TaggedWord::Invalid,
    {
        TaggedWord::invalid()
    }

    fn ip(&self) -> (w: TaggedWord)
        ensures
            w == TaggedWord::Invalid,
    {
        TaggedWord::invalid()
    }
}

} // verus!
