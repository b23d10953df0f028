//! The register set of a frame on 32-bit x86.
//!
//! The set tracks the frame base, the stack pointer and the instruction
//! pointer under the same DWARF numbers as the x86-64 set, and a step from it
//! is the step of that set.

use crate::error::WalkError;
use crate::reader::MemoryReader;
use crate::registers::{rule_yields, steps_to, FrameRegisters, Registers};
use crate::rules::{RegisterRule, UnwindTableRow};
use crate::tagged_word::TaggedWord;
use vstd::prelude::*;

verus! {

/// The registers needed to unwind a frame on x86.
#[derive(Clone, Copy, Debug, PartialEq, Eq, Structural)]
pub struct FrameUnwindRegisters {
    /// The `ebp` frame base register for this frame.
    pub bp: TaggedWord,
    /// The `esp` stack pointer register for this frame.
    pub sp: TaggedWord,
    /// The `eip` instruction pointer register for this frame.
    pub ip: TaggedWord,
}

/// The registers of a step's result under their x86-64 names.
pub open spec fn widened(result: Result<FrameUnwindRegisters, WalkError>) -> Result<
    FrameRegisters,
    WalkError,
> {
    match result {
        Ok(registers) => Ok(registers.widen()),
        Err(e) => Err(e),
    }
}

impl FrameUnwindRegisters {
    /// These registers under their x86-64 names.
    pub open spec fn widen(self) -> FrameRegisters {
        FrameRegisters { bp: self.bp, sp: self.sp, ip: self.ip }
    }

    /// These registers under their x86-64 names.
    pub fn to_frame_registers(&self) -> (registers: FrameRegisters)
        ensures
            registers == self.widen(),
    {
        FrameRegisters { bp: self.bp, sp: self.sp, ip: self.ip }
    }

    /// The value of the register with the given DWARF number; the error
    /// `UnknownRegister` where this set does not track it.
    pub fn get_register(&self, register_num: u16) -> (r: Result<TaggedWord, WalkError>)
        ensures
            r == match self.widen().register(register_num) {
                Some(w) => Ok::<TaggedWord, WalkError>(w),
                None => Err(WalkError::UnknownRegister(register_num)),
            },
    {
        self.to_frame_registers().get_register(register_num)
    }

    /// Evaluate the rule of one register: read the word that the rule points
    /// at, if it points at one, and apply the rule.
    pub fn eval_register_rule<Reader>(
        &self,
        rule: RegisterRule,
        own: TaggedWord,
        cfa: usize,
        reader: &Reader,
    ) -> (w: TaggedWord) where Reader: MemoryReader
        ensures
            rule_yields(rule, own, self.widen(), cfa, *reader, w),
    {
        self.to_frame_registers().eval_register_rule(rule, own, cfa, reader)
    }
}

impl Registers for FrameUnwindRegisters {
    /// The registers of the caller's frame.
    fn from_unwind_table_row<Reader>(
        row: &UnwindTableRow,
        old_registers: &FrameUnwindRegisters,
        reader: &Reader,
    ) -> (result: Result<FrameUnwindRegisters, WalkError>) where Reader: MemoryReader
        ensures
            steps_to(*row, old_registers.widen(), *reader, widened(result)),
    {
        let old = old_registers.to_frame_registers();
        match FrameRegisters::from_unwind_table_row(row, &old, reader) {
            Ok(next) => Ok(FrameUnwindRegisters { bp: next.bp, sp: next.sp, ip: next.ip }),
            Err(e) => Err(e),
        }
    }

    fn bp(&self) -> (w: TaggedWord)
        ensures
            w == self.bp,
    {
        self.bp
    }

    fn sp(&self) -> (w: TaggedWord)
        ensures
            w == self.sp,
    {
        self.sp
    }

    fn ip(&self) -> (w: TaggedWord)
        ensures
            w == self.ip,
    {
        self.ip
    }
}

} // verus!
