//! The register set of a frame on x86-64, and the step from the registers of
//! a frame to those of its caller.

use crate::error::WalkError;
use crate::reader::{displaced, offset_address, MemoryReader};
use crate::rules::{CfaRule, RegisterRule, UnwindTableRow};
use crate::tagged_word::TaggedWord;
use std::fmt::Debug;
use vstd::prelude::*;

verus! {

/// The DWARF number of the base pointer `rbp`, from the System V x86-64 ABI.
pub const BP: u16 = 6;

/// The DWARF number of the stack pointer `rsp`.
pub const SP: u16 = 7;

/// The DWARF number of the return address.
pub const IP: u16 = 16;

/// A register set.
///
/// One could imagine multiple different `Registers` implementations for the
/// same architecture: an implementation that tracks the full set of registers,
/// that could be useful for debuggers, and an implementation that tracks the
/// subset of registers needed to perform fast-path stack walking in the 99%
/// case for profilers.
pub trait Registers: Debug + Sized {
    /// Construct the register set of the caller's frame from the given unwind
    /// table row and the register set of the callee's frame.
    fn from_unwind_table_row<Reader>(
        row: &UnwindTableRow,
        old_registers: &Self,
        reader: &Reader,
    ) -> Result<Self, WalkError> where Reader: MemoryReader;

    /// Get the base pointer of the frame, if any.
    fn bp(&self) -> TaggedWord;

    /// Get the stack pointer.
    fn sp(&self) -> TaggedWord;

    /// Get the instruction pointer.
    fn ip(&self) -> TaggedWord;
}

/// The registers needed to unwind a frame on x86-64.
#[derive(Clone, Copy, Debug, PartialEq, Eq, Structural)]
pub struct FrameRegisters {
    /// The `rbp` frame base register for this frame.
    pub bp: TaggedWord,
    /// The `rsp` stack pointer register for this frame.
    pub sp: TaggedWord,
    /// The `rip` instruction pointer register for this frame.
    pub ip: TaggedWord,
}

/// The address whose word is the canonical frame address of a row, or the
/// error that keeps it from being known: the rule is an expression, it names
/// a register that is not tracked, or that register's value is unknown.
pub open spec fn cfa_location(row: UnwindTableRow, old: FrameRegisters) -> Result<
    usize,
    WalkError,
> {
    match row.cfa {
        CfaRule::Expression => Err(WalkError::UnsupportedRule),
        CfaRule::RegisterAndOffset { register, offset } => match old.register(register) {
            None => Err(WalkError::UnknownRegister(register)),
            Some(TaggedWord::Invalid) => Err(WalkError::InvalidTaggedWord),
            Some(TaggedWord::Valid(base)) => Ok(displaced(base, offset)),
        },
    }
}

/// The address that a rule loads the register's value from, if it loads one.
pub open spec fn rule_location(rule: RegisterRule, cfa: usize) -> Option<usize> {
    match rule {
        RegisterRule::Offset(n) => Some(displaced(cfa, n)),
        _ => None,
    }
}

/// The value that a rule gives a register in the caller's frame.
///
/// `own` is the value of that same register in the callee's frame, `old` the
/// callee's register set, `cfa` the canonical frame address and `loaded` what
/// the read at `rule_location` gave, invalid where it failed. A rule given as
/// an expression has no value here.
pub open spec fn rule_outcome(
    rule: RegisterRule,
    own: TaggedWord,
    old: FrameRegisters,
    cfa: usize,
    loaded: TaggedWord,
) -> TaggedWord {
    match rule {
        RegisterRule::Undefined => TaggedWord::Invalid,
        RegisterRule::Architectural => TaggedWord::Invalid,
        RegisterRule::SameValue => own,
        RegisterRule::Offset(_) => loaded,
        RegisterRule::ValOffset(n) => TaggedWord::Valid(displaced(cfa, n)),
        RegisterRule::Register(r) => match old.register(r) {
            Some(w) => w,
            None => TaggedWord::Invalid,
        },
        RegisterRule::Constant(c) => if c <= usize::MAX {
            TaggedWord::Valid(c as usize)
        } else {
            TaggedWord::Invalid
        },
        RegisterRule::Expression => TaggedWord::Invalid,
        RegisterRule::ValExpression => TaggedWord::Invalid,
    }
}

/// Whether `read` may be what the read at `location` gives; where there is
/// nothing to read, every `read` will do.
pub open spec fn may_load<Reader: MemoryReader>(
    reader: Reader,
    location: Option<usize>,
    read: Result<usize, WalkError>,
) -> bool {
    match location {
        Some(at) => reader.may_read(at, read),
        None => true,
    }
}

/// Whether evaluating a rule with the given reader may give `w`: the value of
/// the rule on one of the outcomes that the read at its location may have.
pub open spec fn rule_yields<Reader: MemoryReader>(
    rule: RegisterRule,
    own: TaggedWord,
    old: FrameRegisters,
    cfa: usize,
    reader: Reader,
    w: TaggedWord,
) -> bool {
    exists|read: Result<usize, WalkError>|
        #![trigger may_load(reader, rule_location(rule, cfa), read)]
        may_load(reader, rule_location(rule, cfa), read) && w == rule_outcome(
            rule,
            own,
            old,
            cfa,
            TaggedWord::collapse(read),
        )
}

/// Whether a step from `old` by `row`, once the canonical frame address is
/// known, may end in `result`.
pub open spec fn steps_from_cfa<Reader: MemoryReader>(
    row: UnwindTableRow,
    old: FrameRegisters,
    reader: Reader,
    cfa: usize,
    result: Result<FrameRegisters, WalkError>,
) -> bool {
    if row.has_expression_rule() {
        result == Err::<FrameRegisters, WalkError>(WalkError::UnsupportedRule)
    } else {
        &&& result matches Ok(next)
        &&& rule_yields(row.bp, old.bp, old, cfa, reader, next.bp)
        &&& rule_yields(row.sp, old.sp, old, cfa, reader, next.sp)
        &&& rule_yields(row.ip, old.ip, old, cfa, reader, next.ip)
    }
}

/// Whether a step from the registers `old` by the row `row` may end in
/// `result`, with the given reader.
///
/// Which error a step ends in, if any, is fixed by the row and the registers
/// up to the first read. From there each read may fail or give a word, and the
/// result follows from what it gave: a failed read of the canonical frame
/// address ends the step with that error, a failed read of a saved register
/// leaves that register invalid.
pub open spec fn steps_to<Reader: MemoryReader>(
    row: UnwindTableRow,
    old: FrameRegisters,
    reader: Reader,
    result: Result<FrameRegisters, WalkError>,
) -> bool {
    match cfa_location(row, old) {
        Err(e) => result == Err::<FrameRegisters, WalkError>(e),
        Ok(at) => exists|read: Result<usize, WalkError>|
            #![trigger reader.may_read(at, read)]
            reader.may_read(at, read) && match read {
                Err(e) => result == Err::<FrameRegisters, WalkError>(e),
                Ok(cfa) => steps_from_cfa(row, old, reader, cfa, result),
            },
    }
}

impl FrameRegisters {
    /// A register set with the given values.
    pub fn new(bp: TaggedWord, sp: TaggedWord, ip: TaggedWord) -> (registers: FrameRegisters)
        ensures
            registers == (FrameRegisters { bp, sp, ip }),
    {
        FrameRegisters { bp, sp, ip }
    }

    /// The value of the register with the given DWARF number, if this set
    /// tracks it.
    pub open spec fn register(self, register_num: u16) -> Option<TaggedWord> {
        if register_num == BP {
            Some(self.bp)
        } else if register_num == SP {
            Some(self.sp)
        } else if register_num == IP {
            Some(self.ip)
        } else {
            None
        }
    }

    /// The value of the register with the given DWARF number; the error
    /// `UnknownRegister` where this set does not track it.
    pub fn get_register(&self, register_num: u16) -> (r: Result<TaggedWord, WalkError>)
        ensures
            r == match self.register(register_num) {
                Some(w) => Ok::<TaggedWord, WalkError>(w),
                None => Err(WalkError::UnknownRegister(register_num)),
            },
    {
        if register_num == BP {
            Ok(self.bp)
        } else if register_num == SP {
            Ok(self.sp)
        } else if register_num == IP {
            Ok(self.ip)
        } else {
            Err(WalkError::UnknownRegister(register_num))
        }
    }

    /// The address whose word is the canonical frame address of `row`, for
    /// the registers `self`.
    pub fn cfa_address(&self, row: &UnwindTableRow) -> (r: Result<usize, WalkError>)
        ensures
            r == cfa_location(*row, *self),
    {
        match row.cfa {
            CfaRule::Expression => Err(WalkError::UnsupportedRule),
            CfaRule::RegisterAndOffset { register, offset } => {
                match self.get_register(register) {
                    Err(e) => Err(e),
                    Ok(TaggedWord::Invalid) => Err(WalkError::InvalidTaggedWord),
                    Ok(TaggedWord::Valid(base)) => Ok(offset_address(base, offset)),
                }
            },
        }
    }

    /// The value that `rule` gives a register in the caller's frame, where
    /// `loaded` is what the read at the rule's location gave.
    pub fn apply_rule(
        &self,
        rule: RegisterRule,
        own: TaggedWord,
        cfa: usize,
        loaded: TaggedWord,
    ) -> (w: TaggedWord)
        ensures
            w == rule_outcome(rule, own, *self, cfa, loaded),
    {
        match rule {
            RegisterRule::Undefined => TaggedWord::Invalid,
            RegisterRule::Architectural => TaggedWord::Invalid,
            RegisterRule::SameValue => own,
            RegisterRule::Offset(_) => loaded,
            RegisterRule::ValOffset(n) => TaggedWord::Valid(offset_address(cfa, n)),
            RegisterRule::Register(r) => match self.get_register(r) {
                Ok(w) => w,
                Err(_) => TaggedWord::Invalid,
            },
            RegisterRule::Constant(c) => if c <= usize::MAX as u64 {
                TaggedWord::Valid(c as usize)
            } else {
                TaggedWord::Invalid
            },
            RegisterRule::Expression => TaggedWord::Invalid,
            RegisterRule::ValExpression => TaggedWord::Invalid,
        }
    }

    /// Evaluate the rule of one register: read the word that the rule points
    /// at, if it points at one, and apply the rule.
    pub fn eval_register_rule<Reader>(
        &self,
        rule: RegisterRule,
        own: TaggedWord,
        cfa: usize,
        reader: &Reader,
    ) -> (w: TaggedWord) where Reader: MemoryReader
        ensures
            rule_yields(rule, own, *self, cfa, *reader, w),
    {
        match rule {
            RegisterRule::Offset(n) => {
                let read = reader.read_offset(cfa, n);
                let ghost seen = read;
                let loaded = TaggedWord::from(read);
                assert(may_load(*reader, rule_location(rule, cfa), seen));
                self.apply_rule(rule, own, cfa, loaded)
            },
            _ => {
                assert(may_load(*reader, rule_location(rule, cfa), Ok(0)));
                self.apply_rule(rule, own, cfa, TaggedWord::Invalid)
            },
        }
    }
}

impl Registers for FrameRegisters {
    /// The registers of the caller's frame.
    ///
    /// The canonical frame address is the word read at the address that the
    /// row's CFA rule gives. The step fails where that rule cannot be
    /// followed, where the read fails, and where a tracked register has a rule
    /// given as an expression.
    fn from_unwind_table_row<Reader>(
        row: &UnwindTableRow,
        old_registers: &FrameRegisters,
        reader: &Reader,
    ) -> (result: Result<FrameRegisters, WalkError>) where Reader: MemoryReader
        ensures
            steps_to(*row, *old_registers, *reader, result),
    {
        let at = match old_registers.cfa_address(row) {
            Ok(at) => at,
            Err(e) => {
                return Err(e);
            },
        };
        let cfa = match reader.read(at) {
            Ok(cfa) => cfa,
            Err(e) => {
                return Err(e);
            },
        };
        if row.uses_expression() {
            return Err(WalkError::UnsupportedRule);
        }
        let bp = old_registers.eval_register_rule(row.bp, old_registers.bp, cfa, reader);
        let sp = old_registers.eval_register_rule(row.sp, old_registers.sp, cfa, reader);
        let ip = old_registers.eval_register_rule(row.ip, old_registers.ip, cfa, reader);
        Ok(FrameRegisters { bp, sp, ip })
    }

    fn bp(&self) -> (w: TaggedWord)
        ensures
            w == self.bp,
    {
        self.bp
    }

    fn sp(&self) -> (w: TaggedWord)
        ensures
            w == self.sp,
    {
        self.sp
    }

    fn ip(&self) -> (w: TaggedWord)
        ensures
            w == self.ip,
    {
        self.ip
    }
}

} // verus!
