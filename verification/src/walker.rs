//! The walker: one step from a frame to its caller, and the walk that takes
//! step after step.

use crate::control::{AsStackWalkControl, StackWalkControl};
use crate::decode::{context_new, next_row, open_rows, plain_row};
use crate::decode::{descriptor_is_malformed, descriptor_rows, pending_failure, pending_rows};
use crate::decode::DecodeContext;
use crate::entry::{bias_address, biased, entry_for, lookup, sorted_by_start, UnwindEntry};
use crate::error::WalkError;
use crate::log::UnwindLogger;
use crate::options::Options;
use crate::reader::MemoryReader;
use crate::registers::{steps_to, FrameRegisters, Registers};
use crate::rules::UnwindTableRow;
use crate::tagged_word::TaggedWord;
use vstd::prelude::*;

verus! {

/// Whether a row applies to the address, in a module loaded with the given
/// bias: the row's range, moved by the bias, holds its start and not its end.
pub open spec fn row_covers(row: UnwindTableRow, bias: isize, addr: usize) -> bool {
    biased(row.start_address as int, bias) <= addr < biased(row.end_address as int, bias)
}

/// The index of the first row that applies to the address, if one does.
pub open spec fn first_covering(rows: Seq<UnwindTableRow>, bias: isize, addr: usize) -> Option<
    int,
>
    decreases rows.len(),
{
    if rows.len() == 0 {
        None
    } else if row_covers(rows[0], bias, addr) {
        Some(0)
    } else {
        match first_covering(rows.drop_first(), bias, addr) {
            Some(k) => Some(k + 1),
            None => None,
        }
    }
}

/// An index into the rows that are left is an index into all rows, once the
/// rows that are done are counted.
pub open spec fn later_by(found: Option<int>, done: int) -> Option<int> {
    match found {
        Some(k) => Some(k + done),
        None => None,
    }
}

/// Whether a scan of the entry's rows for the address `ip`, and the step by
/// the row that it finds, may end in `result`.
///
/// The scan takes the first row that applies to the address. Where no row
/// applies the step fails: with the decoder's error where the descriptor is
/// malformed, for want of unwind information where it is not.
pub open spec fn scans_to<Reader: MemoryReader>(
    entry: UnwindEntry<'_>,
    reader: Reader,
    registers: FrameRegisters,
    ip: usize,
    result: Result<FrameRegisters, WalkError>,
) -> bool {
    let rows = descriptor_rows(entry.descriptor());
    match first_covering(rows, entry.load_bias(), ip) {
        Some(k) => steps_to(rows[k], registers, reader, result),
        None => if descriptor_is_malformed(entry.descriptor()) {
            result matches Err(WalkError::Gimli(_))
        } else {
            result == Err::<FrameRegisters, WalkError>(WalkError::NoUnwindInfoForAddress(ip))
        },
    }
}

/// Whether one step from the given registers, over the given table and with
/// the given reader, may end in `result`.
///
/// A step needs the instruction pointer, looks it up in the table, scans the
/// rows of the entry that it finds and applies the first row that holds the
/// address.
pub open spec fn steps_over<Reader: MemoryReader>(
    entries: Seq<UnwindEntry<'_>>,
    reader: Reader,
    registers: FrameRegisters,
    result: Result<FrameRegisters, WalkError>,
) -> bool {
    match registers.ip {
        TaggedWord::Invalid => result == Err::<FrameRegisters, WalkError>(
            WalkError::InvalidTaggedWord,
        ),
        TaggedWord::Valid(ip) => match entry_for(entries, ip) {
            None => result == Err::<FrameRegisters, WalkError>(
                WalkError::NoUnwindInfoForAddress(ip),
            ),
            Some(i) => scans_to(entries[i], reader, registers, ip, result),
        },
    }
}

/// Whether a walk from `start` of at most `limit` steps, which hands each
/// frame to the callback `f`, may end in `result`.
///
/// There is a trace of frames, and the callback has given a verdict on each
/// of them. The trace begins with `start`. Each frame but the last got the
/// verdict to continue, and a step led from it to the next. The walk ends
/// with the last verdict where that verdict is to break or the limit is
/// reached, and with the error of the step from the last frame where that
/// step failed.
pub open spec fn walks_to<Reader: MemoryReader, F: FnMut(&FrameRegisters) -> T, T: AsStackWalkControl>(
    entries: Seq<UnwindEntry<'_>>,
    reader: Reader,
    f: F,
    start: FrameRegisters,
    limit: usize,
    result: Result<T, WalkError>,
) -> bool {
    exists|trace: Seq<FrameRegisters>, verdicts: Seq<T>|
        #![trigger follows_trace(entries, reader, f, start, trace, verdicts)]
        follows_trace(entries, reader, f, start, trace, verdicts) && trace.len() <= limit + 1
            && match result {
            Ok(verdict) => verdict == verdicts.last() && (verdict.control()
                == StackWalkControl::Break || trace.len() == limit + 1),
            Err(e) => verdicts.last().control() == StackWalkControl::Continue && trace.len()
                <= limit && steps_over(
                entries,
                reader,
                trace.last(),
                Err::<FrameRegisters, WalkError>(e),
            ),
        }
}

/// Whether `trace` holds the frames of a walk from `start` and `verdicts`
/// what the callback said of each: the callback was called on every frame,
/// `start` first, and each frame but the last got the verdict to continue and
/// was followed by the frame that a step from it gave.
pub open spec fn follows_trace<Reader: MemoryReader, F: FnMut(&FrameRegisters) -> T, T: AsStackWalkControl>(
    entries: Seq<UnwindEntry<'_>>,
    reader: Reader,
    f: F,
    start: FrameRegisters,
    trace: Seq<FrameRegisters>,
    verdicts: Seq<T>,
) -> bool {
    &&& trace.len() >= 1
    &&& trace.len() == verdicts.len()
    &&& trace[0] == start
    &&& forall|i: int| 0 <= i < trace.len() ==> call_ensures(f, (&trace[i],), #[trigger] verdicts[i])
    &&& forall|i: int|
        0 <= i < trace.len() - 1 ==> (#[trigger] verdicts[i]).control()
            == StackWalkControl::Continue
    &&& forall|i: int|
        0 <= i < trace.len() - 1 ==> steps_over(
            entries,
            reader,
            #[trigger] trace[i],
            Ok::<FrameRegisters, WalkError>(trace[i + 1]),
        )
}

/// A step from an address that no entry of the table covers fails for want of
/// unwind information for that address, whatever the reader holds.
pub proof fn lemma_step_without_entry<Reader: MemoryReader>(
    entries: Seq<UnwindEntry<'_>>,
    reader: Reader,
    registers: FrameRegisters,
    ip: usize,
    result: Result<FrameRegisters, WalkError>,
)
    requires
        registers.ip == TaggedWord::Valid(ip),
        entry_for(entries, ip) is None,
        steps_over(entries, reader, registers, result),
    ensures
        result == Err::<FrameRegisters, WalkError>(WalkError::NoUnwindInfoForAddress(ip)),
{
}

/// A walk calls the callback on the starting registers before it takes any
/// step. Where it may take no step, or where the callback asks to break at
/// the start, the walk ends with the callback's verdict on the starting
/// registers.
pub proof fn lemma_walk_begins_with_callback<
    Reader: MemoryReader,
    F: FnMut(&FrameRegisters) -> T,
    T: AsStackWalkControl,
>(
    entries: Seq<UnwindEntry<'_>>,
    reader: Reader,
    f: F,
    start: FrameRegisters,
    limit: usize,
    result: Result<T, WalkError>,
)
    requires
        walks_to(entries, reader, f, start, limit, result),
    ensures
        exists|verdict: T| call_ensures(f, (&start,), verdict),
        limit == 0 || (forall|verdict: T| #[trigger]
            call_ensures(f, (&start,), verdict) ==> verdict.control() == StackWalkControl::Break)
            ==> (result matches Ok(verdict) && call_ensures(f, (&start,), verdict)),
{
    let (trace, verdicts) = choose|trace: Seq<FrameRegisters>, verdicts: Seq<T>|
        #![trigger follows_trace(entries, reader, f, start, trace, verdicts)]
        follows_trace(entries, reader, f, start, trace, verdicts) && trace.len() <= limit + 1
            && match result {
            Ok(verdict) => verdict == verdicts.last() && (verdict.control()
                == StackWalkControl::Break || trace.len() == limit + 1),
            Err(e) => verdicts.last().control() == StackWalkControl::Continue && trace.len()
                <= limit && steps_over(
                entries,
                reader,
                trace.last(),
                Err::<FrameRegisters, WalkError>(e),
            ),
        };
    if forall|verdict: T| #[trigger]
        call_ensures(f, (&start,), verdict) ==> verdict.control() == StackWalkControl::Break {
        if trace.len() > 1 {
            assert(verdicts[0].control() == StackWalkControl::Continue);
        }
    }
}

/// A walk calls the callback once on each frame that it reaches: where it
/// ends with a verdict, that is the callback's verdict on a frame that the
/// steps before it led to, and it asks to break unless the limit is reached.
pub proof fn lemma_walk_ends_with_verdict<
    Reader: MemoryReader,
    F: FnMut(&FrameRegisters) -> T,
    T: AsStackWalkControl,
>(
    entries: Seq<UnwindEntry<'_>>,
    reader: Reader,
    f: F,
    start: FrameRegisters,
    limit: usize,
    verdict: T,
)
    requires
        walks_to(entries, reader, f, start, limit, Ok::<T, WalkError>(verdict)),
    ensures
        exists|trace: Seq<FrameRegisters>, verdicts: Seq<T>|
            #![trigger follows_trace(entries, reader, f, start, trace, verdicts)]
            follows_trace(entries, reader, f, start, trace, verdicts) && call_ensures(
                f,
                (&trace.last(),),
                verdict,
            ) && (verdict.control() == StackWalkControl::Break || trace.len() == limit + 1),
{
    let (trace, verdicts) = choose|trace: Seq<FrameRegisters>, verdicts: Seq<T>|
        #![trigger follows_trace(entries, reader, f, start, trace, verdicts)]
        follows_trace(entries, reader, f, start, trace, verdicts) && trace.len() <= limit + 1
            && verdict == verdicts.last() && (verdict.control() == StackWalkControl::Break
            || trace.len() == limit + 1);
}

/// Scan the rows of an entry for the first that applies to the address `ip`,
/// and take the step that the row describes.
pub fn scan_rows<Reader>(
    entry: &UnwindEntry<'_>,
    context: &mut DecodeContext,
    registers: &FrameRegisters,
    ip: usize,
    reader: &Reader,
) -> (result: Result<FrameRegisters, WalkError>) where Reader: MemoryReader
    ensures
        scans_to(*entry, *reader, *registers, ip, result),
{
    let bias = entry.bias();
    let ghost all = descriptor_rows(entry.descriptor());
    let mut cursor = match open_rows(entry.fde(), context) {
        Ok(cursor) => cursor,
        Err(e) => {
            return Err(WalkError::Gimli(e));
        },
    };
    let ghost mut done: int = 0;
    loop
        invariant
            0 <= done <= all.len(),
            all == descriptor_rows(entry.descriptor()),
            bias == entry.load_bias(),
            pending_rows(cursor) == all.skip(done),
            pending_failure(cursor) == descriptor_is_malformed(entry.descriptor()),
            first_covering(all, bias, ip) == later_by(
                first_covering(pending_rows(cursor), bias, ip),
                done,
            ),
        decreases pending_rows(cursor).len(),
    {
        match next_row(&mut cursor) {
            Err(e) => {
                return Err(WalkError::Gimli(e));
            },
            Ok(None) => {
                return Err(WalkError::NoUnwindInfoForAddress(ip));
            },
            Ok(Some(decoded)) => {
                let row = plain_row(&decoded);
                if bias_address(row.start_address, bias) <= ip && ip < bias_address(
                    row.end_address,
                    bias,
                ) {
                    return FrameRegisters::from_unwind_table_row(&row, registers, reader);
                }
                proof {
                    done = done + 1;
                }
            },
        }
    }
}

/// A `Walker` traverses frames that make up a native stack.
///
/// It holds the table of entries, sorted, the reader, the logger and the
/// decoder's scratch state. A step allocates nothing: the scratch state was
/// allocated when the walker was built, and each step takes it out, uses it
/// and puts it back.
#[derive(Debug)]
pub struct Walker<'a, Reader, Logger> where Reader: MemoryReader, Logger: UnwindLogger {
    opts: Options<'a>,
    reader: Reader,
    logger: Logger,
    ctx: Option<DecodeContext>,
}

impl<'a, Reader, Logger> Walker<'a, Reader, Logger> where
    Reader: MemoryReader,
    Logger: UnwindLogger,
 {
    /// The configuration that the walker was built from, with its entries
    /// sorted.
    pub closed spec fn options(&self) -> Options<'a> {
        self.opts
    }

    /// The reader of the walker.
    pub closed spec fn reader(&self) -> Reader {
        self.reader
    }

    /// The logger of the walker.
    pub closed spec fn logger(&self) -> Logger {
        self.logger
    }

    /// The table of the walker.
    pub open spec fn entries(&self) -> Seq<UnwindEntry<'a>> {
        self.options().entries()
    }

    /// Whether the walker holds the decoder's scratch state.
    pub closed spec fn holds_context(&self) -> bool {
        self.ctx is Some
    }

    /// The walker is configured: it holds its scratch state, and its table is
    /// sorted by start.
    pub open spec fn wf(&self) -> bool {
        self.holds_context() && sorted_by_start(self.entries())
    }

    /// A walker over the given options, whose entries are sorted.
    pub(crate) fn configured(opts: Options<'a>, reader: Reader, logger: Logger) -> (walker: Self)
        requires
            sorted_by_start(opts.entries()),
        ensures
            walker.wf(),
            walker.options() == opts,
            walker.reader() == reader,
            walker.logger() == logger,
    {
        Walker { opts, reader, logger, ctx: Some(context_new()) }
    }

    /// Reconfigure this `Walker`.
    ///
    /// Turn this `Walker` back into an `Options` and perform new
    /// configuration, after which `Options::build_with_reader_logger` may be
    /// invoked to reconstruct a `Walker` with the new configuration.
    pub fn reconfigure(self) -> (parts: (Options<'a>, Reader, Logger))
        ensures
            parts.0 == self.options(),
            parts.1 == self.reader(),
            parts.2 == self.logger(),
    {
        (self.opts, self.reader, self.logger)
    }

    /// Walk a single physical frame: from the registers of a frame to those
    /// of its caller.
    ///
    /// Whatever the outcome, the walker is configured afterwards as it was
    /// before, and can take another step.
    pub fn walk_one(&mut self, start_regs: &FrameRegisters) -> (result: Result<
        FrameRegisters,
        WalkError,
    >)
        requires
            old(self).wf(),
        ensures
            final(self).wf(),
            final(self).options() == old(self).options(),
            final(self).reader() == old(self).reader(),
            final(self).logger() == old(self).logger(),
            steps_over(old(self).entries(), old(self).reader(), *start_regs, result),
    {
        let ip = match start_regs.ip() {
            TaggedWord::Valid(ip) => ip,
            TaggedWord::Invalid => {
                return Err(WalkError::InvalidTaggedWord);
            },
        };
        let idx = match lookup(self.opts.table(), ip) {
            Some(idx) => idx,
            None => {
                return Err(WalkError::NoUnwindInfoForAddress(ip));
            },
        };
        let mut ctx = self.ctx.take().unwrap();
        let result = scan_rows(&self.opts.table()[idx], &mut ctx, start_regs, ip, &self.reader);
        self.ctx = Some(ctx);
        result
    }

    /// Keep walking until `f` asks us to halt, a step fails, or `limit` steps
    /// are taken.
    ///
    /// `f` is called on the starting registers first, before any step, and
    /// then on the registers of each frame that a step recovers. The return
    /// value is the `T` that the last invocation of `f` returned, or the
    /// error of the step that failed. A failed step ends the walk: what lies
    /// above a frame is known only through that frame.
    #[verifier::loop_isolation(false)]
    pub fn walk_at_most<F, T>(
        &mut self,
        start_registers: &FrameRegisters,
        f: F,
        limit: usize,
    ) -> (result: Result<T, WalkError>) where F: FnMut(&FrameRegisters) -> T, T: AsStackWalkControl
        requires
            old(self).wf(),
            forall|registers: FrameRegisters| call_requires(f, (&registers,)),
        ensures
            final(self).wf(),
            final(self).options() == old(self).options(),
            final(self).reader() == old(self).reader(),
            final(self).logger() == old(self).logger(),
            walks_to(old(self).entries(), old(self).reader(), f, *start_registers, limit, result),
    {
        let mut f = f;
        let ghost f0 = f;
        let ghost entries = self.entries();
        let ghost reader = self.reader();
        let mut registers = *start_registers;
        let mut verdict = f(&registers);
        let ghost mut trace = seq![registers];
        let ghost mut verdicts = seq![verdict];
        let mut steps: usize = 0;
        while steps < limit && verdict.as_stack_walk_control() == StackWalkControl::Continue
            invariant
                self.wf(),
                self.options() == old(self).options(),
                self.reader() == old(self).reader(),
                self.logger() == old(self).logger(),
                entries == old(self).entries(),
                reader == old(self).reader(),
                f == f0,
                forall|registers: FrameRegisters| call_requires(f, (&registers,)),
                steps <= limit,
                trace.len() == steps + 1,
                trace.last() == registers,
                verdicts.last() == verdict,
                follows_trace(entries, reader, f0, *start_registers, trace, verdicts),
            decreases limit - steps,
        {
            registers = match self.walk_one(&registers) {
                Ok(next) => next,
                Err(e) => {
                    return Err(e);
                },
            };
            verdict = f(&registers);
            steps = steps + 1;
            proof {
                trace = trace.push(registers);
                verdicts = verdicts.push(verdict);
            }
        }
        Ok(verdict)
    }

    /// Keep walking until we've walked the whole stack, or `f` asks us to
    /// halt walking.
    ///
    /// The return value is either the `T` returned in the last invocation of
    /// `f`, where that asks to break or `usize::MAX` steps are taken, or the
    /// error of the step that failed: for want of unwind information at the
    /// oldest frame of a stack.
    pub fn walk<F, T>(&mut self, start_registers: &FrameRegisters, f: F) -> (result: Result<
        T,
        WalkError,
    >) where F: FnMut(&FrameRegisters) -> T, T: AsStackWalkControl
        requires
            old(self).wf(),
            forall|registers: FrameRegisters| call_requires(f, (&registers,)),
        ensures
            final(self).wf(),
            final(self).options() == old(self).options(),
            final(self).reader() == old(self).reader(),
            final(self).logger() == old(self).logger(),
            walks_to(
                old(self).entries(),
                old(self).reader(),
                f,
                *start_registers,
                usize::MAX,
                result,
            ),
    {
        self.walk_at_most(start_registers, f, usize::MAX)
    }
}

} // verus!
