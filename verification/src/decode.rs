//! The boundary to the `gimli` decoder.
//!
//! Decoding the bytes of an `.eh_frame` section is `gimli`'s work. This module
//! holds the values that `gimli` hands out, each behind a type that the rest
//! of the crate carries without looking inside, and one small function for
//! each `gimli` function that the crate calls. Those functions are marked
//! `external_body`: Verus takes their contracts on trust. The contracts speak
//! of what `gimli` returns through spec functions without a body, which give
//! those results a name and say nothing of their value.

use crate::error::WalkError;
use crate::registers::{BP, IP, SP};
use crate::rules::{CfaRule, RegisterRule, UnwindTableRow};
use gimli::UnwindSection;
use vstd::prelude::*;

verus! {

/// An `.eh_frame` section: its bytes, read in the byte order of the machine,
/// and the address that the section states for itself.
///
/// Holds a `gimli::EhFrame` over the bytes and the `gimli::BaseAddresses`
/// with that address.
#[verifier::external_body]
#[derive(Debug)]
pub struct EhFrameSection<'a> {
    section: gimli::EhFrame<gimli::EndianSlice<'a, gimli::NativeEndian>>,
    bases: gimli::BaseAddresses,
}

/// The position of a scan through the entries of a section.
///
/// Holds a `gimli::CfiEntriesIter` and the section that it scans.
#[verifier::external_body]
pub struct SectionEntries<'a> {
    entries: gimli::CfiEntriesIter<
        'a,
        gimli::EhFrame<gimli::EndianSlice<'a, gimli::NativeEndian>>,
        gimli::EndianSlice<'a, gimli::NativeEndian>,
    >,
    section: &'a EhFrameSection<'a>,
}

/// A frame descriptor of which only the header has been decoded.
///
/// Holds a `gimli::PartialFrameDescriptionEntry` and the section that it came
/// from.
#[verifier::external_body]
pub struct PartialDescriptor<'a> {
    partial: gimli::PartialFrameDescriptionEntry<
        'a,
        gimli::EhFrame<gimli::EndianSlice<'a, gimli::NativeEndian>>,
        gimli::EndianSlice<'a, gimli::NativeEndian>,
    >,
    section: &'a EhFrameSection<'a>,
}

/// An entry of a section: a record shared by many frame descriptors, or a
/// frame descriptor.
pub enum SectionEntry<'a> {
    /// A common information entry.
    Cie,
    /// A frame descriptor, still to be decoded in full.
    Fde(PartialDescriptor<'a>),
}

/// A decoded frame descriptor, with the section that it came from: all that
/// is needed to decode its rows.
///
/// Holds a `gimli::FrameDescriptionEntry`.
#[verifier::external_body]
#[derive(Debug)]
pub struct FrameDescriptor<'a> {
    fde: gimli::FrameDescriptionEntry<gimli::EndianSlice<'a, gimli::NativeEndian>>,
    section: &'a EhFrameSection<'a>,
}

/// The scratch state of the decoder, allocated once and used again for every
/// frame.
///
/// Holds a `gimli::UnwindContext`.
#[verifier::external_body]
#[derive(Debug)]
pub struct DecodeContext {
    context: gimli::UnwindContext<usize>,
}

/// The position of a scan through the rows of a frame descriptor.
///
/// Holds a `gimli::UnwindTable`, which borrows the scratch state.
#[verifier::external_body]
pub struct RowCursor<'a, 'c> {
    table: gimli::UnwindTable<'a, 'c, gimli::EndianSlice<'a, gimli::NativeEndian>>,
}

/// A row as the decoder holds it, borrowed from the scan that produced it.
///
/// Holds a reference to a `gimli::UnwindTableRow`.
#[verifier::external_body]
pub struct DecodedRow<'t> {
    row: &'t gimli::UnwindTableRow<usize>,
}

/// The bytes that a section was made of.
pub uninterp spec fn section_bytes(section: EhFrameSection<'_>) -> Seq<u8>;

/// The address that a section states for itself.
pub uninterp spec fn section_address(section: EhFrameSection<'_>) -> u64;

/// The frame descriptors that a section decodes into, in the order of the
/// section, up to its end or to the first entry that cannot be decoded.
pub uninterp spec fn section_descriptors(section: EhFrameSection<'_>) -> Seq<FrameDescriptor<'_>>;

/// Whether the decoding of a section stops on an error.
pub uninterp spec fn section_is_malformed(section: EhFrameSection<'_>) -> bool;

/// The number of entries that a scan of a section has still to yield.
pub uninterp spec fn entries_left(entries: SectionEntries<'_>) -> nat;

/// The frame descriptors that a scan of a section has still to yield.
pub uninterp spec fn pending_descriptors(entries: SectionEntries<'_>) -> Seq<FrameDescriptor<'_>>;

/// Whether a scan of a section stops on an error once its pending
/// descriptors are out.
pub uninterp spec fn pending_section_failure(entries: SectionEntries<'_>) -> bool;

/// The frame descriptor that a partial descriptor decodes into, if it can be
/// decoded.
pub uninterp spec fn parsed(partial: PartialDescriptor<'_>) -> Option<FrameDescriptor<'_>>;

/// The first address that a frame descriptor covers, before the load bias.
pub uninterp spec fn initial_address(descriptor: FrameDescriptor<'_>) -> u64;

/// The number of bytes of code that a frame descriptor covers.
pub uninterp spec fn address_range(descriptor: FrameDescriptor<'_>) -> u64;

/// The rows that a frame descriptor decodes into, in order, up to the end of
/// its program or to the first instruction that cannot be decoded. Each row
/// is given by its range, its CFA rule and the rules of the tracked registers.
pub uninterp spec fn descriptor_rows(descriptor: FrameDescriptor<'_>) -> Seq<UnwindTableRow>;

/// Whether the decoding of a frame descriptor's rows stops on an error.
pub uninterp spec fn descriptor_is_malformed(descriptor: FrameDescriptor<'_>) -> bool;

/// The rows that a scan has still to yield.
pub uninterp spec fn pending_rows(cursor: RowCursor<'_, '_>) -> Seq<UnwindTableRow>;

/// Whether a scan stops on an error once its pending rows are out.
pub uninterp spec fn pending_failure(cursor: RowCursor<'_, '_>) -> bool;

/// The first address that a decoded row applies to.
pub uninterp spec fn row_start_address(row: DecodedRow<'_>) -> u64;

/// The address at which a decoded row stops to apply.
pub uninterp spec fn row_end_address(row: DecodedRow<'_>) -> u64;

/// The CFA rule of a decoded row.
pub uninterp spec fn row_cfa(row: DecodedRow<'_>) -> CfaRule;

/// The rule that a decoded row holds for the register with the given number,
/// if it holds one.
pub uninterp spec fn row_register(row: DecodedRow<'_>, number: u16) -> Option<RegisterRule>;

/// The rule of a register in a row that may hold none for it: a register
/// without a rule is undefined.
pub open spec fn rule_or_undefined(rule: Option<RegisterRule>) -> RegisterRule {
    match rule {
        Some(rule) => rule,
        None => RegisterRule::Undefined,
    }
}

/// A decoded row as a plain value: its range, its CFA rule and the rules of
/// the tracked registers.
pub open spec fn row_of(row: DecodedRow<'_>) -> UnwindTableRow {
    UnwindTableRow {
        start_address: row_start_address(row),
        end_address: row_end_address(row),
        cfa: row_cfa(row),
        bp: rule_or_undefined(row_register(row, BP)),
        sp: rule_or_undefined(row_register(row, SP)),
        ip: rule_or_undefined(row_register(row, IP)),
    }
}

impl<'a> EhFrameSection<'a> {
    /// The section with the given bytes, which states the given address for
    /// itself. Nothing is decoded yet.
    pub fn new(bytes: &'a [u8], address: u64) -> (section: EhFrameSection<'a>)
        ensures
            section_bytes(section) == bytes@,
            section_address(section) == address,
    {
        section_new(bytes, address)
    }

    /// The frame descriptors of the section, in its order; the decoder's
    /// error where the section is malformed.
    pub fn descriptors(&'a self) -> (result: Result<Vec<FrameDescriptor<'a>>, WalkError>)
        ensures
            match result {
                Ok(descriptors) => descriptors@ == section_descriptors(*self)
                    && !section_is_malformed(*self),
                Err(e) => section_is_malformed(*self) && e is Gimli,
            },
    {
        let mut descriptors: Vec<FrameDescriptor<'a>> = Vec::new();
        let mut scan = section_entries(self);
        loop
            invariant
                pending_section_failure(scan) == section_is_malformed(*self),
                descriptors@ + pending_descriptors(scan) == section_descriptors(*self),
            decreases entries_left(scan),
        {
            match next_entry(&mut scan) {
                Err(e) => {
                    return Err(WalkError::Gimli(e));
                },
                Ok(None) => {
                    return Ok(descriptors);
                },
                Ok(Some(SectionEntry::Cie)) => {},
                Ok(Some(SectionEntry::Fde(partial))) => {
                    match parse_descriptor(&partial) {
                        Err(e) => {
                            return Err(WalkError::Gimli(e));
                        },
                        Ok(descriptor) => {
                            descriptors.push(descriptor);
                        },
                    }
                },
            }
        }
    }
}

/// Calls `gimli::EhFrame::new` on the bytes, with the byte order of the
/// machine, and `gimli::BaseAddresses::set_eh_frame` with the address. The
/// claim: the section is made of those bytes and states that address. Nothing
/// is decoded yet.
#[verifier::external_body]
pub(crate) fn section_new<'a>(bytes: &'a [u8], address: u64) -> (section: EhFrameSection<'a>)
    ensures
        section_bytes(section) == bytes@,
        section_address(section) == address,
{
    EhFrameSection {
        section: gimli::EhFrame::new(bytes, gimli::NativeEndian),
        bases: gimli::BaseAddresses::default().set_eh_frame(address),
    }
}

/// Calls `gimli::UnwindSection::entries`, which starts a scan at the first
/// entry of the section. The claim: the scan has the section's descriptors to
/// yield, and fails after them if and only if the section is malformed.
#[verifier::external_body]
pub(crate) fn section_entries<'a>(section: &'a EhFrameSection<'a>) -> (entries: SectionEntries<'a>)
    ensures
        pending_descriptors(entries) == section_descriptors(*section),
        pending_section_failure(entries) == section_is_malformed(*section),
{
    SectionEntries { entries: section.section.entries(&section.bases), section }
}

/// Calls `gimli::CfiEntriesIter::next`. The claims: a scan that yields an
/// entry has one entry fewer to yield, for the section is finite and every
/// entry takes some of its bytes. A shared record leaves the pending
/// descriptors as they are. A frame descriptor that can be decoded is the
/// first of the pending ones, and the rest stay pending; one that cannot be
/// decoded comes only where none is pending and the scan fails. The scan ends
/// with `None` where no descriptor is pending and it does not fail, and with
/// an error where none is pending and it fails.
#[verifier::external_body]
pub(crate) fn next_entry<'a>(entries: &mut SectionEntries<'a>) -> (next: Result<
    Option<SectionEntry<'a>>,
    gimli::Error,
>)
    ensures
        next matches Ok(Some(_)) ==> entries_left(*final(entries)) < entries_left(*old(entries)),
        match next {
            Ok(Some(SectionEntry::Cie)) => pending_descriptors(*final(entries))
                == pending_descriptors(*old(entries)) && pending_section_failure(*final(entries))
                == pending_section_failure(*old(entries)),
            Ok(Some(SectionEntry::Fde(partial))) => match parsed(partial) {
                Some(descriptor) => pending_descriptors(*old(entries)).len() > 0
                    && pending_descriptors(*old(entries))[0] == descriptor && pending_descriptors(
                    *final(entries),
                ) == pending_descriptors(*old(entries)).drop_first() && pending_section_failure(
                    *final(entries),
                ) == pending_section_failure(*old(entries)),
                None => pending_descriptors(*old(entries)).len() == 0 && pending_section_failure(
                    *old(entries),
                ),
            },
            Ok(None) => pending_descriptors(*old(entries)).len() == 0 && !pending_section_failure(
                *old(entries),
            ),
            Err(_) => pending_descriptors(*old(entries)).len() == 0 && pending_section_failure(
                *old(entries),
            ),
        },
{
    let section = entries.section;
    match entries.entries.next() {
        Ok(None) => Ok(None),
        Ok(Some(gimli::CieOrFde::Cie(_))) => Ok(Some(SectionEntry::Cie)),
        Ok(Some(gimli::CieOrFde::Fde(partial))) => Ok(
            Some(SectionEntry::Fde(PartialDescriptor { partial, section })),
        ),
        Err(e) => Err(e),
    }
}

/// Calls `gimli::PartialFrameDescriptionEntry::parse`, with
/// `gimli::UnwindSection::cie_from_offset` to find the shared record. The
/// claim: the outcome is that of the partial descriptor, the same each time.
#[verifier::external_body]
pub(crate) fn parse_descriptor<'a>(partial: &PartialDescriptor<'a>) -> (descriptor: Result<
    FrameDescriptor<'a>,
    gimli::Error,
>)
    ensures
        match descriptor {
            Ok(descriptor) => parsed(*partial) == Some(descriptor),
            Err(_) => parsed(*partial) is None,
        },
{
    match partial.partial.parse(gimli::EhFrame::cie_from_offset) {
        Ok(fde) => Ok(FrameDescriptor { fde, section: partial.section }),
        Err(e) => Err(e),
    }
}

impl<'a> Clone for FrameDescriptor<'a> {
    /// Calls `gimli::FrameDescriptionEntry::clone`. The claim: the copy is
    /// the descriptor over again.
    #[verifier::external_body]
    fn clone(&self) -> (copy: FrameDescriptor<'a>)
        ensures
            copy == *self,
    {
        FrameDescriptor { fde: self.fde.clone(), section: self.section }
    }
}

/// Calls `gimli::FrameDescriptionEntry::initial_address`. The claim: the
/// result is the descriptor's own first address.
#[verifier::external_body]
pub(crate) fn descriptor_start(descriptor: &FrameDescriptor<'_>) -> (address: u64)
    ensures
        address == initial_address(*descriptor),
{
    descriptor.fde.initial_address()
}

/// Calls `gimli::FrameDescriptionEntry::len`. The claim: the result is the
/// descriptor's own length.
#[verifier::external_body]
pub(crate) fn descriptor_len(descriptor: &FrameDescriptor<'_>) -> (len: u64)
    ensures
        len == address_range(*descriptor),
{
    descriptor.fde.len()
}

/// Calls `gimli::UnwindContext::new`, which allocates the scratch state.
#[verifier::external_body]
pub(crate) fn context_new() -> (context: DecodeContext) {
    DecodeContext { context: gimli::UnwindContext::new() }
}

/// Calls `gimli::FrameDescriptionEntry::rows`, which resets the context, runs
/// the initial instructions of the shared record and starts a scan of the
/// descriptor's rows. The claim: the scan has the descriptor's rows to yield,
/// and fails after them if and only if the descriptor is malformed; where the
/// call itself fails, the descriptor is malformed and has no rows.
#[verifier::external_body]
pub(crate) fn open_rows<'a, 'c>(
    descriptor: &FrameDescriptor<'a>,
    context: &'c mut DecodeContext,
) -> (cursor: Result<RowCursor<'a, 'c>, gimli::Error>)
    ensures
        match cursor {
            Ok(cursor) => pending_rows(cursor) == descriptor_rows(*descriptor) && pending_failure(
                cursor,
            ) == descriptor_is_malformed(*descriptor),
            Err(_) => descriptor_rows(*descriptor).len() == 0 && descriptor_is_malformed(
                *descriptor,
            ),
        },
{
    let section = descriptor.section;
    match descriptor.fde.rows(&section.section, &section.bases, &mut context.context) {
        Ok(table) => Ok(RowCursor { table }),
        Err(e) => Err(e),
    }
}

/// Calls `gimli::UnwindTable::next_row`. The claim: the row that comes out is
/// the first of the pending rows, and the rest stay pending; the scan ends
/// with `None` where no row is pending and it does not fail, and with an
/// error where no row is pending and it fails.
#[verifier::external_body]
pub(crate) fn next_row<'t>(cursor: &'t mut RowCursor<'_, '_>) -> (next: Result<
    Option<DecodedRow<'t>>,
    gimli::Error,
>)
    ensures
        match next {
            Ok(Some(row)) => pending_rows(*old(cursor)).len() > 0 && row_of(row) == pending_rows(
                *old(cursor),
            )[0] && pending_rows(*final(cursor)) == pending_rows(*old(cursor)).drop_first()
                && pending_failure(*final(cursor)) == pending_failure(*old(cursor)),
            Ok(None) => pending_rows(*old(cursor)).len() == 0 && !pending_failure(*old(cursor)),
            Err(_) => pending_rows(*old(cursor)).len() == 0 && pending_failure(*old(cursor)),
        },
{
    match cursor.table.next_row() {
        Ok(Some(row)) => Ok(Some(DecodedRow { row })),
        Ok(None) => Ok(None),
        Err(e) => Err(e),
    }
}

/// Calls `gimli::UnwindTableRow::start_address`.
#[verifier::external_body]
pub(crate) fn row_start(row: &DecodedRow<'_>) -> (address: u64)
    ensures
        address == row_start_address(*row),
{
    row.row.start_address()
}

/// Calls `gimli::UnwindTableRow::end_address`.
#[verifier::external_body]
pub(crate) fn row_end(row: &DecodedRow<'_>) -> (address: u64)
    ensures
        address == row_end_address(*row),
{
    row.row.end_address()
}

/// Calls `gimli::UnwindTableRow::cfa` and writes the rule as a plain value:
/// the register's number and the offset, or that it is an expression.
#[verifier::external_body]
pub(crate) fn row_cfa_rule(row: &DecodedRow<'_>) -> (rule: CfaRule)
    ensures
        rule == row_cfa(*row),
{
    match row.row.cfa() {
        gimli::CfaRule::RegisterAndOffset { register, offset } => CfaRule::RegisterAndOffset {
            register: register.0,
            offset: *offset,
        },
        gimli::CfaRule::Expression(_) => CfaRule::Expression,
    }
}

/// Calls `gimli::UnwindTableRow::register` and writes the rule as a plain
/// value, variant by variant; an expression is kept as the fact that it is
/// one.
#[verifier::external_body]
pub(crate) fn row_register_rule(row: &DecodedRow<'_>, number: u16) -> (rule: Option<RegisterRule>)
    ensures
        rule == row_register(*row, number),
{
    Some(match row.row.register(gimli::Register(number))? {
        gimli::RegisterRule::Undefined => RegisterRule::Undefined,
        gimli::RegisterRule::SameValue => RegisterRule::SameValue,
        gimli::RegisterRule::Offset(n) => RegisterRule::Offset(n),
        gimli::RegisterRule::ValOffset(n) => RegisterRule::ValOffset(n),
        gimli::RegisterRule::Register(r) => RegisterRule::Register(r.0),
        gimli::RegisterRule::Expression(_) => RegisterRule::Expression,
        gimli::RegisterRule::ValExpression(_) => RegisterRule::ValExpression,
        gimli::RegisterRule::Architectural => RegisterRule::Architectural,
        gimli::RegisterRule::Constant(c) => RegisterRule::Constant(c),
    })
}

/// A decoded row as a plain value.
pub(crate) fn plain_row(row: &DecodedRow<'_>) -> (plain: UnwindTableRow)
    ensures
        plain == row_of(*row),
{
    let bp = row_register_rule(row, BP);
    let sp = row_register_rule(row, SP);
    let ip = row_register_rule(row, IP);
    UnwindTableRow {
        start_address: row_start(row),
        end_address: row_end(row),
        cfa: row_cfa_rule(row),
        bp: undefined_if_absent(bp),
        sp: undefined_if_absent(sp),
        ip: undefined_if_absent(ip),
    }
}

/// The rule of a register in a row that may hold none for it.
pub(crate) fn undefined_if_absent(rule: Option<RegisterRule>) -> (r: RegisterRule)
    ensures
        r == rule_or_undefined(rule),
{
    match rule {
        Some(rule) => rule,
        None => RegisterRule::Undefined,
    }
}

} // verus!
