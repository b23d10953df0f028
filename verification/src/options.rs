//! The configuration of a `Walker`.

use crate::decode::{entries_left, pending_descriptors, pending_section_failure};
use crate::decode::{next_entry, parse_descriptor, section_entries};
use crate::decode::{section_descriptors, section_is_malformed};
use crate::decode::{EhFrameSection, FrameDescriptor, SectionEntry};
use crate::entry::UnwindEntry;
use crate::error::WalkError;
use crate::log::UnwindLogger;
use crate::reader::MemoryReader;
use crate::sort::{keeps_order_of_equals, sort_by_start};
use crate::walker::Walker;
use vstd::prelude::*;

verus! {

/// A configuration options builder for a `Walker`.
#[derive(Debug)]
pub struct Options<'a> {
    entries: Vec<UnwindEntry<'a>>,
}

/// Whether `after` is `before` with one entry added at its end for each of
/// the descriptors, in their order: the entry of that descriptor for a module
/// loaded with the given bias.
pub open spec fn extended_by(
    before: Seq<UnwindEntry<'_>>,
    after: Seq<UnwindEntry<'_>>,
    descriptors: Seq<FrameDescriptor<'_>>,
    bias: isize,
) -> bool {
    &&& after.len() == before.len() + descriptors.len()
    &&& after.subrange(0, before.len() as int) == before
    &&& forall|i: int|
        0 <= i < descriptors.len() ==> {
            let entry = #[trigger] after[before.len() + i];
            entry.wf() && entry.load_bias() == bias && entry.descriptor() == descriptors[i]
        }
}

impl<'a> Default for Options<'a> {
    fn default() -> (options: Options<'a>)
        ensures
            options.entries() == Seq::<UnwindEntry<'a>>::empty(),
    {
        Options { entries: Vec::new() }
    }
}

impl<'a> Clone for Options<'a> {
    fn clone(&self) -> (copy: Options<'a>)
        ensures
            copy.entries() == self.entries(),
    {
        let mut entries: Vec<UnwindEntry<'a>> = Vec::new();
        let mut i: usize = 0;
        while i < self.entries.len()
            invariant
                i <= self.entries.len(),
                entries@ == self.entries@.take(i as int),
            decreases self.entries.len() - i,
        {
            entries.push(self.entries[i].clone());
            i = i + 1;
        }
        Options { entries }
    }
}

impl<'a> Options<'a> {
    /// The entries added so far, in the order in which they were added.
    pub closed spec fn entries(&self) -> Seq<UnwindEntry<'a>> {
        self.entries@
    }

    /// Construct a new `Options` to start configuring stack walking options.
    pub fn new() -> (options: Options<'a>)
        ensures
            options.entries() == Seq::<UnwindEntry<'a>>::empty(),
    {
        Options { entries: Vec::new() }
    }

    /// The entries added so far.
    pub fn table(&self) -> (table: &Vec<UnwindEntry<'a>>)
        ensures
            table@ == self.entries(),
    {
        &self.entries
    }

    /// Add a single entry.
    pub fn add_entry(&mut self, entry: UnwindEntry<'a>) -> (this: &mut Self)
        ensures
            this.entries() == old(self).entries().push(entry),
            *final(self) == *final(this),
    {
        self.entries.push(entry);
        self
    }

    /// Add many entries, in their order.
    pub fn add_entries(&mut self, entries: Vec<UnwindEntry<'a>>) -> (this: &mut Self)
        ensures
            this.entries() == old(self).entries() + entries@,
            *final(self) == *final(this),
    {
        let mut entries = entries;
        self.entries.append(&mut entries);
        self
    }

    /// Create entries from the information in the given `.eh_frame` section,
    /// and add them to the builder.
    ///
    /// `bias` is the difference between the addresses that the module of the
    /// section states and those at which it is loaded. One entry is added for
    /// each frame descriptor that the section decodes into, in the order of
    /// the section. Where the decoder fails, its error is returned, and the
    /// entries made up to there stay.
    pub fn add_entries_from_eh_frame(&mut self, bias: isize, section: &'a EhFrameSection<'a>) -> (result:
        Result<&mut Self, WalkError>)
        ensures
            result is Err <==> section_is_malformed(*section),
            match result {
                Ok(this) => extended_by(
                    old(self).entries(),
                    this.entries(),
                    section_descriptors(*section),
                    bias,
                ) && *final(self) == *final(this),
                Err(e) => extended_by(
                    old(self).entries(),
                    final(self).entries(),
                    section_descriptors(*section),
                    bias,
                ) && e is Gimli,
            },
    {
        let mut scan = section_entries(section);
        let ghost all = section_descriptors(*section);
        let ghost mut done: int = 0;
        assert(self.entries().subrange(0, self.entries().len() as int) =~= self.entries());
        loop
            invariant
                0 <= done <= all.len(),
                all == section_descriptors(*section),
                pending_descriptors(scan) == all.skip(done),
                pending_section_failure(scan) == section_is_malformed(*section),
                extended_by(old(self).entries(), self.entries(), all.take(done), bias),
            decreases entries_left(scan),
        {
            match next_entry(&mut scan) {
                Err(e) => {
                    return Err(WalkError::Gimli(e));
                },
                Ok(None) => {
                    return Ok(self);
                },
                Ok(Some(SectionEntry::Cie)) => {},
                Ok(Some(SectionEntry::Fde(partial))) => {
                    match parse_descriptor(&partial) {
                        Err(e) => {
                            return Err(WalkError::Gimli(e));
                        },
                        Ok(fde) => {
                            let entry = UnwindEntry::new(bias, fde);
                            let ghost before = self.entries();
                            self.entries.push(entry);
                            proof {
                                assert(self.entries().subrange(
                                    0,
                                    old(self).entries().len() as int,
                                ) =~= before.subrange(0, old(self).entries().len() as int));
                                done = done + 1;
                            }
                        },
                    }
                },
            }
        }
    }

    /// Clear all entries.
    pub fn clear_entries(&mut self) -> (this: &mut Self)
        ensures
            this.entries() == Seq::<UnwindEntry<'a>>::empty(),
            *final(self) == *final(this),
    {
        self.entries.clear();
        self
    }

    /// Finish configuring unwinding and create the `Walker` object with the
    /// configured options, the given reader and the given logger.
    ///
    /// The entries are sorted by the start of their ranges: the walker holds
    /// those that were added, each as often as it was added, in that order,
    /// and those with the same start in the order in which they were added.
    pub fn build_with_reader_logger<Reader, Logger>(self, reader: Reader, logger: Logger) -> (walker:
        Walker<'a, Reader, Logger>) where Reader: MemoryReader, Logger: UnwindLogger
        ensures
            walker.wf(),
            walker.entries().to_multiset() == self.entries().to_multiset(),
            keeps_order_of_equals(self.entries(), walker.entries()),
            walker.reader() == reader,
            walker.logger() == logger,
    {
        let entries = sort_by_start(self.entries);
        Walker::configured(Options { entries }, reader, logger)
    }
}

} // verus!
