//! The table of unwind entries: address ranges sorted by their start, each
//! with the frame descriptor that covers it.

use crate::decode::{address_range, descriptor_len, descriptor_start, initial_address};
use crate::decode::FrameDescriptor;
use crate::tagged_word::{wrap, wrap_word};
use vstd::prelude::*;

verus! {

/// The address at run time of a decoded address, for a module loaded with the
/// given bias: their sum, wrapped to the width of a word.
pub open spec fn biased(address: int, bias: isize) -> usize {
    wrap(address + bias)
}

/// The address at run time of a decoded address.
pub fn bias_address(address: u64, bias: isize) -> (r: usize)
    ensures
        r == biased(address as int, bias),
{
    wrap_word(address as i128 + bias as i128)
}

/// Unwinding information for a particular address range.
///
/// The range is half open: it holds its start and does not hold its end. It
/// is fixed by the descriptor and the bias when the entry is made.
#[derive(Debug)]
pub struct UnwindEntry<'a> {
    start: usize,
    end: usize,
    bias: isize,
    fde: FrameDescriptor<'a>,
}

impl<'a> UnwindEntry<'a> {
    /// The first address of the range.
    pub closed spec fn range_start(&self) -> usize {
        self.start
    }

    /// The address that ends the range, which the range does not hold.
    pub closed spec fn range_end(&self) -> usize {
        self.end
    }

    /// The load bias of the module that the entry came from.
    pub closed spec fn load_bias(&self) -> isize {
        self.bias
    }

    /// The frame descriptor of the entry.
    pub closed spec fn descriptor(&self) -> FrameDescriptor<'a> {
        self.fde
    }

    /// Whether the range holds the address.
    pub open spec fn covers(&self, addr: usize) -> bool {
        self.range_start() <= addr < self.range_end()
    }

    /// The range of an entry is the range of its descriptor, moved by the
    /// bias.
    pub open spec fn wf(&self) -> bool {
        &&& self.range_start() == biased(initial_address(self.descriptor()) as int, self.load_bias())
        &&& self.range_end() == biased(
            initial_address(self.descriptor()) + address_range(self.descriptor()),
            self.load_bias(),
        )
    }

    /// The entry for a frame descriptor of a module loaded with the given
    /// bias. Its range runs from the descriptor's first address to that
    /// address plus the descriptor's length, both moved by the bias.
    pub fn new(bias: isize, fde: FrameDescriptor<'a>) -> (entry: UnwindEntry<'a>)
        ensures
            entry.wf(),
            entry.load_bias() == bias,
            entry.descriptor() == fde,
    {
        let first = descriptor_start(&fde);
        let len = descriptor_len(&fde);
        let start = wrap_word(first as i128 + bias as i128);
        let end = wrap_word(first as i128 + len as i128 + bias as i128);
        UnwindEntry { start, end, bias, fde }
    }

    /// The first address of the range.
    pub fn start(&self) -> (a: usize)
        ensures
            a == self.range_start(),
    {
        self.start
    }

    /// The address that ends the range.
    pub fn end(&self) -> (a: usize)
        ensures
            a == self.range_end(),
    {
        self.end
    }

    /// The load bias of the module that the entry came from.
    pub fn bias(&self) -> (b: isize)
        ensures
            b == self.load_bias(),
    {
        self.bias
    }

    /// The frame descriptor of the entry.
    pub fn fde(&self) -> (d: &FrameDescriptor<'a>)
        ensures
            *d == self.descriptor(),
    {
        &self.fde
    }

    /// Whether the range holds the address.
    pub fn contains(&self, addr: usize) -> (b: bool)
        ensures
            b == self.covers(addr),
    {
        self.start <= addr && addr < self.end
    }
}

impl<'a> Clone for UnwindEntry<'a> {
    fn clone(&self) -> (copy: UnwindEntry<'a>)
        ensures
            copy == *self,
    {
        UnwindEntry { start: self.start, end: self.end, bias: self.bias, fde: self.fde.clone() }
    }
}

/// Whether the entries come in the order of their starts.
pub open spec fn sorted_by_start(entries: Seq<UnwindEntry<'_>>) -> bool {
    forall|i: int, j: int|
        0 <= i <= j < entries.len() ==> entries[i].range_start() <= entries[j].range_start()
}

/// Whether no range starts before an earlier one has ended.
pub open spec fn disjoint(entries: Seq<UnwindEntry<'_>>) -> bool {
    forall|i: int, j: int|
        0 <= i < j < entries.len() ==> entries[i].range_end() <= entries[j].range_start()
}

/// Whether entry `i` is the last that starts at or before the address.
pub open spec fn last_at_or_before(entries: Seq<UnwindEntry<'_>>, i: int, addr: usize) -> bool {
    &&& 0 <= i < entries.len()
    &&& entries[i].range_start() <= addr
    &&& forall|j: int| i < j < entries.len() ==> addr < #[trigger] entries[j].range_start()
}

/// Whether a lookup of the address finds entry `i`: the last entry that
/// starts at or before the address, where its range holds the address.
pub open spec fn found_at(entries: Seq<UnwindEntry<'_>>, i: int, addr: usize) -> bool {
    last_at_or_before(entries, i, addr) && addr < entries[i].range_end()
}

/// The entry that a lookup of the address finds, if it finds one.
///
/// In a table sorted by start a lookup goes to the last entry that starts at
/// or before the address, and finds it where its range holds the address.
pub open spec fn entry_for(entries: Seq<UnwindEntry<'_>>, addr: usize) -> Option<int> {
    if exists|i: int| found_at(entries, i, addr) {
        Some(choose|i: int| found_at(entries, i, addr))
    } else {
        None
    }
}

/// No two entries are the last to start at or before an address.
pub proof fn lemma_last_is_unique(entries: Seq<UnwindEntry<'_>>, i: int, j: int, addr: usize)
    requires
        last_at_or_before(entries, i, addr),
        last_at_or_before(entries, j, addr),
    ensures
        i == j,
{
}

/// A lookup finds the entry that is the last to start at or before the
/// address and holds it, and no other.
pub proof fn lemma_entry_for_found(entries: Seq<UnwindEntry<'_>>, i: int, addr: usize)
    requires
        found_at(entries, i, addr),
    ensures
        entry_for(entries, addr) == Some(i),
{
    let k = choose|k: int| found_at(entries, k, addr);
    lemma_last_is_unique(entries, i, k, addr);
}

/// A lookup finds nothing where the last entry that starts at or before the
/// address ends at or before it, and where no entry starts at or before it.
pub proof fn lemma_entry_for_missing(entries: Seq<UnwindEntry<'_>>, addr: usize)
    requires
        forall|i: int| last_at_or_before(entries, i, addr) ==> entries[i].range_end() <= addr,
    ensures
        entry_for(entries, addr) is None,
{
}

/// In a table of disjoint ranges that is sorted by start, a lookup finds the
/// entry whose range holds the address, whichever it is, and finds no entry
/// for an address that lies in no range.
pub proof fn lemma_lookup_is_exact(entries: Seq<UnwindEntry<'_>>, addr: usize)
    requires
        sorted_by_start(entries),
        disjoint(entries),
    ensures
        forall|i: int|
            0 <= i < entries.len() && #[trigger] entries[i].covers(addr) ==> entry_for(
                entries,
                addr,
            ) == Some(i),
        (forall|i: int| 0 <= i < entries.len() ==> !#[trigger] entries[i].covers(addr))
            ==> entry_for(entries, addr) is None,
{
    assert forall|i: int| 0 <= i < entries.len() && #[trigger] entries[i].covers(addr) implies entry_for(
        entries,
        addr,
    ) == Some(i) by {
        assert forall|j: int| i < j < entries.len() implies addr < #[trigger] entries[j].range_start() by {
            assert(entries[i].range_end() <= entries[j].range_start());
        }
        lemma_entry_for_found(entries, i, addr);
    }
    if forall|i: int| 0 <= i < entries.len() ==> !#[trigger] entries[i].covers(addr) {
        if exists|i: int| found_at(entries, i, addr) {
            let k = choose|k: int| found_at(entries, k, addr);
            assert(entries[k].covers(addr));
        }
    }
}

/// Look the address up in a table that is sorted by start.
///
/// A binary search goes to the last entry that starts at or before the
/// address. The entry is found where its range holds the address.
pub fn lookup(entries: &Vec<UnwindEntry<'_>>, addr: usize) -> (found: Option<usize>)
    requires
        sorted_by_start(entries@),
    ensures
        match found {
            Some(i) => entry_for(entries@, addr) == Some(i as int) && i < entries.len()
                && entries[i as int].covers(addr),
            None => entry_for(entries@, addr) is None,
        },
{
    let mut lo: usize = 0;
    let mut hi: usize = entries.len();
    while lo < hi
        invariant
            lo <= hi <= entries.len(),
            sorted_by_start(entries@),
            forall|i: int| 0 <= i < lo ==> #[trigger] entries[i].range_start() <= addr,
            forall|i: int| hi <= i < entries.len() ==> addr < #[trigger] entries[i].range_start(),
        decreases hi - lo,
    {
        let mid = lo + (hi - lo) / 2;
        if entries[mid].start() <= addr {
            lo = mid + 1;
        } else {
            hi = mid;
        }
    }
    if lo == 0 {
        proof {
            lemma_entry_for_missing(entries@, addr);
        }
        None
    } else if entries[lo - 1].contains(addr) {
        proof {
            lemma_entry_for_found(entries@, lo - 1, addr);
        }
        Some(lo - 1)
    } else {
        proof {
            assert forall|i: int| last_at_or_before(entries@, i, addr) implies entries[i].range_end()
                <= addr by {
                lemma_last_is_unique(entries@, i, lo - 1, addr);
            }
            lemma_entry_for_missing(entries@, addr);
        }
        None
    }
}

} // verus!
