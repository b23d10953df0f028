use gimli::write::{
    Address, CallFrameInstruction, CommonInformationEntry, EhFrame, EndianVec,
    FrameDescriptionEntry, FrameTable,
};
use gimli::{Encoding, Format, NativeEndian, Register};
use pancakes::entry::lookup;
use pancakes::log::IgnoreLogs;
use pancakes::registers::{BP, IP, SP};
use pancakes::sort::{merge, reverse, sort_by_start};
use pancakes::UnwindEntry;
use pancakes::{
    CfaRule, EhFrameSection, FrameRegisters, MemoryReader, Options, RegisterRule, Registers, StackWalkControl,
    TaggedWord, UnwindTableRow, WalkError, Walker,
};
use std::cell::Cell;

/// A function for the synthetic sections: its range and its instructions,
/// each at an offset from the start of the function.
struct Function {
    start: u64,
    len: u32,
    instructions: Vec<(u32, CallFrameInstruction)>,
}

/// The bytes of an `.eh_frame` section that describes the given functions.
fn section_bytes(functions: &[Function]) -> Vec<u8> {
    let encoding = Encoding {
        format: Format::Dwarf32,
        version: 1,
        address_size: 8,
    };
    let mut table = FrameTable::default();
    let cie = table.add_cie(CommonInformationEntry::new(encoding, 1, -8, Register(IP)));
    for function in functions {
        let mut fde = FrameDescriptionEntry::new(Address::Constant(function.start), function.len);
        for (offset, instruction) in &function.instructions {
            fde.add_instruction(*offset, instruction.clone());
        }
        table.add_fde(cie, fde);
    }
    let mut out = EhFrame(EndianVec::new(NativeEndian));
    table.write_eh_frame(&mut out).unwrap();
    out.0.into_vec()
}

/// A function whose frame saves the caller's registers below the canonical
/// frame address, which is the word that the stack pointer points at.
fn saving_function(start: u64, len: u32) -> Function {
    Function {
        start,
        len,
        instructions: vec![
            (0, CallFrameInstruction::Cfa(Register(SP), 0)),
            (0, CallFrameInstruction::Offset(Register(IP), -8)),
            (0, CallFrameInstruction::Offset(Register(SP), -16)),
            (0, CallFrameInstruction::Offset(Register(BP), -24)),
        ],
    }
}

/// A reader over a few words of memory. A read of any other address fails.
/// It counts its reads.
#[derive(Debug)]
struct Memory {
    words: Vec<(usize, usize)>,
    reads: Cell<usize>,
}

impl Memory {
    fn new(words: Vec<(usize, usize)>) -> Memory {
        Memory {
            words,
            reads: Cell::new(0),
        }
    }
}

impl MemoryReader for Memory {
    fn read(&self, addr: usize) -> Result<usize, WalkError> {
        self.reads.set(self.reads.get() + 1);
        for (at, word) in &self.words {
            if *at == addr {
                return Ok(*word);
            }
        }
        Err(WalkError::NoUnwindInfoForAddress(addr))
    }
}

fn registers(bp: usize, sp: usize, ip: usize) -> FrameRegisters {
    FrameRegisters::new(
        TaggedWord::valid(bp),
        TaggedWord::valid(sp),
        TaggedWord::valid(ip),
    )
}

fn walker_over<'a>(
    section: &'a EhFrameSection<'a>,
    bias: isize,
    memory: Memory,
) -> Walker<'a, Memory, IgnoreLogs> {
    let mut options = Options::new();
    options
        .add_entries_from_eh_frame(bias, section)
        .expect("the section decodes");
    options.build_with_reader_logger(memory, IgnoreLogs)
}

#[test]
fn lookup_finds_the_entry_of_each_range_and_nothing_in_a_gap() {
    let bytes = section_bytes(&[
        saving_function(0x1000, 0x100),
        saving_function(0x2000, 0x80),
        saving_function(0x2080, 0x80),
        saving_function(0x5000, 0x10),
    ]);
    let mut options = Options::new();
    let section = EhFrameSection::new(&bytes, 0);
    options.add_entries_from_eh_frame(0, &section).unwrap();
    let table = options.table();
    assert_eq!(table.len(), 4);

    assert_eq!(lookup(table, 0x1000), Some(0));
    assert_eq!(lookup(table, 0x1050), Some(0));
    assert_eq!(lookup(table, 0x10ff), Some(0));
    assert_eq!(lookup(table, 0x2001), Some(1));
    assert_eq!(lookup(table, 0x207f), Some(1));
    assert_eq!(lookup(table, 0x2081), Some(2));
    assert_eq!(lookup(table, 0x5008), Some(3));

    assert_eq!(lookup(table, 0), None);
    assert_eq!(lookup(table, 0xfff), None);
    assert_eq!(lookup(table, 0x1800), None);
    assert_eq!(lookup(table, 0x3000), None);
    assert_eq!(lookup(table, 0x6000), None);
    assert_eq!(lookup(table, usize::MAX), None);
}

#[test]
fn lookup_takes_ranges_as_half_open() {
    let bytes = section_bytes(&[
        saving_function(0x1000, 0x100),
        saving_function(0x2000, 0x80),
        saving_function(0x2080, 0x80),
    ]);
    let mut options = Options::new();
    let section = EhFrameSection::new(&bytes, 0);
    options.add_entries_from_eh_frame(0, &section).unwrap();
    let table = options.table();

    // The end of a range is not in it.
    assert_eq!(lookup(table, 0x1100), None);
    // Where the next range starts at that end, the address is in the next.
    assert_eq!(lookup(table, 0x2080), Some(2));
    assert_eq!(lookup(table, 0x2100), None);
}

#[test]
fn lookup_in_an_empty_table_finds_nothing() {
    let options = Options::new();
    assert_eq!(lookup(options.table(), 0x1000), None);
}

#[test]
fn entries_hold_the_range_of_their_descriptor_moved_by_the_bias() {
    let bytes = section_bytes(&[saving_function(0x1000, 0x100), saving_function(0x3000, 0x40)]);
    let mut options = Options::new();
    let section = EhFrameSection::new(&bytes, 0);
    options.add_entries_from_eh_frame(0x10_0000, &section).unwrap();
    let table = options.table();
    assert_eq!(table.len(), 2);
    assert_eq!(table[0].start(), 0x10_1000);
    assert_eq!(table[0].end(), 0x10_1100);
    assert_eq!(table[0].bias(), 0x10_0000);
    assert_eq!(table[1].start(), 0x10_3000);
    assert_eq!(table[1].end(), 0x10_3040);
    assert!(table[1].contains(0x10_3000));
    assert!(table[1].contains(0x10_303f));
    assert!(!table[1].contains(0x10_3040));
    assert!(!table[1].contains(0x3000));
}

#[test]
fn a_negative_bias_moves_ranges_down() {
    let bytes = section_bytes(&[saving_function(0x1000, 0x100)]);
    let mut options = Options::new();
    let section = EhFrameSection::new(&bytes, 0);
    options.add_entries_from_eh_frame(-0x800, &section).unwrap();
    let table = options.table();
    assert_eq!(table[0].start(), 0x800);
    assert_eq!(table[0].end(), 0x900);
}

#[test]
fn build_sorts_the_entries_by_start() {
    let high = section_bytes(&[saving_function(0x9000, 0x100)]);
    let low = section_bytes(&[saving_function(0x1000, 0x100), saving_function(0x4000, 0x100)]);
    let mut options = Options::new();
    let section = EhFrameSection::new(&high, 0);
    options.add_entries_from_eh_frame(0, &section).unwrap();
    let section = EhFrameSection::new(&low, 0);
    options.add_entries_from_eh_frame(0, &section).unwrap();
    assert_eq!(options.table()[0].start(), 0x9000);

    let walker = options.build_with_reader_logger(Memory::new(vec![]), IgnoreLogs);
    let (options, _, _) = walker.reconfigure();
    let starts: Vec<usize> = options.table().iter().map(|entry| entry.start()).collect();
    assert_eq!(starts, vec![0x1000, 0x4000, 0x9000]);
    assert_eq!(lookup(options.table(), 0x4010), Some(1));
    assert_eq!(lookup(options.table(), 0x9010), Some(2));
}

#[test]
fn clear_entries_empties_the_table() {
    let bytes = section_bytes(&[saving_function(0x1000, 0x100)]);
    let mut options = Options::new();
    let section = EhFrameSection::new(&bytes, 0);
    options.add_entries_from_eh_frame(0, &section).unwrap();
    assert_eq!(options.table().len(), 1);
    options.clear_entries();
    assert_eq!(options.table().len(), 0);
}

#[test]
fn add_entries_appends_in_order() {
    let first = section_bytes(&[saving_function(0x1000, 0x100)]);
    let second = section_bytes(&[saving_function(0x7000, 0x10), saving_function(0x3000, 0x10)]);
    let first_section = EhFrameSection::new(&first, 0);
    let second_section = EhFrameSection::new(&second, 0);

    let mut options = Options::new();
    options.add_entries_from_eh_frame(0, &first_section).unwrap();
    assert_eq!(options.table().len(), 1);

    let more: Vec<UnwindEntry> = second_section
        .descriptors()
        .unwrap()
        .into_iter()
        .map(|descriptor| UnwindEntry::new(0x100, descriptor))
        .collect();
    options.add_entries(more);
    let starts: Vec<usize> = options.table().iter().map(|entry| entry.start()).collect();
    assert_eq!(starts, vec![0x1000, 0x7100, 0x3100]);

    options.add_entries(Vec::new());
    assert_eq!(options.table().len(), 3);
}

#[test]
fn add_entry_appends_one_entry() {
    let bytes = section_bytes(&[saving_function(0x7000, 0x10)]);
    let section = EhFrameSection::new(&bytes, 0);
    let mut descriptors = section.descriptors().unwrap();
    assert_eq!(descriptors.len(), 1);
    let mut options = Options::new();
    options.add_entry(UnwindEntry::new(-0x1000, descriptors.pop().unwrap()));
    assert_eq!(options.table().len(), 1);
    assert_eq!(options.table()[0].start(), 0x6000);
    assert_eq!(options.table()[0].end(), 0x6010);
    assert_eq!(options.table()[0].bias(), -0x1000);
}

#[test]
fn a_malformed_section_is_a_decoder_error() {
    // A length that runs past the end of the section.
    let bytes: Vec<u8> = vec![0xff, 0x00, 0x00, 0x00, 0x01, 0x02];
    let mut options = Options::new();
    let section = EhFrameSection::new(&bytes, 0);
    let result = options.add_entries_from_eh_frame(0, &section);
    assert!(matches!(result, Err(WalkError::Gimli(_))));
    assert_eq!(options.table().len(), 0);
}

#[test]
fn entries_decoded_before_an_error_stay() {
    let mut bytes = section_bytes(&[saving_function(0x1000, 0x100)]);
    bytes.extend_from_slice(&[0xff, 0x00, 0x00, 0x00, 0x01, 0x02]);
    let mut options = Options::new();
    let section = EhFrameSection::new(&bytes, 0);
    let result = options.add_entries_from_eh_frame(0, &section);
    assert!(matches!(result, Err(WalkError::Gimli(_))));
    assert_eq!(options.table().len(), 1);
    assert_eq!(options.table()[0].start(), 0x1000);
}

#[test]
fn from_unwind_table_row_applies_each_rule() {
    let row = UnwindTableRow {
        start_address: 0,
        end_address: 0x100,
        cfa: CfaRule::RegisterAndOffset {
            register: SP,
            offset: 16,
        },
        bp: RegisterRule::SameValue,
        sp: RegisterRule::ValOffset(0),
        ip: RegisterRule::Offset(-8),
    };
    let old = FrameRegisters::new(
        TaggedWord::valid(0x9),
        TaggedWord::valid(0x1000),
        TaggedWord::invalid(),
    );
    // The canonical frame address is the word at sp + 16.
    let memory = Memory::new(vec![(0x1010, 0x1010), (0x1008, 0x4242)]);
    let next = FrameRegisters::from_unwind_table_row(&row, &old, &memory).unwrap();
    assert_eq!(next.bp(), TaggedWord::valid(0x9));
    assert_eq!(next.sp(), TaggedWord::valid(0x1010));
    assert_eq!(next.ip(), TaggedWord::valid(0x4242));
}

#[test]
fn a_value_offset_rule_adds_its_offset_to_the_frame_address() {
    let row = UnwindTableRow {
        start_address: 0,
        end_address: 0x100,
        cfa: CfaRule::RegisterAndOffset {
            register: SP,
            offset: 16,
        },
        bp: RegisterRule::SameValue,
        sp: RegisterRule::ValOffset(16),
        ip: RegisterRule::Offset(-8),
    };
    let old = FrameRegisters::new(
        TaggedWord::valid(0x9),
        TaggedWord::valid(0x1000),
        TaggedWord::invalid(),
    );
    let memory = Memory::new(vec![(0x1010, 0x1010), (0x1008, 0x4242)]);
    let next = FrameRegisters::from_unwind_table_row(&row, &old, &memory).unwrap();
    assert_eq!(
        next,
        FrameRegisters::new(
            TaggedWord::valid(0x9),
            TaggedWord::valid(0x1020),
            TaggedWord::valid(0x4242)
        )
    );
    assert_eq!(memory.reads.get(), 2);
}

fn plain_row(cfa: CfaRule, bp: RegisterRule, sp: RegisterRule, ip: RegisterRule) -> UnwindTableRow {
    UnwindTableRow {
        start_address: 0,
        end_address: 0x100,
        cfa,
        bp,
        sp,
        ip,
    }
}

#[test]
fn the_frame_address_needs_a_tracked_register() {
    let row = plain_row(
        CfaRule::RegisterAndOffset {
            register: 3,
            offset: 0,
        },
        RegisterRule::Undefined,
        RegisterRule::Undefined,
        RegisterRule::Undefined,
    );
    let memory = Memory::new(vec![]);
    let result = FrameRegisters::from_unwind_table_row(&row, &registers(1, 2, 3), &memory);
    assert!(matches!(result, Err(WalkError::UnknownRegister(3))));
    assert_eq!(memory.reads.get(), 0);
}

#[test]
fn the_frame_address_needs_a_valid_register() {
    let row = plain_row(
        CfaRule::RegisterAndOffset {
            register: BP,
            offset: 0,
        },
        RegisterRule::Undefined,
        RegisterRule::Undefined,
        RegisterRule::Undefined,
    );
    let old = FrameRegisters::new(
        TaggedWord::invalid(),
        TaggedWord::valid(2),
        TaggedWord::valid(3),
    );
    let memory = Memory::new(vec![]);
    let result = FrameRegisters::from_unwind_table_row(&row, &old, &memory);
    assert!(matches!(result, Err(WalkError::InvalidTaggedWord)));
}

#[test]
fn a_failed_read_of_the_frame_address_fails_the_step() {
    let row = plain_row(
        CfaRule::RegisterAndOffset {
            register: SP,
            offset: 8,
        },
        RegisterRule::Undefined,
        RegisterRule::Undefined,
        RegisterRule::Undefined,
    );
    let memory = Memory::new(vec![]);
    let result = FrameRegisters::from_unwind_table_row(&row, &registers(1, 0x100, 3), &memory);
    // The reader of these tests fails with the address that it was asked for.
    assert!(matches!(
        result,
        Err(WalkError::NoUnwindInfoForAddress(0x108))
    ));
}

#[test]
fn expression_rules_are_refused() {
    let memory = Memory::new(vec![(0x100, 0x200)]);
    let cfa = CfaRule::RegisterAndOffset {
        register: SP,
        offset: 0,
    };
    let row = plain_row(
        CfaRule::Expression,
        RegisterRule::Undefined,
        RegisterRule::Undefined,
        RegisterRule::Undefined,
    );
    let result = FrameRegisters::from_unwind_table_row(&row, &registers(1, 0x100, 3), &memory);
    assert!(matches!(result, Err(WalkError::UnsupportedRule)));

    for rule in [RegisterRule::Expression, RegisterRule::ValExpression] {
        let row = plain_row(cfa, RegisterRule::Undefined, RegisterRule::SameValue, rule);
        let result = FrameRegisters::from_unwind_table_row(&row, &registers(1, 0x100, 3), &memory);
        assert!(matches!(result, Err(WalkError::UnsupportedRule)));
        assert!(rule.uses_expression());
        assert!(row.uses_expression());
    }
    assert!(!RegisterRule::Offset(8).uses_expression());
}

#[test]
fn rules_that_need_no_memory() {
    let memory = Memory::new(vec![(0x100, 0x200)]);
    let cfa = CfaRule::RegisterAndOffset {
        register: SP,
        offset: 0,
    };
    let old = registers(0x11, 0x100, 0x33);

    let row = plain_row(
        cfa,
        RegisterRule::Undefined,
        RegisterRule::Architectural,
        RegisterRule::SameValue,
    );
    let next = FrameRegisters::from_unwind_table_row(&row, &old, &memory).unwrap();
    assert_eq!(next.bp(), TaggedWord::invalid());
    assert_eq!(next.sp(), TaggedWord::invalid());
    assert_eq!(next.ip(), TaggedWord::valid(0x33));

    // Each register keeps its own value under `SameValue`.
    let row = plain_row(
        cfa,
        RegisterRule::SameValue,
        RegisterRule::SameValue,
        RegisterRule::SameValue,
    );
    let next = FrameRegisters::from_unwind_table_row(&row, &old, &memory).unwrap();
    assert_eq!(next, old);

    let row = plain_row(
        cfa,
        RegisterRule::Register(SP),
        RegisterRule::Register(IP),
        RegisterRule::Register(BP),
    );
    let next = FrameRegisters::from_unwind_table_row(&row, &old, &memory).unwrap();
    assert_eq!(next, registers(0x100, 0x33, 0x11));

    // A register that is not tracked degrades to invalid.
    let row = plain_row(
        cfa,
        RegisterRule::Register(0),
        RegisterRule::ValOffset(-0x10),
        RegisterRule::Constant(77),
    );
    let next = FrameRegisters::from_unwind_table_row(&row, &old, &memory).unwrap();
    assert_eq!(next.bp(), TaggedWord::invalid());
    assert_eq!(next.sp(), TaggedWord::valid(0x1f0));
    assert_eq!(next.ip(), TaggedWord::valid(77));
    assert_eq!(memory.reads.get(), 4);
}

#[test]
fn a_failed_read_of_a_saved_register_leaves_it_invalid() {
    let memory = Memory::new(vec![(0x100, 0x200), (0x1f8, 0xabc)]);
    let row = plain_row(
        CfaRule::RegisterAndOffset {
            register: SP,
            offset: 0,
        },
        RegisterRule::Offset(-16),
        RegisterRule::ValOffset(0),
        RegisterRule::Offset(-8),
    );
    let next = FrameRegisters::from_unwind_table_row(&row, &registers(1, 0x100, 3), &memory).unwrap();
    assert_eq!(next.bp(), TaggedWord::invalid());
    assert_eq!(next.sp(), TaggedWord::valid(0x200));
    assert_eq!(next.ip(), TaggedWord::valid(0xabc));
}

#[test]
fn offsets_wrap_around() {
    let memory = Memory::new(vec![(usize::MAX, 8), (4, 0x77)]);
    let row = plain_row(
        CfaRule::RegisterAndOffset {
            register: SP,
            offset: -1,
        },
        RegisterRule::Undefined,
        RegisterRule::ValOffset(-16),
        RegisterRule::Offset(-4),
    );
    let next = FrameRegisters::from_unwind_table_row(&row, &registers(1, 0, 3), &memory).unwrap();
    assert_eq!(next.sp(), TaggedWord::valid(usize::MAX - 7));
    assert_eq!(next.ip(), TaggedWord::valid(0x77));
}

#[test]
fn get_register_knows_the_tracked_registers() {
    let regs = registers(0x11, 0x22, 0x33);
    assert_eq!(regs.get_register(6).unwrap(), TaggedWord::valid(0x11));
    assert_eq!(regs.get_register(7).unwrap(), TaggedWord::valid(0x22));
    assert_eq!(regs.get_register(16).unwrap(), TaggedWord::valid(0x33));
    assert!(matches!(
        regs.get_register(0),
        Err(WalkError::UnknownRegister(0))
    ));
    assert!(matches!(
        regs.get_register(17),
        Err(WalkError::UnknownRegister(17))
    ));
}

/// Memory for three nested frames. `c` was called by `b`, which was called by
/// `a`; nothing is known of `a`'s own caller.
fn nested_memory() -> Memory {
    Memory::new(vec![
        // The frame of c: its stack pointer points at its frame address.
        (0x7000, 0x7100),
        (0x7100 - 8, 0x2040),
        (0x7100 - 16, 0x7200),
        (0x7100 - 24, 0xb),
        // The frame of b.
        (0x7200, 0x7300),
        (0x7300 - 8, 0x1040),
        (0x7300 - 16, 0x7400),
        (0x7300 - 24, 0xa),
    ])
}

fn nested_section() -> Vec<u8> {
    section_bytes(&[saving_function(0x2000, 0x100), saving_function(0x3000, 0x100)])
}

#[test]
fn walk_one_steps_to_the_caller() {
    let bytes = nested_section();
    let section = EhFrameSection::new(&bytes, 0);
    let mut walker = walker_over(&section, 0, nested_memory());
    let c = registers(0xc, 0x7000, 0x3010);
    let b = walker.walk_one(&c).unwrap();
    assert_eq!(b, registers(0xb, 0x7200, 0x2040));
    let a = walker.walk_one(&b).unwrap();
    assert_eq!(a, registers(0xa, 0x7400, 0x1040));
    assert!(matches!(
        walker.walk_one(&a),
        Err(WalkError::NoUnwindInfoForAddress(0x1040))
    ));
}

#[test]
fn walk_one_needs_the_instruction_pointer() {
    let bytes = nested_section();
    let section = EhFrameSection::new(&bytes, 0);
    let mut walker = walker_over(&section, 0, nested_memory());
    let start = FrameRegisters::new(
        TaggedWord::valid(1),
        TaggedWord::valid(0x7000),
        TaggedWord::invalid(),
    );
    assert!(matches!(
        walker.walk_one(&start),
        Err(WalkError::InvalidTaggedWord)
    ));
}

#[test]
fn walk_one_without_an_entry_fails_and_leaves_the_walker_usable() {
    let bytes = nested_section();
    let section = EhFrameSection::new(&bytes, 0);
    let mut walker = walker_over(&section, 0, nested_memory());
    let nowhere = registers(0xc, 0x7000, 0x9999);
    assert!(matches!(
        walker.walk_one(&nowhere),
        Err(WalkError::NoUnwindInfoForAddress(0x9999))
    ));
    assert!(matches!(
        walker.walk_one(&nowhere),
        Err(WalkError::NoUnwindInfoForAddress(0x9999))
    ));
    let c = registers(0xc, 0x7000, 0x3010);
    assert_eq!(walker.walk_one(&c).unwrap(), registers(0xb, 0x7200, 0x2040));
}

#[test]
fn walk_one_after_a_failed_read_is_usable_again() {
    let bytes = nested_section();
    let section = EhFrameSection::new(&bytes, 0);
    let mut walker = walker_over(&section, 0, nested_memory());
    // The stack pointer points at no word that the reader knows.
    let lost = registers(0xc, 0x100, 0x3010);
    assert!(matches!(
        walker.walk_one(&lost),
        Err(WalkError::NoUnwindInfoForAddress(0x100))
    ));
    let c = registers(0xc, 0x7000, 0x3010);
    assert_eq!(walker.walk_one(&c).unwrap(), registers(0xb, 0x7200, 0x2040));
}

#[test]
fn walk_one_applies_the_bias_to_rows() {
    let bytes = nested_section();
    let section = EhFrameSection::new(&bytes, 0);
    let mut walker = walker_over(&section, 0x40_0000, nested_memory());
    let c = registers(0xc, 0x7000, 0x40_3010);
    assert_eq!(walker.walk_one(&c).unwrap(), registers(0xb, 0x7200, 0x2040));
    // Without the bias the address lies in no range.
    let unbiased = registers(0xc, 0x7000, 0x3010);
    assert!(matches!(
        walker.walk_one(&unbiased),
        Err(WalkError::NoUnwindInfoForAddress(0x3010))
    ));
}

#[test]
fn walk_one_takes_the_row_that_holds_the_address() {
    // Two rows: up to offset 4 the instruction pointer is saved at CFA-8,
    // from there on at CFA-32.
    let function = Function {
        start: 0x3000,
        len: 0x100,
        instructions: vec![
            (0, CallFrameInstruction::Cfa(Register(SP), 0)),
            (0, CallFrameInstruction::Offset(Register(IP), -8)),
            (4, CallFrameInstruction::Offset(Register(IP), -32)),
        ],
    };
    let bytes = section_bytes(&[function]);
    let memory = Memory::new(vec![(0x7000, 0x7100), (0x7100 - 8, 0x1111), (0x7100 - 32, 0x2222)]);
    let section = EhFrameSection::new(&bytes, 0);
    let mut walker = walker_over(&section, 0, memory);
    let early = walker.walk_one(&registers(1, 0x7000, 0x3003)).unwrap();
    assert_eq!(early.ip(), TaggedWord::valid(0x1111));
    let late = walker.walk_one(&registers(1, 0x7000, 0x3004)).unwrap();
    assert_eq!(late.ip(), TaggedWord::valid(0x2222));
    // A register without a rule in the row is undefined.
    assert_eq!(late.bp(), TaggedWord::invalid());
    assert_eq!(late.sp(), TaggedWord::invalid());
}

#[test]
fn walk_one_refuses_a_row_with_an_expression() {
    let function = Function {
        start: 0x3000,
        len: 0x100,
        instructions: vec![
            (0, CallFrameInstruction::Cfa(Register(SP), 0)),
            (
                0,
                CallFrameInstruction::Expression(Register(IP), gimli::write::Expression::new()),
            ),
        ],
    };
    let bytes = section_bytes(&[function]);
    let memory = Memory::new(vec![(0x7000, 0x7100)]);
    let section = EhFrameSection::new(&bytes, 0);
    let mut walker = walker_over(&section, 0, memory);
    assert!(matches!(
        walker.walk_one(&registers(1, 0x7000, 0x3003)),
        Err(WalkError::UnsupportedRule)
    ));
}

#[test]
fn walk_collects_the_frames_of_a_nested_call() {
    let bytes = nested_section();
    let section = EhFrameSection::new(&bytes, 0);
    let mut walker = walker_over(&section, 0, nested_memory());
    let c = registers(0xc, 0x7000, 0x3010);
    let mut frames: Vec<FrameRegisters> = Vec::new();
    let result = walker.walk(&c, |frame: &FrameRegisters| {
        frames.push(*frame);
    });
    assert!(matches!(
        result,
        Err(WalkError::NoUnwindInfoForAddress(0x1040))
    ));
    assert_eq!(
        frames,
        vec![
            registers(0xc, 0x7000, 0x3010),
            registers(0xb, 0x7200, 0x2040),
            registers(0xa, 0x7400, 0x1040),
        ]
    );
}

#[test]
fn walk_stops_where_the_callback_breaks() {
    let bytes = nested_section();
    let section = EhFrameSection::new(&bytes, 0);
    let mut walker = walker_over(&section, 0, nested_memory());
    let c = registers(0xc, 0x7000, 0x3010);
    let mut frames: Vec<FrameRegisters> = Vec::new();
    let result = walker.walk(&c, |frame: &FrameRegisters| {
        frames.push(*frame);
        if frames.len() == 2 {
            StackWalkControl::Break
        } else {
            StackWalkControl::Continue
        }
    });
    assert_eq!(result.unwrap(), StackWalkControl::Break);
    assert_eq!(
        frames,
        vec![registers(0xc, 0x7000, 0x3010), registers(0xb, 0x7200, 0x2040)]
    );
    // One step was taken and no more: it read the frame address and the
    // three saved registers.
    let (_, memory, _) = walker.reconfigure();
    assert_eq!(memory.reads.get(), 4);
}

#[test]
fn walk_calls_the_callback_on_the_start_before_any_step() {
    let bytes = nested_section();
    let section = EhFrameSection::new(&bytes, 0);
    let mut walker = walker_over(&section, 0, nested_memory());
    let c = registers(0xc, 0x7000, 0x3010);
    let mut calls = 0;
    let result = walker.walk(&c, |frame: &FrameRegisters| {
        calls += 1;
        assert_eq!(*frame, registers(0xc, 0x7000, 0x3010));
        StackWalkControl::Break
    });
    assert_eq!(result.unwrap(), StackWalkControl::Break);
    assert_eq!(calls, 1);
    let (_, memory, _) = walker.reconfigure();
    assert_eq!(memory.reads.get(), 0);
}

#[test]
fn walk_calls_the_callback_once_for_each_frame() {
    let bytes = nested_section();
    let section = EhFrameSection::new(&bytes, 0);
    let mut walker = walker_over(&section, 0, nested_memory());
    let c = registers(0xc, 0x7000, 0x3010);
    let mut calls = 0;
    let result = walker.walk(&c, |_: &FrameRegisters| {
        calls += 1;
    });
    assert!(result.is_err());
    // The start and the two frames that steps recovered.
    assert_eq!(calls, 3);
}

#[test]
fn walk_halts_on_the_first_failure_of_a_result() {
    let bytes = nested_section();
    let section = EhFrameSection::new(&bytes, 0);
    let mut walker = walker_over(&section, 0, nested_memory());
    let c = registers(0xc, 0x7000, 0x3010);
    let mut calls = 0;
    let result: Result<Result<(), &str>, WalkError> = walker.walk(&c, |frame: &FrameRegisters| {
        calls += 1;
        if frame.ip() == TaggedWord::valid(0x2040) {
            Err("far enough")
        } else {
            Ok(())
        }
    });
    assert_eq!(result.unwrap(), Err("far enough"));
    assert_eq!(calls, 2);
}

#[test]
fn walk_at_most_stops_at_the_limit() {
    let bytes = nested_section();
    let c = registers(0xc, 0x7000, 0x3010);

    let section = EhFrameSection::new(&bytes, 0);
    let mut walker = walker_over(&section, 0, nested_memory());
    let mut frames: Vec<FrameRegisters> = Vec::new();
    let result = walker.walk_at_most(&c, |frame: &FrameRegisters| frames.push(*frame), 0);
    assert!(result.is_ok());
    assert_eq!(frames, vec![c]);

    let mut frames: Vec<FrameRegisters> = Vec::new();
    let result = walker.walk_at_most(&c, |frame: &FrameRegisters| frames.push(*frame), 1);
    assert!(result.is_ok());
    assert_eq!(frames, vec![c, registers(0xb, 0x7200, 0x2040)]);

    let mut frames: Vec<FrameRegisters> = Vec::new();
    let result = walker.walk_at_most(&c, |frame: &FrameRegisters| frames.push(*frame), 2);
    assert!(result.is_ok());
    assert_eq!(frames.len(), 3);

    let mut frames: Vec<FrameRegisters> = Vec::new();
    let result = walker.walk_at_most(&c, |frame: &FrameRegisters| frames.push(*frame), 3);
    assert!(matches!(
        result,
        Err(WalkError::NoUnwindInfoForAddress(0x1040))
    ));
    assert_eq!(frames.len(), 3);
}

#[test]
fn reconfigure_hands_the_parts_back() {
    let bytes = nested_section();
    let section = EhFrameSection::new(&bytes, 0);
    let walker = walker_over(&section, 0, nested_memory());
    let (mut options, memory, logger) = walker.reconfigure();
    assert_eq!(options.table().len(), 2);
    let more = section_bytes(&[saving_function(0x1000, 0x100)]);
    let section = EhFrameSection::new(&more, 0);
    options.add_entries_from_eh_frame(0, &section).unwrap();
    let mut walker = options.build_with_reader_logger(memory, logger);
    // With an entry for a, the walk reaches the end of what memory holds.
    let a = registers(0xa, 0x7400, 0x1040);
    assert!(matches!(
        walker.walk_one(&a),
        Err(WalkError::NoUnwindInfoForAddress(0x7400))
    ));
}

/// The entries of the given descriptors' ranges, each with the bias that
/// stands beside its range.
fn entries_of<'a>(section: &'a EhFrameSection<'a>, biases: &[isize]) -> Vec<UnwindEntry<'a>> {
    section
        .descriptors()
        .unwrap()
        .into_iter()
        .zip(biases)
        .map(|(descriptor, bias)| UnwindEntry::new(*bias, descriptor))
        .collect()
}

fn ranges(entries: &[UnwindEntry]) -> Vec<(usize, usize)> {
    entries.iter().map(|entry| (entry.start(), entry.end())).collect()
}

#[test]
fn sort_by_start_orders_the_entries() {
    let bytes = section_bytes(&[
        saving_function(0x5000, 0x10),
        saving_function(0x1000, 0x20),
        saving_function(0x9000, 0x30),
        saving_function(0x3000, 0x40),
        saving_function(0x7000, 0x50),
        saving_function(0x2000, 0x60),
        saving_function(0x8000, 0x70),
    ]);
    let section = EhFrameSection::new(&bytes, 0);
    let sorted = sort_by_start(entries_of(&section, &[0; 7]));
    assert_eq!(
        ranges(&sorted),
        vec![
            (0x1000, 0x1020),
            (0x2000, 0x2060),
            (0x3000, 0x3040),
            (0x5000, 0x5010),
            (0x7000, 0x7050),
            (0x8000, 0x8070),
            (0x9000, 0x9030),
        ]
    );
}

#[test]
fn sort_by_start_keeps_the_order_of_equal_starts() {
    let bytes = section_bytes(&[
        saving_function(0x5000, 0x10),
        saving_function(0x1000, 0x20),
        saving_function(0x5000, 0x30),
        saving_function(0x1000, 0x40),
        saving_function(0x5000, 0x50),
        saving_function(0x1000, 0x60),
    ]);
    let section = EhFrameSection::new(&bytes, 0);
    let sorted = sort_by_start(entries_of(&section, &[0; 6]));
    assert_eq!(
        ranges(&sorted),
        vec![
            (0x1000, 0x1020),
            (0x1000, 0x1040),
            (0x1000, 0x1060),
            (0x5000, 0x5010),
            (0x5000, 0x5030),
            (0x5000, 0x5050),
        ]
    );
}

#[test]
fn sort_by_start_of_few_entries() {
    let bytes = section_bytes(&[saving_function(0x5000, 0x10), saving_function(0x1000, 0x20)]);
    let section = EhFrameSection::new(&bytes, 0);
    assert_eq!(ranges(&sort_by_start(Vec::new())), vec![]);
    let mut one = entries_of(&section, &[0, 0]);
    one.truncate(1);
    assert_eq!(ranges(&sort_by_start(one)), vec![(0x5000, 0x5010)]);
    let two = entries_of(&section, &[0, 0]);
    assert_eq!(
        ranges(&sort_by_start(two)),
        vec![(0x1000, 0x1020), (0x5000, 0x5010)]
    );
    // A bias moves an entry past another.
    let moved = entries_of(&section, &[0, 0x8000]);
    assert_eq!(
        ranges(&sort_by_start(moved)),
        vec![(0x5000, 0x5010), (0x9000, 0x9020)]
    );
}

#[test]
fn merge_takes_the_left_entry_first_among_equals() {
    let left_bytes = section_bytes(&[
        saving_function(0x1000, 0x1),
        saving_function(0x3000, 0x1),
        saving_function(0x3000, 0x2),
    ]);
    let right_bytes = section_bytes(&[
        saving_function(0x2000, 0x3),
        saving_function(0x3000, 0x4),
        saving_function(0x4000, 0x5),
    ]);
    let left_section = EhFrameSection::new(&left_bytes, 0);
    let right_section = EhFrameSection::new(&right_bytes, 0);
    let merged = merge(
        entries_of(&left_section, &[0; 3]),
        entries_of(&right_section, &[0; 3]),
    );
    assert_eq!(
        ranges(&merged),
        vec![
            (0x1000, 0x1001),
            (0x2000, 0x2003),
            (0x3000, 0x3001),
            (0x3000, 0x3002),
            (0x3000, 0x3004),
            (0x4000, 0x4005),
        ]
    );
    assert_eq!(
        ranges(&merge(Vec::new(), entries_of(&left_section, &[0; 3]))).len(),
        3
    );
    assert_eq!(
        ranges(&merge(entries_of(&left_section, &[0; 3]), Vec::new())).len(),
        3
    );
}

#[test]
fn reverse_turns_the_order_round() {
    let bytes = section_bytes(&[
        saving_function(0x1000, 0x1),
        saving_function(0x2000, 0x2),
        saving_function(0x3000, 0x3),
    ]);
    let section = EhFrameSection::new(&bytes, 0);
    let reversed = reverse(entries_of(&section, &[0; 3]));
    assert_eq!(
        ranges(&reversed),
        vec![(0x3000, 0x3003), (0x2000, 0x2002), (0x1000, 0x1001)]
    );
    assert_eq!(ranges(&reverse(Vec::new())), vec![]);
}

#[test]
fn descriptors_lists_what_the_section_holds() {
    let bytes = section_bytes(&[saving_function(0x1000, 0x1), saving_function(0x2000, 0x2)]);
    let section = EhFrameSection::new(&bytes, 0);
    assert_eq!(section.descriptors().unwrap().len(), 2);

    let empty: Vec<u8> = Vec::new();
    let section = EhFrameSection::new(&empty, 0);
    assert_eq!(section.descriptors().unwrap().len(), 0);

    let broken: Vec<u8> = vec![0xff, 0x00, 0x00, 0x00, 0x01, 0x02];
    let section = EhFrameSection::new(&broken, 0);
    assert!(matches!(section.descriptors(), Err(WalkError::Gimli(_))));
}

#[test]
fn options_and_entries_can_be_cloned() {
    let bytes = section_bytes(&[saving_function(0x2000, 0x100), saving_function(0x3000, 0x100)]);
    let section = EhFrameSection::new(&bytes, 0);
    let mut options = Options::new();
    options.add_entries_from_eh_frame(0x10, &section).unwrap();
    let entry = options.table()[1].clone();
    assert_eq!(entry.start(), 0x3010);
    assert_eq!(entry.end(), 0x3110);
    assert_eq!(entry.bias(), 0x10);

    let mut copy = options.clone();
    assert_eq!(ranges(copy.table()), ranges(options.table()));
    copy.clear_entries();
    assert_eq!(copy.table().len(), 0);
    assert_eq!(options.table().len(), 2);

    // A walker over the copy of an entry decodes the same rows.
    let mut again = Options::default();
    again.add_entry(entry);
    let mut walker = again.build_with_reader_logger(nested_memory(), IgnoreLogs);
    let c = registers(0xc, 0x7000, 0x3020);
    assert_eq!(walker.walk_one(&c).unwrap(), registers(0xb, 0x7200, 0x2040));
}

/// A walker over one function at 0x3000 with the given instructions, and a
/// step from the middle of it with the stack pointer at 0x7000 and the base
/// pointer at 0x6000.
fn step_through(
    instructions: Vec<(u32, CallFrameInstruction)>,
    memory: Memory,
) -> Result<FrameRegisters, WalkError> {
    let bytes = section_bytes(&[Function {
        start: 0x3000,
        len: 0x100,
        instructions,
    }]);
    let section = EhFrameSection::new(&bytes, 0);
    let mut walker = walker_over(&section, 0, memory);
    walker.walk_one(&registers(0x6000, 0x7000, 0x3010))
}

#[test]
fn the_frame_address_rule_is_decoded_with_its_register_and_offset() {
    // The frame address is the word at bp + 32.
    let next = step_through(
        vec![
            (0, CallFrameInstruction::Cfa(Register(BP), 32)),
            (0, CallFrameInstruction::ValOffset(Register(SP), 0)),
        ],
        Memory::new(vec![(0x6020, 0x8000)]),
    )
    .unwrap();
    assert_eq!(next.sp(), TaggedWord::valid(0x8000));

    // The frame address is the word at sp - 16.
    let next = step_through(
        vec![
            (0, CallFrameInstruction::Cfa(Register(SP), -16)),
            (0, CallFrameInstruction::ValOffset(Register(SP), 0)),
        ],
        Memory::new(vec![(0x6ff0, 0x9000)]),
    )
    .unwrap();
    assert_eq!(next.sp(), TaggedWord::valid(0x9000));

    // A register that is not tracked cannot give the frame address.
    let result = step_through(
        vec![(0, CallFrameInstruction::Cfa(Register(3), 0))],
        Memory::new(vec![]),
    );
    assert!(matches!(result, Err(WalkError::UnknownRegister(3))));

    // Nor can an expression.
    let result = step_through(
        vec![(
            0,
            CallFrameInstruction::CfaExpression(gimli::write::Expression::new()),
        )],
        Memory::new(vec![]),
    );
    assert!(matches!(result, Err(WalkError::UnsupportedRule)));
}

#[test]
fn register_rules_are_decoded_variant_by_variant() {
    let cfa = (0, CallFrameInstruction::Cfa(Register(SP), 0));
    let memory = || Memory::new(vec![(0x7000, 0x7100), (0x7100 - 8, 0x1111), (0x7140, 0x2222)]);

    let next = step_through(
        vec![
            cfa.clone(),
            (0, CallFrameInstruction::SameValue(Register(BP))),
            (0, CallFrameInstruction::ValOffset(Register(SP), 16)),
            (0, CallFrameInstruction::Offset(Register(IP), -8)),
        ],
        memory(),
    )
    .unwrap();
    assert_eq!(next, registers(0x6000, 0x7110, 0x1111));

    let next = step_through(
        vec![
            cfa.clone(),
            (0, CallFrameInstruction::Register(Register(BP), Register(SP))),
            (0, CallFrameInstruction::Register(Register(SP), Register(0))),
            (0, CallFrameInstruction::Offset(Register(IP), 64)),
        ],
        memory(),
    )
    .unwrap();
    assert_eq!(next.bp(), TaggedWord::valid(0x7000));
    assert_eq!(next.sp(), TaggedWord::invalid());
    assert_eq!(next.ip(), TaggedWord::valid(0x2222));

    let next = step_through(
        vec![
            cfa.clone(),
            (0, CallFrameInstruction::SameValue(Register(BP))),
            (0, CallFrameInstruction::Undefined(Register(BP))),
            (0, CallFrameInstruction::ValOffset(Register(SP), -16)),
            (0, CallFrameInstruction::SameValue(Register(IP))),
        ],
        memory(),
    )
    .unwrap();
    assert_eq!(next.bp(), TaggedWord::invalid());
    assert_eq!(next.sp(), TaggedWord::valid(0x70f0));
    assert_eq!(next.ip(), TaggedWord::valid(0x3010));

    let result = step_through(
        vec![
            cfa.clone(),
            (
                0,
                CallFrameInstruction::ValExpression(Register(SP), gimli::write::Expression::new()),
            ),
        ],
        memory(),
    );
    assert!(matches!(result, Err(WalkError::UnsupportedRule)));
}

#[test]
fn a_descriptor_with_a_malformed_program_is_a_decoder_error() {
    // The last byte of the section is the last instruction of the only
    // descriptor: an opcode that the decoder does not know.
    let mut bytes = section_bytes(&[Function {
        start: 0x3000,
        len: 0x100,
        instructions: vec![
            (0, CallFrameInstruction::Cfa(Register(SP), 0)),
            (0, CallFrameInstruction::Offset(Register(IP), -8)),
            (4, CallFrameInstruction::ArgsSize(0)),
        ],
    }]);
    let last = bytes.len() - 1;
    bytes[last - 1] = 0x3f;
    bytes[last] = 0x3f;
    let section = EhFrameSection::new(&bytes, 0);
    let memory = Memory::new(vec![(0x7000, 0x7100), (0x7100 - 8, 0x1111)]);
    let mut walker = walker_over(&section, 0, memory);
    // The row before the malformed instruction is decoded and used.
    let early = walker.walk_one(&registers(1, 0x7000, 0x3001)).unwrap();
    assert_eq!(early.ip(), TaggedWord::valid(0x1111));
    // An address past it needs the rest of the program.
    assert!(matches!(
        walker.walk_one(&registers(1, 0x7000, 0x3080)),
        Err(WalkError::Gimli(_))
    ));
    // The walker is still usable.
    let again = walker.walk_one(&registers(1, 0x7000, 0x3001)).unwrap();
    assert_eq!(again.ip(), TaggedWord::valid(0x1111));
}
