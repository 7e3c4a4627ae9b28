use hexscope::decoder::{decode, decode_region, DecodedRegion, Instruction};
use hexscope::header::{Architecture, Bitness, FormatKind, Header, Region, Section};
use hexscope::index::OffsetIndex;

/// A small instruction set: `90` and `C3` take one byte, `B8` takes five,
/// `0F` claims two bytes beyond the end of any buffer, `EE` claims none.
fn toy(bytes: &[u8], offset: usize, _architecture: Architecture, _bitness: Bitness) -> Option<(String, usize)> {
    match bytes[offset] {
        0x90 => Some(("nop".to_string(), 1)),
        0xC3 => Some(("ret".to_string(), 1)),
        0xB8 => {
            if offset + 5 <= bytes.len() {
                Some(("mov eax, imm32".to_string(), 5))
            } else {
                None
            }
        }
        0x0F => Some(("far".to_string(), bytes.len() - offset + 2)),
        0xEE => Some(("empty".to_string(), 0)),
        _ => None,
    }
}

fn instruction(start_offset: usize, length: usize, text: &str) -> Instruction {
    Instruction { start_offset, length, text: text.to_string() }
}

fn section(name: &str, start_offset: usize, size: usize, is_executable: bool) -> Section {
    Section { name: name.to_string(), start_offset, size, is_executable }
}

fn recognized(sections: Vec<Section>) -> Header {
    Header::Recognized {
        format_kind: FormatKind::Elf,
        architecture: Architecture::X86,
        bitness: Bitness::Bit32,
        entry_point: 0,
        sections,
    }
}

fn assert_tiles(instructions: &[Instruction], start: usize, end: usize) {
    let mut at = start;
    for i in instructions {
        assert_eq!(i.start_offset, at);
        assert!(i.length >= 1);
        at += i.length;
    }
    assert_eq!(at, end);
}

#[test]
fn an_undecodable_first_byte_becomes_an_invalid_instruction() {
    let buffer = vec![0x06, 0x90, 0x90, 0xB8, 1, 2, 3, 4, 0xC3, 0x90];
    let regions = decode(&toy, &buffer, &Header::Unrecognized);
    assert_eq!(regions.len(), 1);
    assert_eq!(regions[0].region, Region { start: 0, end: 10 });
    let instructions = &regions[0].instructions;
    assert_eq!(instructions[0], instruction(0, 1, "(invalid)"));
    assert_eq!(instructions[1].start_offset, 1);
    assert_tiles(instructions, 0, 10);
    assert_eq!(
        instructions,
        &vec![
            instruction(0, 1, "(invalid)"),
            instruction(1, 1, "nop"),
            instruction(2, 1, "nop"),
            instruction(3, 5, "mov eax, imm32"),
            instruction(8, 1, "ret"),
            instruction(9, 1, "nop"),
        ]
    );
}

#[test]
fn every_byte_undecodable_gives_one_instruction_per_byte() {
    let buffer = vec![0x01u8; 10];
    let instructions = decode_region(&toy, &buffer, 0, 10, Architecture::X86, Bitness::Bit64);
    assert_eq!(instructions.len(), 10);
    for (i, each) in instructions.iter().enumerate() {
        assert_eq!(each, &instruction(i, 1, "(invalid)"));
    }
}

#[test]
fn an_answer_that_leaves_the_region_is_not_taken() {
    let buffer = vec![0x90, 0x0F, 0x90, 0xEE, 0x90];
    let instructions = decode_region(&toy, &buffer, 0, 5, Architecture::X86, Bitness::Bit64);
    assert_eq!(
        instructions,
        vec![
            instruction(0, 1, "nop"),
            instruction(1, 1, "(invalid)"),
            instruction(2, 1, "nop"),
            instruction(3, 1, "(invalid)"),
            instruction(4, 1, "nop"),
        ]
    );
}

#[test]
fn the_primitive_sees_the_buffer_up_to_the_end_of_the_region() {
    // The five-byte instruction at offset 2 would reach into the bytes after the region.
    let buffer = vec![0x90, 0x90, 0xB8, 1, 2, 3, 4, 0x90];
    let instructions = decode_region(&toy, &buffer, 1, 5, Architecture::X86, Bitness::Bit64);
    assert_tiles(&instructions, 1, 5);
    assert_eq!(instructions[0], instruction(1, 1, "nop"));
    assert_eq!(instructions[1], instruction(2, 1, "(invalid)"));
}

#[test]
fn an_empty_region_has_no_instructions() {
    let buffer = vec![0x90u8; 4];
    assert!(decode_region(&toy, &buffer, 2, 2, Architecture::X86, Bitness::Bit64).is_empty());
    assert!(decode(&toy, &[], &Header::Unrecognized).is_empty());
}

#[test]
fn instruction_from_each_kind_of_answer() {
    assert_eq!(Instruction::from_outcome(3, 10, Some(("nop".to_string(), 1))), instruction(3, 1, "nop"));
    assert_eq!(Instruction::from_outcome(3, 10, Some(("long".to_string(), 7))), instruction(3, 7, "long"));
    assert_eq!(Instruction::from_outcome(3, 10, Some(("long".to_string(), 8))), instruction(3, 1, "(invalid)"));
    assert_eq!(Instruction::from_outcome(3, 10, Some(("none".to_string(), 0))), instruction(3, 1, "(invalid)"));
    assert_eq!(Instruction::from_outcome(3, 10, None), instruction(3, 1, "(invalid)"));
    assert_eq!(
        Instruction::from_outcome(usize::MAX - 1, usize::MAX, Some(("x".to_string(), usize::MAX))),
        instruction(usize::MAX - 1, 1, "(invalid)")
    );
}

#[test]
fn only_executable_sections_are_decoded_in_ascending_order() {
    let mut buffer = vec![0u8; 32];
    buffer[20] = 0x90;
    buffer[21] = 0xC3;
    buffer[4] = 0xB8;
    buffer[9] = 0xC3;
    let header = recognized(vec![
        section(".fini", 20, 2, true),
        section(".data", 10, 10, false),
        section(".none", 12, 0, true),
        section(".text", 4, 6, true),
    ]);
    assert!(header.is_well_formed(buffer.len()));
    assert_eq!(header.code_regions(buffer.len()), vec![Region { start: 4, end: 10 }, Region { start: 20, end: 22 }]);
    let regions = decode(&toy, &buffer, &header);
    assert_eq!(
        regions,
        vec![
            DecodedRegion {
                region: Region { start: 4, end: 10 },
                instructions: vec![instruction(4, 5, "mov eax, imm32"), instruction(9, 1, "ret")],
            },
            DecodedRegion {
                region: Region { start: 20, end: 22 },
                instructions: vec![instruction(20, 1, "nop"), instruction(21, 1, "ret")],
            },
        ]
    );
    for each in &regions {
        assert_tiles(&each.instructions, each.region.start, each.region.end);
    }
    let index = OffsetIndex::build(regions);
    assert_eq!(index.offsets, vec![4, 9, 20, 21]);
    assert_eq!(index.len(), 4);
    assert_eq!(index.instructions[2], instruction(20, 1, "nop"));
}

#[test]
fn lookup_finds_the_last_start_at_or_below() {
    let buffer = vec![0x90, 0xB8, 1, 2, 3, 4, 0xC3, 0x90];
    let index = OffsetIndex::build(decode(&toy, &buffer, &Header::Unrecognized));
    assert_eq!(index.offsets, vec![0, 1, 6, 7]);
    let found: Vec<usize> = (0..10).map(|o| index.offset_to_instruction_index(o)).collect();
    assert_eq!(found, vec![0, 1, 1, 1, 1, 1, 2, 3, 3, 3]);
    assert_eq!(index.offset_to_instruction_index(usize::MAX), 3);
}

#[test]
fn lookup_before_the_first_region_and_in_gaps() {
    let mut buffer = vec![0u8; 32];
    buffer[4] = 0xB8;
    let header = recognized(vec![section(".text", 4, 6, true), section(".fini", 20, 2, true)]);
    let index = OffsetIndex::build(decode(&toy, &buffer, &header));
    assert_eq!(index.offsets, vec![4, 9, 20, 21]);
    assert_eq!(index.offset_to_instruction_index(0), 0);
    assert_eq!(index.offset_to_instruction_index(3), 0);
    assert_eq!(index.offset_to_instruction_index(4), 0);
    assert_eq!(index.offset_to_instruction_index(8), 0);
    assert_eq!(index.offset_to_instruction_index(9), 1);
    assert_eq!(index.offset_to_instruction_index(15), 1);
    assert_eq!(index.offset_to_instruction_index(20), 2);
    assert_eq!(index.offset_to_instruction_index(21), 3);
    assert_eq!(index.offset_to_instruction_index(31), 3);
}

#[test]
fn lookup_in_an_empty_index_is_zero() {
    let index = OffsetIndex::build(Vec::new());
    assert_eq!(index.len(), 0);
    assert_eq!(index.offset_to_instruction_index(0), 0);
    assert_eq!(index.offset_to_instruction_index(100), 0);
}

#[test]
fn lookup_never_moves_backwards() {
    let buffer: Vec<u8> = (0..200u32).map(|i| [0x90u8, 0xB8, 0x01, 0xC3, 0x0F][(i * 7 % 5) as usize]).collect();
    let index = OffsetIndex::build(decode(&toy, &buffer, &Header::Unrecognized));
    let mut last = 0;
    for offset in 0..220 {
        let at = index.offset_to_instruction_index(offset);
        assert!(at >= last);
        assert!(index.offsets[at] <= offset);
        assert!(at + 1 == index.len() || index.offsets[at + 1] > offset);
        last = at;
    }
}

#[test]
fn an_edit_leaves_the_instructions_before_it() {
    let buffer = vec![0x90, 0xB8, 1, 2, 3, 4, 0xC3, 0xB8, 9, 9, 9, 9, 0x90];
    let before = decode_region(&toy, &buffer, 0, buffer.len(), Architecture::X86, Bitness::Bit64);
    assert_eq!(before.len(), 5);
    // Offset 7 begins the fourth instruction: replacing it breaks that instruction up.
    let mut edited = buffer.clone();
    edited[7] = 0x01;
    let after = decode_region(&toy, &edited, 0, edited.len(), Architecture::X86, Bitness::Bit64);
    assert_eq!(after[..3], before[..3]);
    assert_eq!(after[3].start_offset, before[3].start_offset);
    assert_eq!(after.len(), 9);
    assert_tiles(&after, 0, edited.len());
}

#[test]
fn header_consistency_is_checked_against_the_length() {
    assert!(Header::Unrecognized.is_well_formed(0));
    assert!(recognized(vec![]).is_well_formed(0));
    assert!(recognized(vec![section("a", 0, 10, true)]).is_well_formed(10));
    assert!(!recognized(vec![section("a", 0, 11, true)]).is_well_formed(10));
    assert!(!recognized(vec![section("a", 5, usize::MAX, true)]).is_well_formed(10));
    assert!(!recognized(vec![section("a", usize::MAX, 1, false)]).is_well_formed(10));
    assert!(recognized(vec![section("a", 0, 5, true), section("b", 5, 5, false)]).is_well_formed(10));
    assert!(!recognized(vec![section("a", 0, 6, true), section("b", 5, 5, false)]).is_well_formed(10));
    assert!(!recognized(vec![section("b", 5, 5, false), section("a", 0, 6, true)]).is_well_formed(10));
    assert!(recognized(vec![section("a", 0, 6, true), section("e", 3, 0, true)]).is_well_formed(10));
    assert!(!recognized(vec![section("a", 2, 2, true), section("b", 0, 8, true)]).is_well_formed(10));
}

#[test]
fn an_inconsistent_header_counts_as_none() {
    let fits = |_: &[u8]| recognized(vec![section(".text", 0, 4, true)]);
    let too_long = |_: &[u8]| recognized(vec![section(".text", 0, 40, true)]);
    let buffer = vec![0x90u8; 8];
    assert_eq!(Header::parse_header(&fits, &buffer), recognized(vec![section(".text", 0, 4, true)]));
    assert_eq!(Header::parse_header(&too_long, &buffer), Header::Unrecognized);
    assert_eq!(Header::parse_header(&|_: &[u8]| Header::Unrecognized, &buffer), Header::Unrecognized);
}

#[test]
fn what_a_header_says_and_what_is_assumed_without_one() {
    let header = Header::Recognized {
        format_kind: FormatKind::Pe,
        architecture: Architecture::Arm,
        bitness: Bitness::Bit32,
        entry_point: 0x40,
        sections: vec![],
    };
    assert_eq!(header.architecture(), Architecture::Arm);
    assert_eq!(header.bitness(), Bitness::Bit32);
    assert_eq!(header.entry_point(), 0x40);
    assert_eq!(Header::Unrecognized.architecture(), Architecture::X86);
    assert_eq!(Header::Unrecognized.bitness(), Bitness::Bit64);
    assert_eq!(Header::Unrecognized.entry_point(), 0);
    assert_eq!(header.file_type(), Some(FormatKind::Pe));
    assert_eq!(header.get_sections(), Some(&vec![]));
    assert_eq!(Header::Unrecognized.file_type(), None);
    assert_eq!(Header::Unrecognized.get_sections(), None);
    assert_eq!(
        recognized(vec![section("a", 1, 2, false)]).get_sections(),
        Some(&vec![section("a", 1, 2, false)])
    );
    assert_eq!(Bitness::Bit32.to_bits(), 32);
    assert_eq!(Bitness::Bit64.to_bits(), 64);
    assert_eq!(Header::Unrecognized.code_regions(0), vec![]);
    assert_eq!(Header::Unrecognized.code_regions(7), vec![Region { start: 0, end: 7 }]);
}

#[test]
fn the_header_decides_how_the_primitive_is_asked() {
    let by_bitness = |_: &[u8], _: usize, architecture: Architecture, bitness: Bitness| {
        Some((format!("{:?}/{}", architecture, bitness.to_bits()), 1usize))
    };
    let header = Header::Recognized {
        format_kind: FormatKind::Elf,
        architecture: Architecture::Riscv,
        bitness: Bitness::Bit32,
        entry_point: 0,
        sections: vec![section(".text", 1, 1, true)],
    };
    let buffer = vec![0u8; 2];
    assert_eq!(decode(&by_bitness, &buffer, &header)[0].instructions, vec![instruction(1, 1, "Riscv/32")]);
    assert_eq!(
        decode(&by_bitness, &buffer, &Header::Unrecognized)[0].instructions,
        vec![instruction(0, 1, "X86/64"), instruction(1, 1, "X86/64")]
    );
}
