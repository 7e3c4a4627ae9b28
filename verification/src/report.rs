//! The lines in which a header is reported to the user.

use vstd::prelude::*;
use vstd::string::*;
use crate::format::{hex_short_text, push_hex_short};
use crate::header::{Architecture, Bitness, FormatKind, Header, Section};

verus! {

/// The name under which a format is reported.
pub open spec fn format_name(kind: FormatKind) -> Seq<char> {
    match kind {
        FormatKind::Elf => "Elf"@,
        FormatKind::Pe => "Pe"@,
        FormatKind::MachO => "MachO"@,
        FormatKind::Other => "Other"@,
    }
}

/// The name under which an instruction set is reported.
pub open spec fn architecture_name(architecture: Architecture) -> Seq<char> {
    match architecture {
        Architecture::X86 => "X86"@,
        Architecture::Arm => "Arm"@,
        Architecture::Riscv => "Riscv"@,
        Architecture::Mips => "Mips"@,
        Architecture::PowerPc => "PowerPc"@,
        Architecture::Unknown => "Unknown"@,
    }
}

/// The word size in decimal digits.
pub open spec fn bitness_name(bitness: Bitness) -> Seq<char> {
    match bitness {
        Bitness::Bit32 => "32"@,
        Bitness::Bit64 => "64"@,
    }
}

/// A section as its name, its byte range in hexadecimal and a mark where
/// it holds code.
pub open spec fn section_text(section: Section) -> Seq<char> {
    section.name@ + ": 0x"@ + hex_short_text(section.start_offset as int) + "-0x"@ + hex_short_text(section.end())
        + (if section.is_executable {
        " (code)"@
    } else {
        Seq::<char>::empty()
    })
}

/// The line that reports section `i`.
pub open spec fn section_line(sections: Seq<Section>, i: int) -> Seq<char> {
    "Section: "@ + section_text(sections[i])
}

/// The line that tells where the list of commands is found.
pub open spec fn help_line(help_key: Seq<char>) -> Seq<char> {
    "Press "@ + help_key + " for a list of commands."@
}

/// The report on a header: for a recognised file its format, instruction
/// set, word size and entry point and one line for each section; for an
/// unrecognised one the assumption made. The last line tells where the
/// list of commands is found.
pub open spec fn header_report(header: Header, help_key: Seq<char>) -> Seq<Seq<char>> {
    match header {
        Header::Unrecognized => seq!["No header found. Assuming 64-bit."@, help_line(help_key)],
        Header::Recognized { format_kind, architecture, bitness, entry_point, sections } => seq![
            "File type: "@ + format_name(format_kind),
            "Architecture: "@ + architecture_name(architecture),
            "Bitness: "@ + bitness_name(bitness),
            "Entry point: 0x"@ + hex_short_text(entry_point as int),
        ] + Seq::new(sections@.len(), |i: int| section_line(sections@, i)) + seq![help_line(help_key)],
    }
}

/// The texts of a vector of lines.
pub open spec fn texts(lines: Seq<String>) -> Seq<Seq<char>> {
    lines.map_values(|line: String| line@)
}

/// The name under which a format is reported.
pub fn format_kind_name(kind: FormatKind) -> (name: &'static str)
    ensures
        name@ == format_name(kind),
{
    match kind {
        FormatKind::Elf => "Elf",
        FormatKind::Pe => "Pe",
        FormatKind::MachO => "MachO",
        FormatKind::Other => "Other",
    }
}

/// The name under which an instruction set is reported.
pub fn architecture_label(architecture: Architecture) -> (name: &'static str)
    ensures
        name@ == architecture_name(architecture),
{
    match architecture {
        Architecture::X86 => "X86",
        Architecture::Arm => "Arm",
        Architecture::Riscv => "Riscv",
        Architecture::Mips => "Mips",
        Architecture::PowerPc => "PowerPc",
        Architecture::Unknown => "Unknown",
    }
}

/// The word size in decimal digits.
pub fn bitness_label(bitness: Bitness) -> (name: &'static str)
    ensures
        name@ == bitness_name(bitness),
{
    match bitness {
        Bitness::Bit32 => "32",
        Bitness::Bit64 => "64",
    }
}

/// `prefix` followed by `rest`.
fn joined(prefix: &str, rest: &str) -> (line: String)
    ensures
        line@ == prefix@ + rest@,
{
    let mut line = String::from_str(prefix);
    line.append(rest);
    line
}

/// A section as its name, its byte range and a mark where it holds code.
pub fn describe_section(section: &Section) -> (text: String)
    requires
        section.end() <= usize::MAX,
    ensures
        text@ == section_text(*section),
{
    let mut text = section.name.clone();
    text.append(": 0x");
    push_hex_short(&mut text, section.start_offset);
    text.append("-0x");
    push_hex_short(&mut text, section.start_offset + section.size);
    if section.is_executable {
        text.append(" (code)");
    }
    proof {
        assert(text@ =~= section_text(*section));
    }
    text
}

/// The report on `header`, line by line.
pub fn report_header(header: &Header, help_key: &str) -> (lines: Vec<String>)
    requires
        forall|i: int| 0 <= i < header.sections().len() ==> (#[trigger] header.sections()[i]).end() <= usize::MAX,
    ensures
        texts(lines@) == header_report(*header, help_key@),
{
    let mut lines: Vec<String> = Vec::new();
    match header {
        Header::Unrecognized => {
            lines.push(String::from_str("No header found. Assuming 64-bit."));
        },
        Header::Recognized { format_kind, architecture, bitness, entry_point, sections } => {
            lines.push(joined("File type: ", format_kind_name(*format_kind)));
            lines.push(joined("Architecture: ", architecture_label(*architecture)));
            lines.push(joined("Bitness: ", bitness_label(*bitness)));
            let mut entry = String::from_str("Entry point: 0x");
            push_hex_short(&mut entry, *entry_point);
            lines.push(entry);
            let ghost head = texts(lines@);
            let mut i: usize = 0;
            proof {
                assert(header.sections() == sections@);
                assert forall|k: int| 0 <= k < sections@.len() implies (#[trigger] sections@[k]).end() <= usize::MAX by {
                    assert(header.sections()[k].end() <= usize::MAX);
                }
                assert(texts(lines@) =~= head + Seq::new(0, |k: int| section_line(sections@, k)));
            }
            while i < sections.len()
                invariant
                    header.sections() == sections@,
                    forall|k: int| 0 <= k < sections@.len() ==> (#[trigger] sections@[k]).end() <= usize::MAX,
                    0 <= i <= sections@.len(),
                    texts(lines@) == head + Seq::new(i as nat, |k: int| section_line(sections@, k)),
                decreases sections@.len() - i,
            {
                let described = describe_section(&sections[i]);
                let line = joined("Section: ", described.as_str());
                proof {
                    let shorter = Seq::new(i as nat, |k: int| section_line(sections@, k));
                    let longer = Seq::new((i + 1) as nat, |k: int| section_line(sections@, k));
                    assert(line@ == section_line(sections@, i as int));
                    assert(longer =~= shorter.push(line@));
                    assert(texts(lines@.push(line)) =~= texts(lines@).push(line@));
                    assert(head + longer =~= (head + shorter).push(line@));
                }
                lines.push(line);
                i = i + 1;
            }
        },
    }
    let ghost body = texts(lines@);
    let mut last = String::from_str("Press ");
    last.append(help_key);
    last.append(" for a list of commands.");
    lines.push(last);
    proof {
        assert(texts(lines@) =~= body.push(help_line(help_key@)));
        assert(texts(lines@) =~= header_report(*header, help_key@));
    }
    lines
}

} // verus!
