//! Executable-header metadata and the code regions it designates.

use vstd::prelude::*;

verus! {

/// Instruction-set family of an executable.
#[derive(Clone, Copy, Debug, PartialEq, Eq, Structural)]
pub enum Architecture {
    X86,
    Arm,
    Riscv,
    Mips,
    PowerPc,
    Unknown,
}

/// Word size of an executable.
#[derive(Clone, Copy, Debug, PartialEq, Eq, Structural)]
pub enum Bitness {
    Bit32,
    Bit64,
}

/// Container format of an executable.
#[derive(Clone, Copy, Debug, PartialEq, Eq, Structural)]
pub enum FormatKind {
    Elf,
    Pe,
    MachO,
    Other,
}

impl Bitness {
    /// The word size in bits.
    pub open spec fn bits(self) -> int {
        match self {
            Bitness::Bit32 => 32,
            Bitness::Bit64 => 64,
        }
    }

    /// The word size in bits: 32 or 64.
    pub fn to_bits(self) -> (r: u32)
        ensures
            r == self.bits(),
    {
        match self {
            Bitness::Bit32 => 32,
            Bitness::Bit64 => 64,
        }
    }
}

/// A named contiguous byte range of the file.
#[derive(Debug, PartialEq, Eq)]
pub struct Section {
    pub name: String,
    pub start_offset: usize,
    pub size: usize,
    pub is_executable: bool,
}

impl Section {
    /// First offset after the section.
    pub open spec fn end(self) -> int {
        self.start_offset + self.size
    }

    /// The section holds code to decode: it is executable and not empty.
    pub open spec fn is_code(self) -> bool {
        self.is_executable && self.size > 0
    }

    /// The byte range of the section.
    pub open spec fn region(self) -> Region {
        Region { start: self.start_offset, end: (self.start_offset + self.size) as usize }
    }
}

/// Two sections share at least one byte.
pub open spec fn overlap(a: Section, b: Section) -> bool {
    &&& a.start_offset < b.end()
    &&& b.start_offset < a.end()
    &&& a.size > 0
    &&& b.size > 0
}

/// A half-open byte range `[start, end)`.
#[derive(Clone, Copy, Debug, PartialEq, Eq, Structural)]
pub struct Region {
    pub start: usize,
    pub end: usize,
}

/// What is known of a file's structure: nothing, or the metadata of a
/// recognised executable format.
#[derive(Debug, PartialEq, Eq)]
pub enum Header {
    Unrecognized,
    Recognized {
        format_kind: FormatKind,
        architecture: Architecture,
        bitness: Bitness,
        entry_point: usize,
        sections: Vec<Section>,
    },
}

/// The sections lie inside a file of `len` bytes and no two of them share
/// a byte.
pub open spec fn sections_fit(sections: Seq<Section>, len: int) -> bool {
    &&& forall|i: int| 0 <= i < sections.len() ==> (#[trigger] sections[i]).end() <= len
    &&& forall|i: int, j: int| 0 <= i < j < sections.len() ==> !overlap(#[trigger] sections[i], #[trigger] sections[j])
}

/// `regions` lists ranges in ascending order, none empty, none reaching
/// into the next, all inside `len` bytes.
pub open spec fn ascending(regions: Seq<Region>, len: int) -> bool {
    &&& forall|i: int| 0 <= i < regions.len() ==> (#[trigger] regions[i]).start < regions[i].end <= len
    &&& forall|i: int, j: int| 0 <= i < j < regions.len() ==> (#[trigger] regions[i]).end <= (#[trigger] regions[j]).start
}

impl Header {
    /// The header's sections, none for an unrecognised file.
    pub open spec fn sections(self) -> Seq<Section> {
        match self {
            Header::Unrecognized => Seq::<Section>::empty(),
            Header::Recognized { sections, .. } => sections@,
        }
    }

    /// The header is consistent with a file of `len` bytes.
    pub open spec fn wf(self, len: int) -> bool {
        sections_fit(self.sections(), len)
    }

    /// `header` where it is consistent with a file of `len` bytes; no
    /// header otherwise.
    pub open spec fn accepted(header: Header, len: int) -> Header {
        if header.wf(len) {
            header
        } else {
            Header::Unrecognized
        }
    }

    /// The instruction set to decode with; x86 where nothing is known.
    pub open spec fn spec_architecture(self) -> Architecture {
        match self {
            Header::Unrecognized => Architecture::X86,
            Header::Recognized { architecture, .. } => architecture,
        }
    }

    /// The word size to decode with; 64 bits where nothing is known.
    pub open spec fn spec_bitness(self) -> Bitness {
        match self {
            Header::Unrecognized => Bitness::Bit64,
            Header::Recognized { bitness, .. } => bitness,
        }
    }

    /// The offset at which execution starts; zero where nothing is known.
    pub open spec fn spec_entry_point(self) -> int {
        match self {
            Header::Unrecognized => 0,
            Header::Recognized { entry_point, .. } => entry_point as int,
        }
    }

    /// `region` is to be decoded: it is the whole of a non-empty file
    /// without header, or the range of an executable, non-empty section.
    pub open spec fn designates(self, len: int, region: Region) -> bool {
        match self {
            Header::Unrecognized => len > 0 && region.start == 0 && region.end == len,
            Header::Recognized { sections, .. } => exists|i: int|
                0 <= i < sections@.len() && (#[trigger] sections@[i]).is_code() && region == sections@[i].region(),
        }
    }

    /// `regions` are the ranges to decode, each once, in ascending order.
    pub open spec fn code_regions_are(self, len: int, regions: Seq<Region>) -> bool {
        &&& ascending(regions, len)
        &&& forall|r: Region| regions.contains(r) <==> self.designates(len, r)
    }

    /// The instruction set to decode with.
    pub fn architecture(&self) -> (a: Architecture)
        ensures
            a == self.spec_architecture(),
    {
        match self {
            Header::Unrecognized => Architecture::X86,
            Header::Recognized { architecture, .. } => *architecture,
        }
    }

    /// The word size to decode with.
    pub fn bitness(&self) -> (b: Bitness)
        ensures
            b == self.spec_bitness(),
    {
        match self {
            Header::Unrecognized => Bitness::Bit64,
            Header::Recognized { bitness, .. } => *bitness,
        }
    }

    /// The offset at which execution starts.
    pub fn entry_point(&self) -> (e: usize)
        ensures
            e == self.spec_entry_point(),
    {
        match self {
            Header::Unrecognized => 0,
            Header::Recognized { entry_point, .. } => *entry_point,
        }
    }

    /// The container format, where the file was recognised.
    pub fn file_type(&self) -> (kind: Option<FormatKind>)
        ensures
            kind == match *self {
                Header::Unrecognized => None::<FormatKind>,
                Header::Recognized { format_kind, .. } => Some(format_kind),
            },
    {
        match self {
            Header::Unrecognized => None,
            Header::Recognized { format_kind, .. } => Some(*format_kind),
        }
    }

    /// The sections, where the file was recognised.
    pub fn get_sections(&self) -> (sections: Option<&Vec<Section>>)
        ensures
            self is Unrecognized ==> sections is None,
            self is Recognized ==> sections is Some && sections->0@ == self.sections(),
    {
        match self {
            Header::Unrecognized => None,
            Header::Recognized { sections, .. } => Some(sections),
        }
    }

    /// Tells whether the header is consistent with a file of `len` bytes.
    pub fn is_well_formed(&self, len: usize) -> (ok: bool)
        ensures
            ok == self.wf(len as int),
    {
        match self {
            Header::Unrecognized => true,
            Header::Recognized { sections, .. } => {
                let n = sections.len();
                let mut i: usize = 0;
                while i < n
                    invariant
                        self.sections() == sections@,
                        n == sections@.len(),
                        0 <= i <= n,
                        sections_fit(sections@.subrange(0, i as int), len as int),
                    decreases n - i,
                {
                    let s = &sections[i];
                    if s.size > len || s.start_offset > len - s.size {
                        assert(self.sections()[i as int].end() > len);
                        return false;
                    }
                    let mut j: usize = 0;
                    while j < i
                        invariant
                            self.sections() == sections@,
                            n == sections@.len(),
                            0 <= j <= i < n,
                            *s == sections@[i as int],
                            s.end() <= len,
                            sections_fit(sections@.subrange(0, i as int), len as int),
                            forall|k: int| 0 <= k < j ==> !overlap(#[trigger] sections@[k], *s),
                        decreases i - j,
                    {
                        let t = &sections[j];
                        assert(*t == sections@.subrange(0, i as int)[j as int]);
                        if s.size > 0 && t.size > 0 && t.start_offset < s.start_offset + s.size && s.start_offset
                            < t.start_offset + t.size {
                            assert(overlap(self.sections()[j as int], self.sections()[i as int]));
                            return false;
                        }
                        j = j + 1;
                    }
                    proof {
                        let before = sections@.subrange(0, i as int);
                        let after = sections@.subrange(0, i as int + 1);
                        assert forall|a: int, b: int| 0 <= a < b < after.len() implies !overlap(#[trigger] after[a],
                            #[trigger] after[b],
                        ) by {
                            if b < i {
                                assert(after[a] == before[a]);
                                assert(after[b] == before[b]);
                            }
                        }
                        assert forall|a: int| 0 <= a < after.len() implies (#[trigger] after[a]).end() <= len by {
                            if a < i {
                                assert(after[a] == before[a]);
                            }
                        }
                    }
                    i = i + 1;
                }
                assert(sections@.subrange(0, n as int) =~= sections@);
                true
            },
        }
    }

    /// Runs `parse` on `buffer` and keeps its answer where that is
    /// consistent with the buffer; an inconsistent answer counts as no
    /// header.
    pub fn parse_header<P>(parse: &P, buffer: &[u8]) -> (h: Header)
        where P: Fn(&[u8]) -> Header
        requires
            parse.requires((buffer,)),
        ensures
            h.wf(buffer@.len() as int),
            exists|raw: Header| #[trigger] parse.ensures((buffer,), raw) && h == Header::accepted(raw, buffer@.len() as int),
    {
        let raw = parse(buffer);
        if raw.is_well_formed(buffer.len()) {
            raw
        } else {
            Header::Unrecognized
        }
    }

    /// The ranges to decode, in ascending order.
    pub fn code_regions(&self, len: usize) -> (regions: Vec<Region>)
        requires
            self.wf(len as int),
        ensures
            self.code_regions_are(len as int, regions@),
    {
        let mut out: Vec<Region> = Vec::new();
        match self {
            Header::Unrecognized => {
                if len > 0 {
                    out.push(Region { start: 0, end: len });
                    assert(out@[0] == Region { start: 0, end: len });
                }
                assert forall|r: Region| out@.contains(r) <==> self.designates(len as int, r) by {
                    if self.designates(len as int, r) {
                        assert(out@[0] == r);
                    }
                }
            },
            Header::Recognized { sections, .. } => {
                let n = sections.len();
                let mut k: usize = 0;
                while k < n
                    invariant
                        self.sections() == sections@,
                        n == sections@.len(),
                        0 <= k <= n,
                        sections_fit(sections@, len as int),
                        ascending(out@, len as int),
                        forall|r: Region|
                            out@.contains(r) <==> exists|i: int|
                                0 <= i < k && (#[trigger] sections@[i]).is_code() && r == sections@[i].region(),
                    decreases n - k,
                {
                    let s = &sections[k];
                    if s.is_executable && s.size > 0 {
                        let region = Region { start: s.start_offset, end: s.start_offset + s.size };
                        let mut p: usize = 0;
                        while p < out.len() && out[p].start < region.start
                            invariant
                                0 <= p <= out@.len(),
                                forall|a: int| 0 <= a < p ==> (#[trigger] out@[a]).start < region.start,
                            decreases out@.len() - p,
                        {
                            p = p + 1;
                        }
                        let ghost before = out@;
                        out.insert(p, region);
                        proof {
                            let after = out@;
                            assert(after == before.insert(p as int, region));
                            assert forall|a: int| 0 <= a < before.len() implies !region_overlap(#[trigger] before[a],
                                region,
                            ) by {
                                assert(before.contains(before[a]));
                                let i = choose|i: int|
                                    0 <= i < k && (#[trigger] sections@[i]).is_code() && before[a] == sections@[i].region();
                                assert(!overlap(sections@[i], sections@[k as int]));
                            }
                            assert forall|a: int, b: int| 0 <= a < b < after.len() implies (#[trigger] after[a]).end
                                <= (#[trigger] after[b]).start by {
                                if b < p {
                                    assert(after[a] == before[a] && after[b] == before[b]);
                                } else if b == p {
                                    assert(after[a] == before[a]);
                                    assert(!region_overlap(before[a], region));
                                } else if a < p {
                                    assert(after[a] == before[a] && after[b] == before[b - 1]);
                                } else if a == p {
                                    assert(after[b] == before[b - 1]);
                                    assert(!region_overlap(before[b - 1], region));
                                    if p < b - 1 {
                                        assert(before[p as int].end <= before[b - 1].start);
                                    }
                                } else {
                                    assert(after[a] == before[a - 1] && after[b] == before[b - 1]);
                                }
                            }
                            assert forall|a: int| 0 <= a < after.len() implies (#[trigger] after[a]).start < after[a].end
                                <= len by {
                                if a < p {
                                    assert(after[a] == before[a]);
                                } else if a > p {
                                    assert(after[a] == before[a - 1]);
                                }
                            }
                            assert forall|r: Region|
                                after.contains(r) <==> exists|i: int|
                                    0 <= i < k + 1 && (#[trigger] sections@[i]).is_code() && r == sections@[i].region() by {
                                if after.contains(r) {
                                    let a = choose|a: int| 0 <= a < after.len() && after[a] == r;
                                    if a < p {
                                        assert(before[a] == r);
                                        assert(before.contains(r));
                                    } else if a > p {
                                        assert(before[a - 1] == r);
                                        assert(before.contains(r));
                                    } else {
                                        assert(r == sections@[k as int].region());
                                    }
                                }
                                if exists|i: int|
                                    0 <= i < k + 1 && (#[trigger] sections@[i]).is_code() && r == sections@[i].region() {
                                    let i = choose|i: int|
                                        0 <= i < k + 1 && (#[trigger] sections@[i]).is_code() && r == sections@[i].region();
                                    if i < k {
                                        assert(before.contains(r));
                                        let a = choose|a: int| 0 <= a < before.len() && before[a] == r;
                                        if a < p {
                                            assert(after[a] == r);
                                        } else {
                                            assert(after[a + 1] == r);
                                        }
                                    } else {
                                        assert(after[p as int] == r);
                                    }
                                }
                            }
                        }
                    } else {
                        assert forall|r: Region|
                            out@.contains(r) <==> exists|i: int|
                                0 <= i < k + 1 && (#[trigger] sections@[i]).is_code() && r == sections@[i].region() by {
                            if exists|i: int|
                                0 <= i < k + 1 && (#[trigger] sections@[i]).is_code() && r == sections@[i].region() {
                                let i = choose|i: int|
                                    0 <= i < k + 1 && (#[trigger] sections@[i]).is_code() && r == sections@[i].region();
                                assert(i < k);
                            }
                        }
                    }
                    k = k + 1;
                }
            },
        }
        out
    }
}

/// Two non-empty ranges share at least one byte.
pub open spec fn region_overlap(a: Region, b: Region) -> bool {
    a.start < b.end && b.start < a.end
}

} // verus!
