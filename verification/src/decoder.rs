//! Turns a decoding primitive that may fail into a gapless instruction
//! stream over a code region.

use vstd::prelude::*;
use vstd::string::*;
use vstd::slice::*;
use crate::header::Architecture;
use crate::header::Bitness;
use crate::header::Header;
use crate::header::Region;

verus! {

/// One decoded unit of machine code.
#[derive(Debug, PartialEq, Eq)]
pub struct Instruction {
    pub start_offset: usize,
    pub length: usize,
    pub text: String,
}

/// Mathematical content of an [`Instruction`].
pub struct InstructionView {
    pub start: int,
    pub length: int,
    pub text: Seq<char>,
}

impl View for Instruction {
    type V = InstructionView;

    open spec fn view(&self) -> InstructionView {
        InstructionView { start: self.start_offset as int, length: self.length as int, text: self.text@ }
    }
}

impl InstructionView {
    /// First offset after the instruction.
    pub open spec fn end(self) -> int {
        self.start + self.length
    }
}

/// The text of the pseudo-instruction that stands for an undecodable byte.
pub open spec fn invalid_text() -> Seq<char> {
    "(invalid)"@
}

/// What a primitive's answer is, as plain mathematics.
pub open spec fn outcome_view(outcome: Option<(String, usize)>) -> Option<(Seq<char>, int)> {
    match outcome {
        Some((text, length)) => Some((text@, length as int)),
        None => None,
    }
}

/// The instruction that the stream holds at `offset` when the primitive
/// answered `outcome` there: the primitive's own instruction if its length
/// is at least one and stays inside the region, a one-byte invalid
/// instruction otherwise.
pub open spec fn instruction_for(offset: int, region_end: int, outcome: Option<(Seq<char>, int)>) -> InstructionView {
    match outcome {
        Some((text, length)) if 1 <= length <= region_end - offset => InstructionView {
            start: offset,
            length: length,
            text: text,
        },
        _ => InstructionView { start: offset, length: 1, text: invalid_text() },
    }
}

/// `instrs` tiles `[start, end)`: the first instruction begins at `start`,
/// each one is at least a byte long and ends where the next begins, and the
/// last one ends at `end`. An empty range is tiled by no instruction.
pub open spec fn covers(instrs: Seq<InstructionView>, start: int, end: int) -> bool {
    &&& start <= end
    &&& (instrs.len() == 0 <==> start == end)
    &&& instrs.len() > 0 ==> instrs[0].start == start
    &&& forall|i: int| 0 <= i < instrs.len() ==> (#[trigger] instrs[i]).length >= 1
    &&& forall|i: int, j: int|
        0 <= i && j == i + 1 && j < instrs.len() ==> (#[trigger] instrs[i]).end() == (#[trigger] instrs[j]).start
    &&& instrs.len() > 0 ==> instrs[instrs.len() - 1].end() == end
}

/// Views of a vector of instructions, in order.
pub open spec fn views(instrs: Seq<Instruction>) -> Seq<InstructionView> {
    instrs.map_values(|x: Instruction| x@)
}

impl Instruction {
    /// Builds the instruction for `offset` from the primitive's answer.
    pub fn from_outcome(offset: usize, region_end: usize, outcome: Option<(String, usize)>) -> (r: Instruction)
        requires
            offset < region_end,
        ensures
            r@ == instruction_for(offset as int, region_end as int, outcome_view(outcome)),
    {
        match outcome {
            Some((text, length)) => {
                if 1 <= length && length <= region_end - offset {
                    Instruction { start_offset: offset, length, text }
                } else {
                    Instruction { start_offset: offset, length: 1, text: String::from_str("(invalid)") }
                }
            },
            None => Instruction { start_offset: offset, length: 1, text: String::from_str("(invalid)") },
        }
    }
}

/// `decode_one` may answer `outcome` when asked at `offset` of `bytes`.
pub open spec fn answers<D>(
    decode_one: &D,
    bytes: Seq<u8>,
    offset: usize,
    architecture: Architecture,
    bitness: Bitness,
    outcome: Option<(String, usize)>,
) -> bool
    where D: Fn(&[u8], usize, Architecture, Bitness) -> Option<(String, usize)>
{
    exists|b: &[u8]| b@ == bytes && #[trigger] decode_one.ensures((b, offset, architecture, bitness), outcome)
}

/// `decode_one` may be asked at any offset inside any bytes.
pub open spec fn askable<D>(decode_one: &D, architecture: Architecture, bitness: Bitness) -> bool
    where D: Fn(&[u8], usize, Architecture, Bitness) -> Option<(String, usize)>
{
    forall|bytes: &[u8], offset: usize|
        offset < bytes@.len() ==> #[trigger] decode_one.requires((bytes, offset, architecture, bitness))
}

/// `instr` is what the stream holds for some answer of `decode_one` at the
/// instruction's own offset, in the region of `buffer` that ends at `end`.
pub open spec fn decoded_by<D>(
    instr: Instruction,
    decode_one: &D,
    buffer: Seq<u8>,
    end: int,
    architecture: Architecture,
    bitness: Bitness,
) -> bool
    where D: Fn(&[u8], usize, Architecture, Bitness) -> Option<(String, usize)>
{
    exists|outcome: Option<(String, usize)>|
        #[trigger] answers(decode_one, buffer.subrange(0, end), instr.start_offset, architecture, bitness, outcome)
        && instr@ == instruction_for(instr.start_offset as int, end, outcome_view(outcome))
}

/// Decodes `[start, end)` of `buffer` by asking `decode_one` at each
/// instruction boundary in turn. The primitive sees the buffer up to the
/// region's end. Every answer is accepted or replaced by a one-byte invalid
/// instruction, so the stream always tiles the region.
pub fn decode_region<D>(
    decode_one: &D,
    buffer: &[u8],
    start: usize,
    end: usize,
    architecture: Architecture,
    bitness: Bitness,
) -> (r: Vec<Instruction>)
    where D: Fn(&[u8], usize, Architecture, Bitness) -> Option<(String, usize)>
    requires
        start <= end <= buffer@.len(),
        askable(decode_one, architecture, bitness),
    ensures
        covers(views(r@), start as int, end as int),
        forall|i: int|
            0 <= i < r@.len() ==> decoded_by(#[trigger] r@[i], decode_one, buffer@, end as int, architecture, bitness),
{
    let region = slice_subrange(buffer, 0, end);
    let mut out: Vec<Instruction> = Vec::new();
    let mut offset: usize = start;
    while offset < end
        invariant
            start <= offset <= end <= buffer@.len(),
            region@ == buffer@.subrange(0, end as int),
            askable(decode_one, architecture, bitness),
            covers(views(out@), start as int, offset as int),
            forall|i: int|
                0 <= i < out@.len() ==> decoded_by(
                    #[trigger] out@[i],
                    decode_one,
                    buffer@,
                    end as int,
                    architecture,
                    bitness,
                ),
        decreases end - offset,
    {
        let outcome = decode_one(region, offset, architecture, bitness);
        let instr = Instruction::from_outcome(offset, end, outcome);
        proof {
            assert(answers(decode_one, buffer@.subrange(0, end as int), offset, architecture, bitness, outcome));
            assert(decoded_by(instr, decode_one, buffer@, end as int, architecture, bitness));
            let before = views(out@);
            let after = views(out@.push(instr));
            assert(after =~= before.push(instr@));
        }
        offset = offset + instr.length;
        out.push(instr);
    }
    out
}

/// In a tiling every instruction lies inside the range, and of two
/// instructions the earlier one ends before the later one begins: the
/// stream is strictly ascending and nothing overlaps.
pub proof fn covers_is_ascending(instrs: Seq<InstructionView>, start: int, end: int, i: int, j: int)
    requires
        covers(instrs, start, end),
        0 <= i <= j < instrs.len(),
    ensures
        start <= instrs[i].start < instrs[i].end() <= end,
        start <= instrs[j].start < instrs[j].end() <= end,
        i < j ==> instrs[i].end() <= instrs[j].start,
        i < j ==> instrs[i].start < instrs[j].start,
    decreases j - i,
{
    starts_inside(instrs, start, end, i);
    starts_inside(instrs, start, end, j);
    ends_inside(instrs, start, end, i);
    ends_inside(instrs, start, end, j);
    if i < j {
        covers_is_ascending(instrs, start, end, i, j - 1);
        assert(instrs[j - 1].end() == instrs[j].start);
    }
}

/// No instruction of a tiling begins before the range.
proof fn starts_inside(instrs: Seq<InstructionView>, start: int, end: int, i: int)
    requires
        covers(instrs, start, end),
        0 <= i < instrs.len(),
    ensures
        start <= instrs[i].start,
    decreases i,
{
    if i > 0 {
        starts_inside(instrs, start, end, i - 1);
        assert(instrs[i - 1].end() == instrs[i].start);
    }
}

/// No instruction of a tiling ends after the range.
proof fn ends_inside(instrs: Seq<InstructionView>, start: int, end: int, i: int)
    requires
        covers(instrs, start, end),
        0 <= i < instrs.len(),
    ensures
        instrs[i].end() <= end,
    decreases instrs.len() - i,
{
    if i + 1 < instrs.len() {
        ends_inside(instrs, start, end, i + 1);
        assert(instrs[i].end() == instrs[i + 1].start);
    }
}

/// A code region with the instructions decoded from it.
#[derive(Debug, PartialEq, Eq)]
pub struct DecodedRegion {
    pub region: Region,
    pub instructions: Vec<Instruction>,
}

impl DecodedRegion {
    /// The instructions tile the region.
    pub open spec fn tiled(self) -> bool {
        covers(views(self.instructions@), self.region.start as int, self.region.end as int)
    }

    /// The instructions tile the region, and each is what the stream holds
    /// for an answer of `decode_one`.
    pub open spec fn decoded<D>(self, decode_one: &D, buffer: Seq<u8>, architecture: Architecture, bitness: Bitness) -> bool
        where D: Fn(&[u8], usize, Architecture, Bitness) -> Option<(String, usize)>
    {
        &&& self.tiled()
        &&& forall|i: int|
            0 <= i < self.instructions@.len() ==> decoded_by(#[trigger] self.instructions@[i],
                decode_one,
                buffer,
                self.region.end as int,
                architecture,
                bitness,
            )
    }
}

/// The ranges of decoded regions, in order.
pub open spec fn regions_of(decoded: Seq<DecodedRegion>) -> Seq<Region> {
    decoded.map_values(|d: DecodedRegion| d.region)
}

/// Decodes every code region that `header` designates in `buffer`, each
/// on its own and in ascending order of offset, with the instruction set
/// and word size of the header.
pub fn decode<D>(decode_one: &D, buffer: &[u8], header: &Header) -> (r: Vec<DecodedRegion>)
    where D: Fn(&[u8], usize, Architecture, Bitness) -> Option<(String, usize)>
    requires
        header.wf(buffer@.len() as int),
        askable(decode_one, header.spec_architecture(), header.spec_bitness()),
    ensures
        header.code_regions_are(buffer@.len() as int, regions_of(r@)),
        forall|k: int|
            0 <= k < r@.len() ==> (#[trigger] r@[k]).decoded(
                decode_one,
                buffer@,
                header.spec_architecture(),
                header.spec_bitness(),
            ),
{
    let architecture = header.architecture();
    let bitness = header.bitness();
    let regions = header.code_regions(buffer.len());
    let mut out: Vec<DecodedRegion> = Vec::new();
    let mut k: usize = 0;
    while k < regions.len()
        invariant
            0 <= k <= regions@.len(),
            architecture == header.spec_architecture(),
            bitness == header.spec_bitness(),
            crate::header::ascending(regions@, buffer@.len() as int),
            askable(decode_one, architecture, bitness),
            out@.len() == k,
            regions_of(out@) == regions@.subrange(0, k as int),
            forall|i: int| 0 <= i < out@.len() ==> (#[trigger] out@[i]).decoded(decode_one, buffer@, architecture, bitness),
        decreases regions@.len() - k,
    {
        let region = regions[k];
        let instructions = decode_region(decode_one, buffer, region.start, region.end, architecture, bitness);
        let decoded = DecodedRegion { region, instructions };
        proof {
            assert(decoded.decoded(decode_one, buffer@, architecture, bitness));
            let grown = regions_of(out@.push(decoded));
            let wanted = regions@.subrange(0, k as int + 1);
            assert(grown.len() == wanted.len());
            assert forall|i: int| 0 <= i < grown.len() implies grown[i] == wanted[i] by {
                if i < k {
                    assert(regions_of(out@)[i] == regions@.subrange(0, k as int)[i]);
                }
            }
            assert(grown =~= wanted);
        }
        out.push(decoded);
        k = k + 1;
    }
    proof {
        assert(regions@.subrange(0, k as int) =~= regions@);
    }
    out
}

/// On the two buffers `decode_one` answers alike at `offset`: whatever it
/// may answer on the one, seen as text and length, it may only answer on
/// the other.
pub open spec fn answers_alike<D>(
    decode_one: &D,
    first: Seq<u8>,
    second: Seq<u8>,
    offset: usize,
    architecture: Architecture,
    bitness: Bitness,
) -> bool
    where D: Fn(&[u8], usize, Architecture, Bitness) -> Option<(String, usize)>
{
    forall|a: Option<(String, usize)>, b: Option<(String, usize)>|
        #[trigger] answers(decode_one, first, offset, architecture, bitness, a)
        && #[trigger] answers(decode_one, second, offset, architecture, bitness, b)
        ==> outcome_view(a) == outcome_view(b)
}

/// Decoding a region again after one byte of it was replaced leaves every
/// instruction before the one that held the byte as it was, and that
/// instruction still begins where it began; only from there on may the
/// boundaries move. This holds of a primitive whose answers at the offsets
/// before that instruction are the same on the old and the new buffer.
pub proof fn edit_keeps_earlier_instructions<D>(
    decode_one: &D,
    buffer: Seq<u8>,
    k: int,
    byte: u8,
    start: int,
    end: int,
    architecture: Architecture,
    bitness: Bitness,
    before: Seq<Instruction>,
    after: Seq<Instruction>,
    at: int,
    i: int,
)
    where D: Fn(&[u8], usize, Architecture, Bitness) -> Option<(String, usize)>
    requires
        0 <= start <= end <= buffer.len(),
        0 <= k < buffer.len(),
        covers(views(before), start, end),
        covers(views(after), start, end),
        forall|n: int| 0 <= n < before.len() ==> decoded_by(#[trigger] before[n], decode_one, buffer, end, architecture, bitness),
        forall|n: int|
            0 <= n < after.len() ==> decoded_by(#[trigger] after[n],
                decode_one,
                buffer.update(k, byte),
                end,
                architecture,
                bitness,
            ),
        0 <= at < before.len(),
        before[at]@.start <= k < before[at]@.end(),
        forall|o: usize|
            start <= o < before[at]@.start ==> #[trigger] answers_alike(
                decode_one,
                buffer.subrange(0, end),
                buffer.update(k, byte).subrange(0, end),
                o,
                architecture,
                bitness,
            ),
        0 <= i <= at,
    ensures
        i < after.len(),
        after[i]@.start == before[i]@.start,
        i < at ==> after[i]@ == before[i]@,
    decreases i,
{
    let old_views = views(before);
    let new_views = views(after);
    assert(old_views[at] == before[at]@);
    covers_is_ascending(old_views, start, end, i, at);
    assert(old_views[i] == before[i]@);
    if i == 0 {
        assert(new_views.len() > 0);
        assert(new_views[0] == after[0]@);
        assert(old_views[0] == before[0]@);
    } else {
        edit_keeps_earlier_instructions(decode_one, buffer, k, byte, start, end, architecture, bitness, before, after, at, i - 1);
        edit_keeps_earlier_instructions_here(decode_one, buffer, k, byte, start, end, architecture, bitness, before, after, at, i - 1);
        assert(old_views[i - 1] == before[i - 1]@);
        assert(new_views[i - 1] == after[i - 1]@);
        assert(old_views[i - 1].end() == old_views[i].start);
        covers_is_ascending(old_views, start, end, i, i);
        if i < new_views.len() {
            assert(new_views[i] == after[i]@);
            assert(new_views[i - 1].end() == new_views[i].start);
        } else {
            assert(new_views[new_views.len() - 1].end() == end);
        }
    }
    if i < at {
        edit_keeps_earlier_instructions_here(decode_one, buffer, k, byte, start, end, architecture, bitness, before, after, at, i);
    }
}

/// Two instructions that begin at one offset before the edited
/// instruction, one of each stream, are the same.
proof fn edit_keeps_earlier_instructions_here<D>(
    decode_one: &D,
    buffer: Seq<u8>,
    k: int,
    byte: u8,
    start: int,
    end: int,
    architecture: Architecture,
    bitness: Bitness,
    before: Seq<Instruction>,
    after: Seq<Instruction>,
    at: int,
    i: int,
)
    where D: Fn(&[u8], usize, Architecture, Bitness) -> Option<(String, usize)>
    requires
        0 <= k < buffer.len(),
        covers(views(before), start, end),
        forall|n: int| 0 <= n < before.len() ==> decoded_by(#[trigger] before[n], decode_one, buffer, end, architecture, bitness),
        forall|n: int|
            0 <= n < after.len() ==> decoded_by(#[trigger] after[n],
                decode_one,
                buffer.update(k, byte),
                end,
                architecture,
                bitness,
            ),
        0 <= at < before.len(),
        forall|o: usize|
            start <= o < before[at]@.start ==> #[trigger] answers_alike(
                decode_one,
                buffer.subrange(0, end),
                buffer.update(k, byte).subrange(0, end),
                o,
                architecture,
                bitness,
            ),
        0 <= i < at,
        i < after.len(),
        after[i]@.start == before[i]@.start,
    ensures
        after[i]@ == before[i]@,
{
    let old_views = views(before);
    assert(old_views[at] == before[at]@);
    assert(old_views[i] == before[i]@);
    covers_is_ascending(old_views, start, end, i, at);
    let o = before[i].start_offset;
    assert(decoded_by(before[i], decode_one, buffer, end, architecture, bitness));
    assert(decoded_by(after[i], decode_one, buffer.update(k, byte), end, architecture, bitness));
    let a = choose|a: Option<(String, usize)>|
        #[trigger] answers(decode_one, buffer.subrange(0, end), o, architecture, bitness, a) && before[i]@
            == instruction_for(o as int, end, outcome_view(a));
    let b = choose|b: Option<(String, usize)>|
        #[trigger] answers(decode_one, buffer.update(k, byte).subrange(0, end), o, architecture, bitness, b)
            && after[i]@ == instruction_for(o as int, end, outcome_view(b));
    assert(answers_alike(decode_one, buffer.subrange(0, end), buffer.update(k, byte).subrange(0, end), o, architecture, bitness));
}

} // verus!
