//! The table of instruction start offsets, and the lookup from a file
//! offset to the instruction that holds it.

use vstd::prelude::*;
use crate::decoder::{covers, covers_is_ascending, views, DecodedRegion, Instruction};
use crate::header::ascending;

verus! {

/// The instructions of all regions, one after the other.
pub open spec fn flatten(regions: Seq<DecodedRegion>) -> Seq<Instruction>
    decreases regions.len(),
{
    if regions.len() == 0 {
        Seq::<Instruction>::empty()
    } else {
        regions[0].instructions@ + flatten(regions.drop_first())
    }
}

/// Each start is below the next one.
pub open spec fn strictly_ascending(offsets: Seq<usize>) -> bool {
    forall|i: int, j: int| 0 <= i < j < offsets.len() ==> offsets[i] < offsets[j]
}

/// The position of the last start that is not above `offset`; zero where
/// there is none, be it that `offset` comes before every start or that
/// there are no starts at all.
pub open spec fn lookup(offsets: Seq<usize>, offset: int) -> int
    decreases offsets.len(),
{
    if offsets.len() <= 1 {
        0
    } else if offsets.last() <= offset {
        offsets.len() - 1
    } else {
        lookup(offsets.drop_last(), offset)
    }
}

/// The lookup never moves backwards as the offset grows.
pub proof fn lookup_is_monotonic(offsets: Seq<usize>, o1: int, o2: int)
    requires
        o1 <= o2,
    ensures
        lookup(offsets, o1) <= lookup(offsets, o2),
    decreases offsets.len(),
{
    lookup_in_range(offsets, o1);
    if offsets.len() > 1 && offsets.last() > o2 {
        lookup_is_monotonic(offsets.drop_last(), o1, o2);
    }
}

/// The lookup answers with a position of the table, or with zero for an
/// empty table.
pub proof fn lookup_in_range(offsets: Seq<usize>, offset: int)
    ensures
        0 <= lookup(offsets, offset),
        offsets.len() > 0 ==> lookup(offsets, offset) < offsets.len(),
        offsets.len() == 0 ==> lookup(offsets, offset) == 0,
    decreases offsets.len(),
{
    if offsets.len() > 1 && offsets.last() > offset {
        lookup_in_range(offsets.drop_last(), offset);
    }
}

/// In an ascending table the lookup is the one position whose start is
/// not above the offset while every later start is; or the first position
/// where the offset comes before every start.
pub proof fn lookup_is_last_at_or_below(offsets: Seq<usize>, offset: int, at: int)
    requires
        strictly_ascending(offsets),
        0 <= at < offsets.len(),
        at > 0 ==> offsets[at] <= offset,
        forall|j: int| at < j < offsets.len() ==> offsets[j] > offset,
    ensures
        lookup(offsets, offset) == at,
    decreases offsets.len(),
{
    if offsets.len() > 1 {
        if offsets.last() <= offset {
            if at < offsets.len() - 1 {
                assert(offsets[offsets.len() - 1] > offset);
            }
        } else {
            let rest = offsets.drop_last();
            if at == offsets.len() - 1 {
                assert(at == 0);
            }
            assert(strictly_ascending(rest)) by {
                assert forall|i: int, j: int| 0 <= i < j < rest.len() implies rest[i] < rest[j] by {
                    assert(rest[i] == offsets[i] && rest[j] == offsets[j]);
                }
            }
            assert forall|j: int| at < j < rest.len() implies rest[j] > offset by {
                assert(rest[j] == offsets[j]);
            }
            lookup_is_last_at_or_below(rest, offset, at);
        }
    }
}

/// All instructions of a file in ascending order, with the table of their
/// start offsets.
#[derive(Debug, PartialEq, Eq)]
pub struct OffsetIndex {
    pub instructions: Vec<Instruction>,
    pub offsets: Vec<usize>,
}

impl OffsetIndex {
    /// The table lists the start of each instruction, and the starts
    /// ascend strictly.
    pub open spec fn wf(self) -> bool {
        &&& self.offsets@.len() == self.instructions@.len()
        &&& forall|i: int| 0 <= i < self.offsets@.len() ==> #[trigger] self.offsets@[i] == self.instructions@[i].start_offset
        &&& strictly_ascending(self.offsets@)
    }

    /// Concatenates the instructions of `regions`, which come in ascending
    /// order of offset, and derives the table of their starts.
    pub fn build(regions: Vec<DecodedRegion>) -> (index: OffsetIndex)
        requires
            forall|k: int| 0 <= k < regions@.len() ==> (#[trigger] regions@[k]).tiled(),
            forall|a: int, b: int|
                0 <= a < b < regions@.len() ==> (#[trigger] regions@[a]).region.end <= (#[trigger] regions@[b]).region.start,
        ensures
            index.wf(),
            index.instructions@ == flatten(regions@),
    {
        let mut rest = regions;
        let mut instructions: Vec<Instruction> = Vec::new();
        let mut offsets: Vec<usize> = Vec::new();
        let ghost mut bound: int = 0;
        proof {
            assert(instructions@ + flatten(rest@) =~= flatten(regions@));
        }
        while rest.len() > 0
            invariant
                forall|k: int| 0 <= k < rest@.len() ==> (#[trigger] rest@[k]).tiled(),
                forall|a: int, b: int|
                    0 <= a < b < rest@.len() ==> (#[trigger] rest@[a]).region.end <= (#[trigger] rest@[b]).region.start,
                forall|k: int| 0 <= k < rest@.len() ==> bound <= (#[trigger] rest@[k]).region.start,
                instructions@ + flatten(rest@) == flatten(regions@),
                offsets@.len() == instructions@.len(),
                forall|i: int| 0 <= i < offsets@.len() ==> #[trigger] offsets@[i] == instructions@[i].start_offset,
                forall|i: int| 0 <= i < instructions@.len() ==> (#[trigger] instructions@[i])@.end() <= bound,
                forall|i: int| 0 <= i < instructions@.len() ==> (#[trigger] instructions@[i]).length >= 1,
                strictly_ascending(offsets@),
            decreases rest@.len(),
        {
            let ghost before = rest@;
            let first = rest.remove(0);
            let ghost region = first.region;
            let mut taken = first.instructions;
            proof {
                assert(first == before[0]);
                assert(rest@ =~= before.drop_first());
                assert forall|k: int| 0 <= k < rest@.len() implies (#[trigger] rest@[k]).tiled()
                    && region.end <= rest@[k].region.start by {
                    assert(rest@[k] == before[k + 1]);
                }
                assert forall|a: int, b: int| 0 <= a < b < rest@.len() implies (#[trigger] rest@[a]).region.end
                    <= (#[trigger] rest@[b]).region.start by {
                    assert(rest@[a] == before[a + 1] && rest@[b] == before[b + 1]);
                }
            }
            let mut i: usize = 0;
            let ghost base = instructions@;
            while i < taken.len()
                invariant
                    0 <= i <= taken@.len(),
                    covers(views(taken@), region.start as int, region.end as int),
                    bound <= region.start,
                    instructions@ == base,
                    offsets@.len() == base.len() + i,
                    forall|k: int| 0 <= k < base.len() ==> #[trigger] offsets@[k] == base[k].start_offset,
                    forall|k: int| 0 <= k < i ==> #[trigger] offsets@[base.len() + k] == taken@[k].start_offset,
                    forall|k: int| 0 <= k < base.len() ==> (#[trigger] base[k])@.end() <= bound,
                    forall|k: int| 0 <= k < base.len() ==> (#[trigger] base[k]).length >= 1,
                    strictly_ascending(offsets@),
                decreases taken@.len() - i,
            {
                let start = taken[i].start_offset;
                proof {
                    let grown = offsets@.push(start);
                    assert(views(taken@)[i as int] == taken@[i as int]@);
                    covers_is_ascending(views(taken@), region.start as int, region.end as int, i as int, i as int);
                    assert forall|a: int, b: int| 0 <= a < b < grown.len() implies grown[a] < grown[b] by {
                        if b == grown.len() - 1 {
                            if a < base.len() {
                                assert(base[a]@.end() <= bound);
                                assert(base[a]@.length >= 0);
                                assert(offsets@[a] == base[a].start_offset);
                            } else {
                                let k = a - base.len();
                                assert(offsets@[base.len() + k] == taken@[k].start_offset);
                                assert(views(taken@)[k] == taken@[k]@);
                                covers_is_ascending(views(taken@), region.start as int, region.end as int, k, i as int);
                            }
                        } else {
                            assert(grown[a] == offsets@[a] && grown[b] == offsets@[b]);
                        }
                    }
                }
                offsets.push(start);
                i = i + 1;
            }
            proof {
                assert(flatten(before) == before[0].instructions@ + flatten(before.drop_first()));
                assert((base + taken@) + flatten(rest@) =~= base + (taken@ + flatten(rest@)));
                assert forall|k: int| 0 <= k < taken@.len() implies (#[trigger] taken@[k])@.end() <= region.end
                    && taken@[k].length >= 1 by {
                    assert(views(taken@)[k] == taken@[k]@);
                    covers_is_ascending(views(taken@), region.start as int, region.end as int, k, k);
                }
            }
            instructions.append(&mut taken);
            proof {
                assert(instructions@ =~= base + first.instructions@);
                bound = region.end as int;
                assert forall|k: int| 0 <= k < instructions@.len() implies (#[trigger] instructions@[k])@.end() <= bound
                    && instructions@[k].length >= 1 by {
                    if k < base.len() {
                        assert(instructions@[k] == base[k]);
                    } else {
                        assert(instructions@[k] == first.instructions@[k - base.len()]);
                    }
                }
                assert forall|k: int| 0 <= k < offsets@.len() implies #[trigger] offsets@[k] == instructions@[k].start_offset by {
                    if k < base.len() {
                        assert(instructions@[k] == base[k]);
                    } else {
                        assert(offsets@[base.len() + (k - base.len())] == first.instructions@[k - base.len()].start_offset);
                        assert(instructions@[k] == first.instructions@[k - base.len()]);
                    }
                }
            }
        }
        proof {
            assert(instructions@ + flatten(rest@) =~= instructions@);
        }
        OffsetIndex { instructions, offsets }
    }

    /// Number of instructions.
    pub fn len(&self) -> (n: usize)
        ensures
            n == self.instructions@.len(),
    {
        self.instructions.len()
    }

    /// The position of the last instruction that starts at or before
    /// `offset`: the first position for an offset before every start, the
    /// last one for an offset past the last instruction, zero for an empty
    /// index.
    pub fn offset_to_instruction_index(&self, offset: usize) -> (at: usize)
        requires
            self.wf(),
        ensures
            at == lookup(self.offsets@, offset as int),
            self.offsets@.len() > 0 ==> at < self.offsets@.len(),
            at > 0 ==> self.offsets@[at as int] <= offset,
            forall|j: int| at < j < self.offsets@.len() ==> self.offsets@[j] > offset,
    {
        let n = self.offsets.len();
        let mut lo: usize = 0;
        let mut hi: usize = n;
        while lo < hi
            invariant
                n == self.offsets@.len(),
                0 <= lo <= hi <= n,
                strictly_ascending(self.offsets@),
                forall|j: int| 0 <= j < lo ==> self.offsets@[j] <= offset,
                forall|j: int| hi <= j < n ==> self.offsets@[j] > offset,
            decreases hi - lo,
        {
            let mid: usize = lo + (hi - lo) / 2;
            if self.offsets[mid] <= offset {
                lo = mid + 1;
            } else {
                hi = mid;
            }
        }
        let at: usize = if lo == 0 { 0 } else { lo - 1 };
        proof {
            if n > 0 {
                lookup_is_last_at_or_below(self.offsets@, offset as int, at as int);
            }
        }
        at
    }
}

} // verus!
