use vstd::prelude::*;
use vstd::arithmetic::div_mod::{lemma_div_denominator, lemma_fundamental_div_mod};
use crate::chunks::sections::{spec_block_at, BlockState, SectionBlocks};

verus! {

/// Yields the 4096 block states of one section in linear order.
pub struct BlockIter<'a> {
    pub section: &'a SectionBlocks,
    pub values_returned: u16,
}

impl<'a> BlockIter<'a> {
    pub fn new(section: &'a SectionBlocks) -> (r: Self)
        ensures
            r.section == section,
            r.values_returned == 0,
    {
        BlockIter { section, values_returned: 0 }
    }

    /// The next block state in linear order, or `None` after all 4096
    /// positions have been yielded.
    pub fn next(&mut self) -> (r: Option<&'a BlockState>)
        requires
            old(self).section.wf(),
        ensures
            final(self).section == old(self).section,
            old(self).values_returned < 4096 ==> {
                &&& final(self).values_returned == old(self).values_returned + 1
                &&& r matches Some(b) && *b == spec_block_at(
                    *old(self).section,
                    old(self).values_returned as int,
                )
            },
            old(self).values_returned >= 4096 ==> r is None && final(self).values_returned == old(
                self,
            ).values_returned,
    {
        if self.values_returned >= 4096 {
            return None;
        }
        let i = self.values_returned;
        self.values_returned = i + 1;
        Some(self.section.block_at_index(i))
    }

    /// Always `(4096, Some(4096))`, regardless of how many values have
    /// been yielded; meant for buffer pre-allocation.
    pub fn size_hint(&self) -> (r: (usize, Option<usize>))
        ensures
            r.0 == 4096,
            r.1 == Some(4096usize),
    {
        (4096, Some(4096))
    }

    /// Consumes the iterator and pairs each yielded block state with its
    /// in-section coordinates `[x, y, z]`, derived from the yield order.
    pub fn with_coordinates(self) -> (r: Vec<([u8; 3], &'a BlockState)>)
        requires
            self.section.wf(),
            self.values_returned == 0,
        ensures
            r@.len() == 4096,
            forall|i: int|
                0 <= i < 4096 ==> {
                    &&& (#[trigger] r@[i]).1 == spec_block_at(*self.section, i)
                    &&& r@[i].0[0] == (i % 16) as u8
                    &&& r@[i].0[1] == (i / 256) as u8
                    &&& r@[i].0[2] == ((i / 16) % 16) as u8
                },
    {
        let mut out: Vec<([u8; 3], &'a BlockState)> = Vec::new();
        let mut i: u16 = 0;
        while i < 4096
            invariant
                self.section.wf(),
                i <= 4096,
                out@.len() == i,
                forall|j: int|
                    0 <= j < i ==> {
                        &&& (#[trigger] out@[j]).1 == spec_block_at(*self.section, j)
                        &&& out@[j].0[0] == (j % 16) as u8
                        &&& out@[j].0[1] == (j / 256) as u8
                        &&& out@[j].0[2] == ((j / 16) % 16) as u8
                    },
            decreases 4096 - i,
        {
            let block = self.section.block_at_index(i);
            let x = (i % 16) as u8;
            let j = i / 16;
            let z = (j % 16) as u8;
            let y = (j / 16) as u8;
            proof {
                lemma_div_denominator(i as int, 16, 16);
            }
            out.push(([x, y, z], block));
            i = i + 1;
        }
        out
    }
}

/// P-law: iteration and random access agree. The block yielded at linear
/// position `i` equals `get_block(x, y, z)` for the decomposition
/// `x = i % 16`, `z = (i / 16) % 16`, `y = i / 256`.
pub proof fn lemma_iteration_matches_random_access(s: SectionBlocks, i: int)
    requires
        s.wf(),
        0 <= i < 4096,
    ensures
        ({
            let x = i % 16;
            let z = (i / 16) % 16;
            let y = i / 256;
            spec_block_at(s, (y * 16 + z) * 16 + x) == spec_block_at(s, i)
        }),
{
    lemma_fundamental_div_mod(i, 16);
    lemma_fundamental_div_mod(i / 16, 16);
    lemma_div_denominator(i, 16, 16);
}

} // verus!
