use vstd::prelude::*;
use vstd::arithmetic::div_mod::{lemma_fundamental_div_mod, lemma_fundamental_div_mod_converse};
use crate::chunks::utils::{
    get_index_offset_form, spec_locate_index, spec_locate_offset, spec_unpack,
    spec_values_per_long, unpack_value,
};

verus! {

/// Fixed field width of heightmap values.
pub open spec fn spec_heightmap_bits() -> u64 {
    9
}

/// The four heightmaps a chunk may carry.
#[derive(Debug, Clone, Copy, PartialEq, Eq, Structural)]
pub enum HeightmapType {
    MotionBlocking,
    MotionBlockingNoLeaves,
    OceanFloor,
    WorldSurface,
}

/// The key under which each heightmap kind is stored in the chunk's
/// `Heightmaps` compound.
pub open spec fn spec_heightmap_identifier(t: HeightmapType) -> Seq<char> {
    match t {
        HeightmapType::MotionBlocking => "MOTION_BLOCKING"@,
        HeightmapType::MotionBlockingNoLeaves => "MOTION_BLOCKING_NO_LEAVES"@,
        HeightmapType::OceanFloor => "OCEAN_FLOOR"@,
        HeightmapType::WorldSurface => "WORLD_SURFACE"@,
    }
}

impl HeightmapType {
    pub fn get_identifier(&self) -> (r: &'static str)
        ensures
            r@ == spec_heightmap_identifier(*self),
    {
        match self {
            HeightmapType::MotionBlocking => "MOTION_BLOCKING",
            HeightmapType::MotionBlockingNoLeaves => "MOTION_BLOCKING_NO_LEAVES",
            HeightmapType::OceanFloor => "OCEAN_FLOOR",
            HeightmapType::WorldSurface => "WORLD_SURFACE",
        }
    }
}

/// The 9-bit field at position `i` of the packed heightmap array.
pub open spec fn spec_height_at(data: Seq<i64>, i: int) -> u16 {
    spec_unpack(
        data[spec_locate_index(i, spec_heightmap_bits())],
        spec_locate_offset(i, spec_heightmap_bits()) as u64,
        spec_heightmap_bits(),
    ) as u16
}

/// A borrowed view over one packed heightmap: 256 values of 9 bits each,
/// stored under the non-straddling rule (7 values per long).
pub struct Heightmap<'a> {
    pub data: &'a Vec<i64>,
}

impl<'a> Heightmap<'a> {
    pub fn new(data: &'a Vec<i64>) -> (r: Self)
        ensures
            r.data == data,
    {
        Heightmap { data }
    }

    /// Returns the distance from the world floor at the relative xz
    /// position in a chunk. Note that the resulting value is unsigned
    /// and thus requires subtracting 64 to get a y-value.
    pub fn get_at(&self, x: u8, z: u8) -> (r: u16)
        requires
            x < 16,
            z < 16,
            spec_locate_index(x as int + z as int * 16, spec_heightmap_bits())
                < self.data@.len(),
        ensures
            r == spec_height_at(self.data@, x as int + z as int * 16),
            r < 512,
    {
        let i: u16 = x as u16 + z as u16 * 16;
        let (index, offset) = get_index_offset_form(i, 9, 64);
        let v = unpack_value(self.data[index], offset, 9);
        assert((1u64 << 9u64) == 512) by (bit_vector);
        v as u16
    }

    /// An iterator over all 256 heights in row-major order.
    pub fn iter(&self) -> (r: HeightmapIterator<'a>)
        ensures
            r.data == self.data,
            r.i == 0,
            r.wf(),
    {
        HeightmapIterator { data: self.data, i: 0, index: 0, offset: 0 }
    }
}

/// Walks a packed heightmap in storage order, tracking the current long
/// index and bit offset incrementally.
pub struct HeightmapIterator<'a> {
    pub data: &'a Vec<i64>,
    pub i: u16,
    pub index: usize,
    pub offset: u8,
}

impl<'a> HeightmapIterator<'a> {
    /// The long index and bit offset always track the linear position.
    pub open spec fn wf(&self) -> bool {
        &&& self.i <= 256
        &&& self.index == spec_locate_index(self.i as int, spec_heightmap_bits())
        &&& self.offset == spec_locate_offset(self.i as int, spec_heightmap_bits())
    }

    /// The next height, or `None` once 256 values have been yielded or
    /// the data array has run out of longs.
    pub fn next(&mut self) -> (r: Option<u16>)
        requires
            old(self).wf(),
        ensures
            final(self).wf(),
            final(self).data == old(self).data,
            old(self).i >= 256 ==> r is None && final(self).i == old(self).i,
            old(self).i < 256 ==> final(self).i == old(self).i + 1 && r == (
            if spec_locate_index(old(self).i as int, spec_heightmap_bits())
                < old(self).data@.len() {
                Some(spec_height_at(old(self).data@, old(self).i as int))
            } else {
                Option::<u16>::None
            }),
    {
        if self.i >= 256 {
            return None;
        }
        proof {
            lemma_fundamental_div_mod(self.i as int, 7);
        }
        let result = if self.index < self.data.len() {
            let v = self.data[self.index];
            let h = unpack_value(v, self.offset, 9);
            assert((1u64 << 9u64) == 512) by (bit_vector);
            Some(h as u16)
        } else {
            None
        };
        proof {
            if self.i as int % 7 == 6 {
                lemma_fundamental_div_mod_converse(
                    self.i as int + 1,
                    7,
                    self.i as int / 7 + 1,
                    0,
                );
            } else {
                lemma_fundamental_div_mod_converse(
                    self.i as int + 1,
                    7,
                    self.i as int / 7,
                    self.i as int % 7 + 1,
                );
            }
        }
        self.offset = self.offset + 9;
        if self.offset >= 64 - 9 {
            self.offset = 0;
            self.index = self.index + 1;
        }
        self.i = self.i + 1;
        result
    }

    /// Consumes the iterator and pairs each height with its column
    /// coordinates `[x, z]`, derived from the yield order.
    pub fn with_coordinates(self) -> (r: Vec<([u8; 2], u16)>)
        requires
            self.wf(),
            self.i == 0,
        ensures
            r@.len() == (if self.data@.len() * 7 < 256 {
                self.data@.len() as int * 7
            } else {
                256int
            }),
            forall|j: int|
                0 <= j < r@.len() ==> {
                    &&& (#[trigger] r@[j]).1 == spec_height_at(self.data@, j)
                    &&& r@[j].0[0] == (j % 16) as u8
                    &&& r@[j].0[1] == (j / 16) as u8
                },
    {
        let ghost data_len = self.data@.len() as int;
        let mut it = self;
        let mut out: Vec<([u8; 2], u16)> = Vec::new();
        while it.i < 256 && it.index < it.data.len()
            invariant
                it.wf(),
                it.data@ == self.data@,
                data_len == self.data@.len(),
                out@.len() == it.i,
                forall|j: int|
                    0 <= j < it.i ==> {
                        &&& (#[trigger] out@[j]).1 == spec_height_at(self.data@, j)
                        &&& out@[j].0[0] == (j % 16) as u8
                        &&& out@[j].0[1] == (j / 16) as u8
                    },
                it.i > 0 ==> (it.i - 1) as int / 7 < data_len,
            decreases 256 - it.i,
        {
            proof {
                lemma_fundamental_div_mod(it.i as int, 16);
            }
            let pos = it.i;
            let x = (pos % 16) as u8;
            let z = (pos / 16) as u8;
            let ghost prev_i = it.i;
            let ghost prev_index = it.index;
            let h = match it.next() {
                Some(h) => h,
                None => vstd::pervasive::unreached(),
            };
            proof {
                assert(spec_values_per_long(spec_heightmap_bits()) == 7);
                assert(prev_index == prev_i as int / 7);
                assert((it.i - 1) as int / 7 < data_len);
            }
            out.push(([x, z], h));
        }
        proof {
            let n = out@.len() as int;
            if it.i == 256 {
                assert(255int / 7 == 36);
                if data_len * 7 < 256 {
                    lemma_fundamental_div_mod((n - 1) as int, 7);
                    assert(false);
                }
            } else {
                // stopped because the data ran out of longs
                assert(it.index >= data_len);
                lemma_fundamental_div_mod(n as int, 7);
                if n > 0 {
                    lemma_fundamental_div_mod((n - 1) as int, 7);
                }
            }
        }
        out
    }
}

} // verus!
