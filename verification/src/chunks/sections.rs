use vstd::prelude::*;
use crate::chunks::utils::{
    calculate_bits_per_block, get_index_offset_form, lemma_packed_index_bounds,
    spec_bits_per_block, spec_locate_index, spec_locate_offset, spec_longs_needed, spec_unpack,
    unpack_value,
};
use crate::chunks::iterators::BlockIter;
use crate::error::ChunkLoadError;
use crate::nbt::{
    compound_child_tags, spec_byte_of, spec_children, spec_compound_of, spec_list_of,
    spec_long_array_of, spec_string_of, spec_tag_compound, spec_tag_prop, tag_to_prop,
};

verus! {

/// A primitive value of a block state property. Float-typed properties
/// are kept by their raw bit pattern; non-primitive children are
/// collapsed to `Opaque`.
#[derive(Debug, Clone, PartialEq, Eq)]
pub enum PropValue {
    Byte(i8),
    Short(i16),
    Int(i32),
    Long(i64),
    FloatBits(u32),
    DoubleBits(u64),
    Text(String),
    Opaque,
}

/// The combination of a namespaced block id and its state properties.
#[derive(Debug, Clone, PartialEq, Eq)]
pub struct BlockState {
    /// The namespaced id of the block, e.g. `minecraft:stone`.
    pub name: String,
    /// The block state properties. Empty if no properties exist.
    pub properties: Vec<(String, PropValue)>,
}

/// The property pairs a `Properties` compound decodes to: each child's
/// name with its primitive value.
pub open spec fn spec_props_of(p: crab_nbt::NbtCompound) -> Seq<(String, PropValue)> {
    spec_children(p).map_values(|pr: (String, crab_nbt::NbtTag)| (pr.0, spec_tag_prop(pr.1)))
}

/// A palette entry is decodable: a compound holding a `Name` string.
pub open spec fn spec_block_state_ok(t: crab_nbt::NbtTag) -> bool {
    spec_tag_compound(t) matches Some(c) && spec_string_of(c, "Name"@) is Some
}

/// `b` is the decode of palette entry `t`: its `Name` string and the
/// primitive values of its `Properties` compound (empty when absent).
pub open spec fn spec_block_state_matches(t: crab_nbt::NbtTag, b: BlockState) -> bool {
    spec_tag_compound(t) matches Some(c) && {
        &&& spec_string_of(c, "Name"@) == Some(b.name@)
        &&& b.properties@ == (match spec_compound_of(c, "Properties"@) {
            Some(p) => spec_props_of(p),
            None => Seq::<(String, PropValue)>::empty(),
        })
    }
}

impl BlockState {
    /// Reads one palette entry: its required `Name` string and its
    /// optional `Properties` compound of primitive values. `None` exactly
    /// when the `Name` string is missing.
    pub fn new(compound: &crab_nbt::NbtCompound) -> (r: Option<BlockState>)
        ensures
            match r {
                Some(b) => {
                    &&& spec_string_of(*compound, "Name"@) == Some(b.name@)
                    &&& b.properties@ == (match spec_compound_of(*compound, "Properties"@) {
                        Some(p) => spec_props_of(p),
                        None => Seq::<(String, PropValue)>::empty(),
                    })
                },
                None => spec_string_of(*compound, "Name"@) is None,
            },
    {
        let name = match compound.get_string("Name") {
            Some(s) => s.clone(),
            None => {
                return None;
            },
        };
        let properties: Vec<(String, PropValue)> = match compound.get_compound("Properties") {
            Some(props) => {
                let pairs = compound_child_tags(props);
                let mut out: Vec<(String, PropValue)> = Vec::new();
                let mut i: usize = 0;
                while i < pairs.len()
                    invariant
                        i <= pairs@.len(),
                        pairs@ == spec_children(*props),
                        out@.len() == i,
                        forall|j: int|
                            0 <= j < i ==> #[trigger] out@[j] == (
                            pairs@[j].0,
                            spec_tag_prop(pairs@[j].1),
                            ),
                    decreases pairs.len() - i,
                {
                    let pair = &pairs[i];
                    out.push((pair.0.clone(), tag_to_prop(&pair.1)));
                    i = i + 1;
                }
                proof {
                    assert(out@ =~= spec_props_of(*props));
                }
                out
            },
            None => Vec::new(),
        };
        Some(BlockState { name, properties })
    }
}

/// Copies a borrowed long array into an owned one.
fn clone_longs(v: &Vec<i64>) -> (r: Vec<i64>)
    ensures
        r@ == v@,
{
    let mut out: Vec<i64> = Vec::new();
    let mut i: usize = 0;
    while i < v.len()
        invariant
            i <= v@.len(),
            out@ == v@.subrange(0, i as int),
        decreases v@.len() - i,
    {
        out.push(v[i]);
        proof {
            assert(out@ =~= v@.subrange(0, i + 1));
        }
        i = i + 1;
    }
    proof {
        assert(out@ =~= v@);
    }
    out
}

/// The palette and the packed index array of one 16x16x16 section.
pub struct SectionBlocks {
    pub palette: Vec<BlockState>,
    pub data: Vec<i64>,
    pub bits_per_block: u8,
}

/// Palette index stored for position `i`: with an empty data array every
/// position resolves to the first palette entry, otherwise the
/// `bits_per_block`-wide field at position `i` of the packed array.
pub open spec fn spec_block_index_at(s: SectionBlocks, i: int) -> int {
    if s.data@.len() == 0 {
        0
    } else {
        spec_unpack(
            s.data@[spec_locate_index(i, s.bits_per_block as u64)],
            spec_locate_offset(i, s.bits_per_block as u64) as u64,
            s.bits_per_block as u64,
        ) as int
    }
}

/// The block state at linear position `i` of the section.
pub open spec fn spec_block_at(s: SectionBlocks, i: int) -> BlockState {
    s.palette@[spec_block_index_at(s, i)]
}

/// What a validated section guarantees: a palette that is non-empty and
/// no larger than the 4096 positions it serves, the matching field
/// width, and, when a data array is present, enough longs for all 4096
/// positions with every stored index inside the palette.
pub open spec fn spec_parts_ok(palette_len: int, data: Seq<i64>) -> bool {
    &&& 1 <= palette_len <= 4096
    &&& (data.len() != 0 ==> {
        let b = spec_bits_per_block(palette_len) as u64;
        &&& data.len() >= spec_longs_needed(b)
        &&& forall|i: int|
            0 <= i < 4096 ==> spec_unpack(
                #[trigger] data[spec_locate_index(i, b)],
                spec_locate_offset(i, b) as u64,
                b,
            ) < palette_len
    })
}

/// The palette length a `block_states` compound declares: the length of
/// its `palette` list, or zero when the list is absent.
pub open spec fn spec_section_palette_len(c: crab_nbt::NbtCompound) -> int {
    match spec_list_of(c, "palette"@) {
        Some(tags) => tags.len() as int,
        None => 0,
    }
}

/// The packed index array a `block_states` compound declares: its `data`
/// long array, or empty when the key is absent.
pub open spec fn spec_section_data(c: crab_nbt::NbtCompound) -> Seq<i64> {
    match spec_long_array_of(c, "data"@) {
        Some(d) => d,
        None => Seq::<i64>::empty(),
    }
}

/// A `block_states` compound is decodable: every palette entry is a
/// compound with a `Name`, and the declared palette length and data
/// array pass the section validation.
pub open spec fn spec_section_blocks_ok(c: crab_nbt::NbtCompound) -> bool {
    &&& (match spec_list_of(c, "palette"@) {
        Some(tags) => forall|j: int| 0 <= j < tags.len() ==> spec_block_state_ok(#[trigger] tags[j]),
        None => true,
    })
    &&& spec_parts_ok(spec_section_palette_len(c), spec_section_data(c))
}

/// `s` is the decode of the `block_states` compound `c`: same data
/// array, and the palette entries decoded element by element.
pub open spec fn spec_blocks_match(c: crab_nbt::NbtCompound, s: SectionBlocks) -> bool {
    &&& s.data@ == spec_section_data(c)
    &&& s.palette@.len() == spec_section_palette_len(c)
    &&& (match spec_list_of(c, "palette"@) {
        Some(tags) => forall|j: int|
            0 <= j < tags.len() ==> spec_block_state_matches(#[trigger] tags[j], s.palette@[j]),
        None => true,
    })
}

impl SectionBlocks {
    /// The invariant established by validation at construction time.
    pub open spec fn wf(&self) -> bool {
        &&& spec_parts_ok(self.palette@.len() as int, self.data@)
        &&& self.bits_per_block == spec_bits_per_block(self.palette@.len() as int)
        &&& 4 <= self.bits_per_block <= 12
    }

    /// Validates a decoded palette and packed index array and builds the
    /// section view over them. Exactly the inputs violating
    /// `spec_parts_ok` are rejected; out-of-palette indices are ruled out
    /// here once so that lookup and iteration never fail.
    pub fn from_parts(palette: Vec<BlockState>, data: Vec<i64>) -> (r: Result<
        SectionBlocks,
        ChunkLoadError,
    >)
        ensures
            match r {
                Ok(s) => {
                    &&& spec_parts_ok(palette@.len() as int, data@)
                    &&& s.wf()
                    &&& s.palette@ == palette@
                    &&& s.data@ == data@
                },
                Err(e) => {
                    &&& !spec_parts_ok(palette@.len() as int, data@)
                    &&& e matches ChunkLoadError::MalformedChunk(_)
                },
            },
    {
        if palette.len() == 0 {
            return Err(ChunkLoadError::MalformedChunk("Section palette is empty".to_owned()));
        }
        if palette.len() > 4096 {
            return Err(
                ChunkLoadError::MalformedChunk(
                    "Section palette has more entries than positions".to_owned(),
                ),
            );
        }
        let bits_per_block = calculate_bits_per_block(&palette);
        if data.len() > 0 {
            proof {
                vstd::arithmetic::div_mod::lemma_div_non_zero(64int, bits_per_block as int);
            }
            let values_per_long = (64u8 / bits_per_block) as usize;
            let needed = (4096 + values_per_long - 1) / values_per_long;
            assert(needed == spec_longs_needed(bits_per_block as u64));
            if data.len() < needed {
                return Err(
                    ChunkLoadError::MalformedChunk(
                        "Section data array is too short for 4096 positions".to_owned(),
                    ),
                );
            }
            let mut i: usize = 0;
            while i < 4096
                invariant
                    i <= 4096,
                    data@.len() >= spec_longs_needed(bits_per_block as u64),
                    4 <= bits_per_block <= 12,
                    bits_per_block == spec_bits_per_block(palette@.len() as int),
                    1 <= palette@.len() <= 4096,
                    forall|j: int|
                        0 <= j < i ==> spec_unpack(
                            #[trigger] data@[spec_locate_index(j, bits_per_block as u64)],
                            spec_locate_offset(j, bits_per_block as u64) as u64,
                            bits_per_block as u64,
                        ) < palette@.len(),
                decreases 4096 - i,
            {
                proof {
                    lemma_packed_index_bounds(i as int, bits_per_block as u64, data@.len() as int);
                }
                let (index, offset) = get_index_offset_form(i as u16, bits_per_block, 64);
                let idx = unpack_value(data[index], offset, bits_per_block);
                if idx >= palette.len() as u64 {
                    return Err(
                        ChunkLoadError::MalformedChunk(
                            "Section data stores an index outside the palette".to_owned(),
                        ),
                    );
                }
                i = i + 1;
            }
        }
        Ok(SectionBlocks { palette, data, bits_per_block })
    }

    /// Reads a `block_states` compound: a `palette` list of block
    /// states (missing means empty) and a packed `data` long array
    /// (missing means empty), then validates the pair.
    pub fn new(compound: &crab_nbt::NbtCompound) -> (r: Result<SectionBlocks, ChunkLoadError>)
        ensures
            match r {
                Ok(s) => {
                    &&& s.wf()
                    &&& spec_section_blocks_ok(*compound)
                    &&& spec_blocks_match(*compound, s)
                },
                Err(e) => {
                    &&& !spec_section_blocks_ok(*compound)
                    &&& e matches ChunkLoadError::MalformedChunk(_)
                },
            },
    {
        let palette: Vec<BlockState> = match compound.get_list("palette") {
            None => Vec::new(),
            Some(palette_raw) => {
                let mut palette: Vec<BlockState> = Vec::new();
                let mut i: usize = 0;
                while i < palette_raw.len()
                    invariant
                        i <= palette_raw@.len(),
                        spec_list_of(*compound, "palette"@) == Some(palette_raw@),
                        palette@.len() == i,
                        forall|j: int|
                            0 <= j < i ==> spec_block_state_ok(#[trigger] palette_raw@[j]),
                        forall|j: int|
                            0 <= j < i ==> spec_block_state_matches(
                                #[trigger] palette_raw@[j],
                                palette@[j],
                            ),
                    decreases palette_raw.len() - i,
                {
                    let entry = match palette_raw[i].extract_compound() {
                        Some(c) => c,
                        None => {
                            return Err(
                                ChunkLoadError::MalformedChunk(
                                    "Palette entry is not a compound".to_owned(),
                                ),
                            );
                        },
                    };
                    let state = match BlockState::new(entry) {
                        Some(s) => s,
                        None => {
                            return Err(
                                ChunkLoadError::MalformedChunk(
                                    "Palette entry is not a valid block state".to_owned(),
                                ),
                            );
                        },
                    };
                    palette.push(state);
                    i = i + 1;
                }
                palette
            },
        };
        let data: Vec<i64> = match compound.get_long_array("data") {
            Some(longs) => clone_longs(longs),
            None => Vec::new(),
        };
        SectionBlocks::from_parts(palette, data)
    }

    /// The palette of distinct block states this section references.
    pub fn get_palette(&self) -> (r: &Vec<BlockState>)
        ensures
            r@ == self.palette@,
    {
        &self.palette
    }

    /// An iterator over the section's 4096 block states in linear order.
    pub fn iter(&self) -> (r: BlockIter<'_>)
        ensures
            r.section == self,
            r.values_returned == 0,
    {
        BlockIter::new(self)
    }

    /// The block state stored for linear position `i`.
    pub fn block_at_index(&self, i: u16) -> (r: &BlockState)
        requires
            self.wf(),
            i < 4096,
        ensures
            *r == spec_block_at(*self, i as int),
    {
        if self.data.len() == 0 {
            &self.palette[0]
        } else {
            proof {
                lemma_packed_index_bounds(i as int, self.bits_per_block as u64, self.data@.len() as int);
            }
            let (index, offset) = get_index_offset_form(i, self.bits_per_block, 64);
            let idx = unpack_value(self.data[index], offset, self.bits_per_block);
            assert(idx < self.palette@.len());
            &self.palette[idx as usize]
        }
    }

    /// Random access by in-section coordinates: position
    /// `(y * 16 + z) * 16 + x`, the canonical Anvil in-section order.
    pub fn get_block(&self, x: u8, y: u8, z: u8) -> (r: &BlockState)
        requires
            self.wf(),
            x < 16,
            y < 16,
            z < 16,
        ensures
            *r == spec_block_at(*self, (y as int * 16 + z as int) * 16 + x as int),
    {
        let i: u16 = (y as u16 * 16 + z as u16) * 16 + x as u16;
        self.block_at_index(i)
    }
}

/// A `sections`-list entry is fully decodable: it has a `Y` byte and a
/// decodable `block_states` compound.
pub open spec fn spec_section_ok(c: crab_nbt::NbtCompound) -> bool {
    &&& spec_byte_of(c, "Y"@) is Some
    &&& (spec_compound_of(c, "block_states"@) matches Some(bs) && spec_section_blocks_ok(bs))
}

/// One 16x16x16 slice of a chunk, read from the `sections` NBT list by
/// array index.
pub struct ChunkSection {
    /// The section's vertical position, in sections.
    pub y: i8,
    /// The section's validated block view.
    pub blocks: SectionBlocks,
}

impl ChunkSection {
    /// Reads one entry of the `sections` list: its required signed byte
    /// `Y` and its `block_states` compound. A missing `Y` is
    /// `MalformedChunk`; a section with a `Y` but no `block_states` is
    /// exactly `EmptySection`.
    pub fn new(compound: &crab_nbt::NbtCompound) -> (r: Result<ChunkSection, ChunkLoadError>)
        ensures
            match r {
                Ok(sec) => {
                    &&& spec_section_ok(*compound)
                    &&& sec.blocks.wf()
                    &&& spec_byte_of(*compound, "Y"@) == Some(sec.y)
                    &&& (spec_compound_of(*compound, "block_states"@) matches Some(bs)
                        && spec_blocks_match(bs, sec.blocks))
                },
                Err(e) => {
                    &&& !spec_section_ok(*compound)
                    &&& ((e matches ChunkLoadError::EmptySection) <==> (spec_byte_of(
                        *compound,
                        "Y"@,
                    ) is Some && spec_compound_of(*compound, "block_states"@) is None))
                    &&& (e matches ChunkLoadError::EmptySection || e matches
                        ChunkLoadError::MalformedChunk(_))
                },
            },
    {
        let y = match compound.get_byte("Y") {
            Some(y) => y,
            None => {
                return Err(ChunkLoadError::MalformedChunk("Section missing Y value".to_owned()));
            },
        };
        let block_states = match compound.get_compound("block_states") {
            Some(c) => c,
            None => {
                return Err(ChunkLoadError::EmptySection);
            },
        };
        let blocks = match SectionBlocks::new(block_states) {
            Ok(b) => b,
            Err(e) => {
                return Err(e);
            },
        };
        Ok(ChunkSection { y, blocks })
    }
}

/// P-law: every index a validated section stores lies inside its palette.
pub proof fn lemma_palette_index_in_range(s: SectionBlocks, i: int)
    requires
        s.wf(),
        0 <= i < 4096,
    ensures
        0 <= spec_block_index_at(s, i) < s.palette@.len(),
{
}

/// P-law: with an empty data array every one of the 4096 positions
/// yields the first palette entry.
pub proof fn lemma_empty_data_constant_section(s: SectionBlocks, i: int)
    requires
        s.wf(),
        s.data@.len() == 0,
        0 <= i < 4096,
    ensures
        spec_block_at(s, i) == s.palette@[0],
{
}

} // verus!
