use vstd::prelude::*;
use vstd::slice::{slice_subrange, slice_to_vec};
use crate::chunks::heightmaps::{spec_heightmap_identifier, Heightmap, HeightmapType};
use crate::chunks::sections::{
    spec_blocks_match, spec_section_ok, ChunkSection,
};
use crate::error::ChunkLoadError;
use crate::nbt::{
    nbt_read, nbt_root, spec_byte_of, spec_compound_of, spec_list_of, spec_long_array_of,
    spec_nbt_parse, spec_nbt_root, spec_string_of, spec_tag_compound,
};

pub mod heightmaps;
pub mod iterators;
pub mod sections;
pub mod utils;

verus! {

/// The framed payload's compression codec, by its tag byte.
#[derive(Debug, Clone, Copy, PartialEq, Eq, Structural)]
pub enum CompressionFormat {
    Gzip,
    Zlib,
    Uncompressed,
    Lz4,
}

/// Codec denoted by a frame's compression tag: `1` gzip, `2` zlib,
/// `3` uncompressed, `4` lz4; everything else (including the "custom"
/// tag 127) is unsupported.
pub open spec fn spec_compression_of(tag: u8) -> Option<CompressionFormat> {
    if tag == 1 {
        Some(CompressionFormat::Gzip)
    } else if tag == 2 {
        Some(CompressionFormat::Zlib)
    } else if tag == 3 {
        Some(CompressionFormat::Uncompressed)
    } else if tag == 4 {
        Some(CompressionFormat::Lz4)
    } else {
        None
    }
}

impl CompressionFormat {
    pub fn from_tag(tag: u8) -> (r: Option<CompressionFormat>)
        ensures
            r == spec_compression_of(tag),
    {
        match tag {
            1 => Some(CompressionFormat::Gzip),
            2 => Some(CompressionFormat::Zlib),
            3 => Some(CompressionFormat::Uncompressed),
            4 => Some(CompressionFormat::Lz4),
            _ => None,
        }
    }
}

/// What gzip inflation yields on the given bytes, or `None` where the
/// stream is not a whole valid gzip stream.
pub uninterp spec fn gzip_plain_of(compressed: Seq<u8>) -> Option<Seq<u8>>;

/// What zlib inflation yields on the given bytes, or `None` where the
/// stream is not a whole valid zlib stream.
pub uninterp spec fn zlib_plain_of(compressed: Seq<u8>) -> Option<Seq<u8>>;

/// What lz4 decompression yields on the given bytes, or `None` where the
/// decoder reports an error. The vendored decoder can accept a truncated
/// frame and return the partial output; that outcome is still a function
/// of the input bytes and falls under the `Some` case.
pub uninterp spec fn lz4_plain_of(compressed: Seq<u8>) -> Option<Seq<u8>>;

/// Relies on flate2::bufread::GzDecoder driven by read_to_end: inflates
/// a whole in-memory gzip stream; the outcome is a function of the input
/// bytes alone.
#[verifier::external_body]
fn decompress_gzip(compressed: &[u8]) -> (r: Result<Vec<u8>, ChunkLoadError>)
    ensures
        match r {
            Ok(v) => gzip_plain_of(compressed@) == Some(v@),
            Err(e) => gzip_plain_of(compressed@) is None && e matches ChunkLoadError::IOError(_),
        },
{
    let mut vec = Vec::new();
    match std::io::Read::read_to_end(&mut flate2::bufread::GzDecoder::new(compressed), &mut vec) {
        Ok(_) => Ok(vec),
        Err(e) => Err(ChunkLoadError::IOError(format!("{e}"))),
    }
}

/// Relies on flate2::bufread::ZlibDecoder driven by read_to_end: inflates
/// a whole in-memory zlib stream; the outcome is a function of the input
/// bytes alone.
#[verifier::external_body]
fn decompress_zlib(compressed: &[u8]) -> (r: Result<Vec<u8>, ChunkLoadError>)
    ensures
        match r {
            Ok(v) => zlib_plain_of(compressed@) == Some(v@),
            Err(e) => zlib_plain_of(compressed@) is None && e matches ChunkLoadError::IOError(_),
        },
{
    let mut vec = Vec::new();
    match std::io::Read::read_to_end(&mut flate2::bufread::ZlibDecoder::new(compressed), &mut vec) {
        Ok(_) => Ok(vec),
        Err(e) => Err(ChunkLoadError::IOError(format!("{e}"))),
    }
}

/// Relies on lz4::Decoder driven by read_to_end: decompresses a whole
/// in-memory lz4 frame; the outcome is a function of the input bytes
/// alone.
#[verifier::external_body]
fn decompress_lz4(compressed: &[u8]) -> (r: Result<Vec<u8>, ChunkLoadError>)
    ensures
        match r {
            Ok(v) => lz4_plain_of(compressed@) == Some(v@),
            Err(e) => lz4_plain_of(compressed@) is None && e matches ChunkLoadError::IOError(_),
        },
{
    let mut vec = Vec::new();
    let read = lz4::Decoder::new(compressed).and_then(
        |mut d| std::io::Read::read_to_end(&mut d, &mut vec),
    );
    match read {
        Ok(_) => Ok(vec),
        Err(e) => Err(ChunkLoadError::IOError(format!("{e}"))),
    }
}

/// The big-endian payload length declared in a frame's first four bytes.
/// It counts the compression tag byte plus the compressed stream.
pub open spec fn spec_frame_len(buf: Seq<u8>) -> int
    recommends
        buf.len() >= 4,
{
    (buf[0] as int) * 0x1000000 + (buf[1] as int) * 0x10000 + (buf[2] as int) * 0x100 + (
    buf[3] as int)
}

/// A frame whose header is complete, whose declared length is non-zero,
/// and whose declared payload lies within the buffer.
pub open spec fn spec_frame_shape_ok(buf: Seq<u8>) -> bool {
    &&& buf.len() >= 5
    &&& spec_frame_len(buf) >= 1
    &&& 4 + spec_frame_len(buf) <= buf.len()
}

/// The compressed stream of a frame: the declared payload minus its
/// leading compression tag byte.
pub open spec fn spec_frame_payload(buf: Seq<u8>) -> Seq<u8>
    recommends
        spec_frame_shape_ok(buf),
{
    buf.subrange(5, 4 + spec_frame_len(buf))
}

/// The decompressed NBT stream of a frame, per its compression tag, or
/// `None` where the codec rejects the stream.
pub open spec fn spec_frame_plain(buf: Seq<u8>) -> Option<Seq<u8>>
    recommends
        spec_frame_shape_ok(buf),
{
    match spec_compression_of(buf[4]) {
        Some(CompressionFormat::Gzip) => gzip_plain_of(spec_frame_payload(buf)),
        Some(CompressionFormat::Zlib) => zlib_plain_of(spec_frame_payload(buf)),
        Some(CompressionFormat::Uncompressed) => Some(spec_frame_payload(buf)),
        Some(CompressionFormat::Lz4) => lz4_plain_of(spec_frame_payload(buf)),
        None => None,
    }
}

/// Decodes one chunk frame read from the chunk's sector span: checks the
/// length-prefixed header, dispatches on the compression tag, and hands
/// back the decompressed NBT stream.
pub fn decode_frame(buf: &[u8]) -> (r: Result<Vec<u8>, ChunkLoadError>)
    ensures
        match r {
            Ok(v) => {
                &&& spec_frame_shape_ok(buf@)
                &&& spec_compression_of(buf@[4]) is Some
                &&& spec_frame_plain(buf@) == Some(v@)
            },
            Err(e) => match e {
                ChunkLoadError::MalformedChunk(_) => !spec_frame_shape_ok(buf@) && (buf@.len() < 5
                    || spec_frame_len(buf@) == 0 || spec_compression_of(buf@[4]) is Some),
                ChunkLoadError::UnknownCompressionFormat(t) => buf@.len() >= 5 && spec_frame_len(
                    buf@,
                ) >= 1 && t == buf@[4] && spec_compression_of(buf@[4]) is None,
                ChunkLoadError::IOError(_) => spec_frame_shape_ok(buf@) && spec_compression_of(
                    buf@[4],
                ) is Some && spec_frame_plain(buf@) is None,
                _ => false,
            },
        },
{
    if buf.len() < 5 {
        return Err(
            ChunkLoadError::MalformedChunk("Chunk frame is shorter than its header".to_owned()),
        );
    }
    let declared: u32 = (buf[0] as u32) * 0x1000000 + (buf[1] as u32) * 0x10000 + (buf[2] as u32)
        * 0x100 + (buf[3] as u32);
    if declared == 0 {
        return Err(
            ChunkLoadError::MalformedChunk(
                "Chunk frame declares a zero-length payload".to_owned(),
            ),
        );
    }
    let tag = buf[4];
    let format = match CompressionFormat::from_tag(tag) {
        Some(f) => f,
        None => {
            return Err(ChunkLoadError::UnknownCompressionFormat(tag));
        },
    };
    let declared = declared as usize;
    if declared > buf.len() - 4 {
        return Err(
            ChunkLoadError::MalformedChunk(
                "Chunk frame payload exceeds its sector span".to_owned(),
            ),
        );
    }
    let payload = slice_subrange(buf, 5, 4 + declared);
    assert(payload@ == spec_frame_payload(buf@));
    match format {
        CompressionFormat::Gzip => decompress_gzip(payload),
        CompressionFormat::Zlib => decompress_zlib(payload),
        CompressionFormat::Uncompressed => Ok(slice_to_vec(payload)),
        CompressionFormat::Lz4 => decompress_lz4(payload),
    }
}

/// A chunk's place in the generation pipeline, in pipeline order.
#[derive(Debug, Clone, Copy, PartialEq, Eq, PartialOrd, Ord, Structural)]
pub enum ChunkStatus {
    Empty,
    StructureStarts,
    StructureReferences,
    Biomes,
    Noise,
    Surface,
    Carvers,
    LiquidCarvers,
    Features,
    Light,
    InitializeLight,
    Spawn,
    Full,
}

/// The status a string denotes. Each known status is accepted both bare
/// and with the `minecraft:` namespace prefix; anything else is unknown.
pub open spec fn spec_status_of(s: Seq<char>) -> Option<ChunkStatus> {
    if s == "empty"@ || s == "minecraft:empty"@ {
        Some(ChunkStatus::Empty)
    } else if s == "structure_starts"@ || s == "minecraft:structure_starts"@ {
        Some(ChunkStatus::StructureStarts)
    } else if s == "structure_references"@ || s == "minecraft:structure_references"@ {
        Some(ChunkStatus::StructureReferences)
    } else if s == "biomes"@ || s == "minecraft:biomes"@ {
        Some(ChunkStatus::Biomes)
    } else if s == "noise"@ || s == "minecraft:noise"@ {
        Some(ChunkStatus::Noise)
    } else if s == "surface"@ || s == "minecraft:surface"@ {
        Some(ChunkStatus::Surface)
    } else if s == "carvers"@ || s == "minecraft:carvers"@ {
        Some(ChunkStatus::Carvers)
    } else if s == "liquid_carvers"@ || s == "minecraft:liquid_carvers"@ {
        Some(ChunkStatus::LiquidCarvers)
    } else if s == "features"@ || s == "minecraft:features"@ {
        Some(ChunkStatus::Features)
    } else if s == "light"@ || s == "minecraft:light"@ {
        Some(ChunkStatus::Light)
    } else if s == "initialize_light"@ || s == "minecraft:initialize_light"@ {
        Some(ChunkStatus::InitializeLight)
    } else if s == "spawn"@ || s == "minecraft:spawn"@ {
        Some(ChunkStatus::Spawn)
    } else if s == "full"@ || s == "minecraft:full"@ {
        Some(ChunkStatus::Full)
    } else {
        None
    }
}

/// The bare (unprefixed) name of each status.
pub open spec fn spec_status_name(st: ChunkStatus) -> Seq<char> {
    match st {
        ChunkStatus::Empty => "empty"@,
        ChunkStatus::StructureStarts => "structure_starts"@,
        ChunkStatus::StructureReferences => "structure_references"@,
        ChunkStatus::Biomes => "biomes"@,
        ChunkStatus::Noise => "noise"@,
        ChunkStatus::Surface => "surface"@,
        ChunkStatus::Carvers => "carvers"@,
        ChunkStatus::LiquidCarvers => "liquid_carvers"@,
        ChunkStatus::Features => "features"@,
        ChunkStatus::Light => "light"@,
        ChunkStatus::InitializeLight => "initialize_light"@,
        ChunkStatus::Spawn => "spawn"@,
        ChunkStatus::Full => "full"@,
    }
}

/// True when the string value equals the literal.
fn str_matches(v: &String, lit: &str) -> (r: bool)
    ensures
        r == (v@ == lit@),
{
    *v == lit.to_owned()
}

impl ChunkStatus {
    /// Parses a status string, accepting the bare and the
    /// `minecraft:`-prefixed form of each known status. An unknown
    /// string is rejected as `MalformedChunk` carrying that string.
    pub fn try_from(value: &str) -> (r: Result<ChunkStatus, ChunkLoadError>)
        ensures
            match r {
                Ok(st) => spec_status_of(value@) == Some(st),
                Err(e) => spec_status_of(value@) is None && (e matches
                ChunkLoadError::MalformedChunk(m) && m@ == value@),
            },
    {
        let v = value.to_owned();
        if str_matches(&v, "empty") || str_matches(&v, "minecraft:empty") {
            Ok(ChunkStatus::Empty)
        } else if str_matches(&v, "structure_starts") || str_matches(
            &v,
            "minecraft:structure_starts",
        ) {
            Ok(ChunkStatus::StructureStarts)
        } else if str_matches(&v, "structure_references") || str_matches(
            &v,
            "minecraft:structure_references",
        ) {
            Ok(ChunkStatus::StructureReferences)
        } else if str_matches(&v, "biomes") || str_matches(&v, "minecraft:biomes") {
            Ok(ChunkStatus::Biomes)
        } else if str_matches(&v, "noise") || str_matches(&v, "minecraft:noise") {
            Ok(ChunkStatus::Noise)
        } else if str_matches(&v, "surface") || str_matches(&v, "minecraft:surface") {
            Ok(ChunkStatus::Surface)
        } else if str_matches(&v, "carvers") || str_matches(&v, "minecraft:carvers") {
            Ok(ChunkStatus::Carvers)
        } else if str_matches(&v, "liquid_carvers") || str_matches(
            &v,
            "minecraft:liquid_carvers",
        ) {
            Ok(ChunkStatus::LiquidCarvers)
        } else if str_matches(&v, "features") || str_matches(&v, "minecraft:features") {
            Ok(ChunkStatus::Features)
        } else if str_matches(&v, "light") || str_matches(&v, "minecraft:light") {
            Ok(ChunkStatus::Light)
        } else if str_matches(&v, "initialize_light") || str_matches(
            &v,
            "minecraft:initialize_light",
        ) {
            Ok(ChunkStatus::InitializeLight)
        } else if str_matches(&v, "spawn") || str_matches(&v, "minecraft:spawn") {
            Ok(ChunkStatus::Spawn)
        } else if str_matches(&v, "full") || str_matches(&v, "minecraft:full") {
            Ok(ChunkStatus::Full)
        } else {
            Err(ChunkLoadError::MalformedChunk(v))
        }
    }
}

/// One decoded chunk: its cached generation status and its owned,
/// decompressed NBT tree.
#[derive(Debug)]
pub struct Chunk {
    pub status: ChunkStatus,
    pub data: crab_nbt::Nbt,
}

/// The whole behaviour of decoding one chunk frame: `Ok` exactly when
/// the frame is well-shaped, its tag names a codec, the codec accepts
/// the payload, the NBT parse succeeds, the root holds a `Heightmaps`
/// compound and a `Status` string, and the status is known - the chunk
/// then carries that parsed tree and status. Each error kind is pinned
/// to exactly its cause.
pub open spec fn spec_chunk_read_result(buf: Seq<u8>, r: Result<Chunk, ChunkLoadError>) -> bool {
    match r {
        Ok(c) => {
            &&& spec_frame_shape_ok(buf)
            &&& spec_compression_of(buf[4]) is Some
            &&& (spec_frame_plain(buf) matches Some(plain) && (spec_nbt_parse(plain) matches Some(
                nbt,
            ) && {
                &&& c.data == nbt
                &&& spec_compound_of(spec_nbt_root(nbt), "Heightmaps"@) is Some
                &&& (spec_string_of(spec_nbt_root(nbt), "Status"@) matches Some(st)
                    && spec_status_of(st) == Some(c.status))
            }))
        },
        Err(e) => match e {
            ChunkLoadError::MalformedChunk(m) => {
                ||| (!spec_frame_shape_ok(buf) && (buf.len() < 5 || spec_frame_len(buf) == 0
                    || spec_compression_of(buf[4]) is Some))
                ||| (spec_frame_shape_ok(buf) && spec_compression_of(buf[4]) is Some && (
                spec_frame_plain(buf) matches Some(plain) && (spec_nbt_parse(plain) matches Some(
                    nbt,
                ) && {
                    let root = spec_nbt_root(nbt);
                    ||| spec_compound_of(root, "Heightmaps"@) is None
                    ||| (spec_compound_of(root, "Heightmaps"@) is Some && spec_string_of(
                        root,
                        "Status"@,
                    ) is None)
                    ||| (spec_compound_of(root, "Heightmaps"@) is Some && (spec_string_of(
                        root,
                        "Status"@,
                    ) matches Some(st) && spec_status_of(st) is None && m@ == st))
                })))
            },
            ChunkLoadError::UnknownCompressionFormat(t) => buf.len() >= 5 && spec_frame_len(buf)
                >= 1 && t == buf[4] && spec_compression_of(buf[4]) is None,
            ChunkLoadError::IOError(_) => spec_frame_shape_ok(buf) && spec_compression_of(buf[4])
                is Some && spec_frame_plain(buf) is None,
            ChunkLoadError::MalformedNbt(_) => spec_frame_shape_ok(buf) && spec_compression_of(
                buf[4],
            ) is Some && (spec_frame_plain(buf) matches Some(plain) && spec_nbt_parse(plain)
                is None),
            _ => false,
        },
    }
}

impl Chunk {
    /// Decodes a chunk from its frame: header, decompression, NBT parse,
    /// and validation of the mandatory `Heightmaps` and `Status` keys,
    /// exactly as `spec_chunk_read_result` states.
    pub fn read(buf: &[u8]) -> (r: Result<Chunk, ChunkLoadError>)
        ensures
            spec_chunk_read_result(buf@, r),
    {
        let plain = match decode_frame(buf) {
            Ok(v) => v,
            Err(e) => {
                return Err(e);
            },
        };
        let nbt = match nbt_read(plain.as_slice()) {
            Ok(n) => n,
            Err(e) => {
                return Err(e);
            },
        };
        let root = nbt_root(&nbt);
        match root.get_compound("Heightmaps") {
            Some(_) => (),
            None => {
                return Err(ChunkLoadError::MalformedChunk("Chunk has no heightmaps".to_owned()));
            },
        };
        let status_string = match root.get_string("Status") {
            Some(s) => s,
            None => {
                return Err(ChunkLoadError::MalformedChunk("Chunk has no status".to_owned()));
            },
        };
        let status = match ChunkStatus::try_from(status_string.as_str()) {
            Ok(st) => st,
            Err(e) => {
                return Err(e);
            },
        };
        Ok(Chunk { status, data: nbt })
    }

    /// The chunk's `sections` list, or `MalformedChunk` when it is
    /// missing.
    fn get_sections(&self) -> (r: Result<&Vec<crab_nbt::NbtTag>, ChunkLoadError>)
        ensures
            match r {
                Ok(list) => spec_list_of(spec_nbt_root(self.data), "sections"@) == Some(list@),
                Err(e) => spec_list_of(spec_nbt_root(self.data), "sections"@) is None && e matches
                    ChunkLoadError::MalformedChunk(_),
            },
    {
        match nbt_root(&self.data).get_list("sections") {
            Some(list) => Ok(list),
            None => Err(
                ChunkLoadError::MalformedChunk("Chunk has no sections list object".to_owned()),
            ),
        }
    }

    /// A lazy sequence over the chunk's sections; each element decodes
    /// one section on demand.
    pub fn get_subchunks(&self) -> (r: Result<SectionIterator<'_>, ChunkLoadError>)
        ensures
            match r {
                Ok(it) => it.pos == 0 && spec_list_of(spec_nbt_root(self.data), "sections"@)
                    == Some(it.section_tags@),
                Err(e) => spec_list_of(spec_nbt_root(self.data), "sections"@) is None && e matches
                    ChunkLoadError::MalformedChunk(_),
            },
    {
        match self.get_sections() {
            Ok(sections) => Ok(SectionIterator { section_tags: sections, pos: 0 }),
            Err(e) => Err(e),
        }
    }

    /// Decodes the section at array position `index` of the `sections`
    /// list, selected by position and not by its Y value;
    /// `MissingSection` exactly when the index is out of the list's
    /// range.
    pub fn get_subchunk(&self, index: usize) -> (r: Result<ChunkSection, ChunkLoadError>)
        ensures
            ({
                let sections = spec_list_of(spec_nbt_root(self.data), "sections"@);
                &&& ((r matches Err(ChunkLoadError::MissingSection)) <==> (sections matches Some(l)
                    && index >= l.len()))
                &&& (sections is None ==> r matches Err(ChunkLoadError::MalformedChunk(_)))
                &&& (sections matches Some(l) ==> (index < l.len() ==> spec_section_item_matches(
                    l[index as int],
                    r,
                )))
            }),
    {
        let sections = match self.get_sections() {
            Ok(s) => s,
            Err(e) => {
                return Err(e);
            },
        };
        if index >= sections.len() {
            return Err(ChunkLoadError::MissingSection);
        }
        parse_chunk(&sections[index])
    }

    /// The named heightmap view, borrowing the long array stored under
    /// the heightmap's key; `None` exactly when the chunk does not carry
    /// that key as a long array - never an error.
    pub fn get_heightmap(&self, heightmap: HeightmapType) -> (r: Option<Heightmap<'_>>)
        ensures
            ({
                let maps = spec_compound_of(spec_nbt_root(self.data), "Heightmaps"@);
                match r {
                    Some(h) => (maps matches Some(m) && spec_long_array_of(
                        m,
                        spec_heightmap_identifier(heightmap),
                    ) == Some(h.data@)),
                    None => maps is None || spec_long_array_of(
                        maps.unwrap(),
                        spec_heightmap_identifier(heightmap),
                    ) is None,
                }
            }),
    {
        let maps = match nbt_root(&self.data).get_compound("Heightmaps") {
            Some(c) => c,
            None => {
                return None;
            },
        };
        match maps.get_long_array(heightmap.get_identifier()) {
            Some(longs) => Some(Heightmap::new(longs)),
            None => None,
        }
    }
}

/// The whole behaviour of decoding one `sections`-list entry: `Ok`
/// carries the entry's Y byte and the decode of its `block_states`;
/// `EmptySection` is exactly a compound with a Y but no `block_states`;
/// `MalformedChunk` is exactly a non-compound entry or one whose decode
/// fails elsewhere.
pub open spec fn spec_section_item_matches(
    t: crab_nbt::NbtTag,
    item: Result<ChunkSection, ChunkLoadError>,
) -> bool {
    match item {
        Ok(sec) => (spec_tag_compound(t) matches Some(c) && {
            &&& spec_section_ok(c)
            &&& sec.blocks.wf()
            &&& spec_byte_of(c, "Y"@) == Some(sec.y)
            &&& (spec_compound_of(c, "block_states"@) matches Some(bs) && spec_blocks_match(
                bs,
                sec.blocks,
            ))
        }),
        Err(e) => match e {
            ChunkLoadError::EmptySection => (spec_tag_compound(t) matches Some(c) && spec_byte_of(
                c,
                "Y"@,
            ) is Some && spec_compound_of(c, "block_states"@) is None),
            ChunkLoadError::MalformedChunk(_) => spec_tag_compound(t) is None || (spec_tag_compound(
                t,
            ) matches Some(c) && !spec_section_ok(c) && !(spec_byte_of(c, "Y"@) is Some
                && spec_compound_of(c, "block_states"@) is None)),
            _ => false,
        },
    }
}

/// Decodes one entry of the `sections` list into a section view.
fn parse_chunk(tag: &crab_nbt::NbtTag) -> (r: Result<ChunkSection, ChunkLoadError>)
    ensures
        spec_section_item_matches(*tag, r),
{
    match tag.extract_compound() {
        Some(compound) => ChunkSection::new(compound),
        None => Err(ChunkLoadError::MalformedChunk("Chunk section is not a compound".to_owned())),
    }
}

/// Walks the `sections` list, decoding each section in turn; a bad
/// section yields its error without sinking the others.
pub struct SectionIterator<'a> {
    pub section_tags: &'a Vec<crab_nbt::NbtTag>,
    pub pos: usize,
}

impl<'a> SectionIterator<'a> {
    pub fn next(&mut self) -> (r: Option<Result<ChunkSection, ChunkLoadError>>)
        ensures
            final(self).section_tags == old(self).section_tags,
            old(self).pos < old(self).section_tags@.len() ==> {
                &&& final(self).pos == old(self).pos + 1
                &&& r matches Some(item) && spec_section_item_matches(
                    old(self).section_tags@[old(self).pos as int],
                    item,
                )
            },
            old(self).pos >= old(self).section_tags@.len() ==> r is None && final(self).pos == old(
                self,
            ).pos,
    {
        if self.pos >= self.section_tags.len() {
            return None;
        }
        let tag = &self.section_tags[self.pos];
        self.pos = self.pos + 1;
        Some(parse_chunk(tag))
    }
}

/// P-law: every known status string parses in both its bare and its
/// `minecraft:`-prefixed form, and both forms denote the same status.
#[verifier::rlimit(100)]
pub proof fn lemma_status_prefix_round_trip(st: ChunkStatus)
    ensures
        spec_status_of(spec_status_name(st)) == Some(st),
        spec_status_of("minecraft:"@ + spec_status_name(st)) == Some(st),
{
    reveal_strlit("minecraft:");
    reveal_strlit("empty");
    reveal_strlit("minecraft:empty");
    reveal_strlit("structure_starts");
    reveal_strlit("minecraft:structure_starts");
    reveal_strlit("structure_references");
    reveal_strlit("minecraft:structure_references");
    reveal_strlit("biomes");
    reveal_strlit("minecraft:biomes");
    reveal_strlit("noise");
    reveal_strlit("minecraft:noise");
    reveal_strlit("surface");
    reveal_strlit("minecraft:surface");
    reveal_strlit("carvers");
    reveal_strlit("minecraft:carvers");
    reveal_strlit("liquid_carvers");
    reveal_strlit("minecraft:liquid_carvers");
    reveal_strlit("features");
    reveal_strlit("minecraft:features");
    reveal_strlit("light");
    reveal_strlit("minecraft:light");
    reveal_strlit("initialize_light");
    reveal_strlit("minecraft:initialize_light");
    reveal_strlit("spawn");
    reveal_strlit("minecraft:spawn");
    reveal_strlit("full");
    reveal_strlit("minecraft:full");
    assert("empty"@[0] == 'e' && "empty"@.len() == 5);
    assert("structure_starts"@[0] == 's' && "structure_starts"@.len() == 16);
    assert("structure_references"@[0] == 's' && "structure_references"@.len() == 20);
    assert("biomes"@[0] == 'b' && "biomes"@.len() == 6);
    assert("noise"@[0] == 'n' && "noise"@.len() == 5);
    assert("surface"@[0] == 's' && "surface"@.len() == 7);
    assert("carvers"@[0] == 'c' && "carvers"@.len() == 7);
    assert("liquid_carvers"@[0] == 'l' && "liquid_carvers"@.len() == 14);
    assert("features"@[0] == 'f' && "features"@.len() == 8);
    assert("light"@[0] == 'l' && "light"@.len() == 5);
    assert("initialize_light"@[0] == 'i' && "initialize_light"@.len() == 16);
    assert("spawn"@[0] == 's' && "spawn"@.len() == 5);
    assert("full"@[0] == 'f' && "full"@.len() == 4);
    assert("minecraft:empty"@[10] == 'e' && "minecraft:empty"@[0] == 'm' && "minecraft:empty"@.len()
        == 15);
    assert("minecraft:structure_starts"@[10] == 's' && "minecraft:structure_starts"@[0] == 'm'
        && "minecraft:structure_starts"@.len() == 26);
    assert("minecraft:structure_references"@[10] == 's' && "minecraft:structure_references"@[0]
        == 'm' && "minecraft:structure_references"@.len() == 30);
    assert("minecraft:biomes"@[10] == 'b' && "minecraft:biomes"@[0] == 'm'
        && "minecraft:biomes"@.len() == 16);
    assert("minecraft:noise"@[10] == 'n' && "minecraft:noise"@[0] == 'm' && "minecraft:noise"@.len()
        == 15);
    assert("minecraft:surface"@[10] == 's' && "minecraft:surface"@[0] == 'm'
        && "minecraft:surface"@.len() == 17);
    assert("minecraft:carvers"@[10] == 'c' && "minecraft:carvers"@[0] == 'm'
        && "minecraft:carvers"@.len() == 17);
    assert("minecraft:liquid_carvers"@[10] == 'l' && "minecraft:liquid_carvers"@[0] == 'm'
        && "minecraft:liquid_carvers"@.len() == 24);
    assert("minecraft:features"@[10] == 'f' && "minecraft:features"@[0] == 'm'
        && "minecraft:features"@.len() == 18);
    assert("minecraft:light"@[10] == 'l' && "minecraft:light"@[0] == 'm' && "minecraft:light"@.len()
        == 15);
    assert("minecraft:initialize_light"@[10] == 'i' && "minecraft:initialize_light"@[0] == 'm'
        && "minecraft:initialize_light"@.len() == 26);
    assert("minecraft:spawn"@[10] == 's' && "minecraft:spawn"@[0] == 'm' && "minecraft:spawn"@.len()
        == 15);
    assert("minecraft:full"@[10] == 'f' && "minecraft:full"@[0] == 'm' && "minecraft:full"@.len()
        == 14);
    assert("minecraft:"@.len() == 10 && "minecraft:"@[0] == 'm');
    match st {
        ChunkStatus::Empty => {
            assert("minecraft:"@ + "empty"@ =~= "minecraft:empty"@);
        },
        ChunkStatus::StructureStarts => {
            assert("minecraft:"@ + "structure_starts"@ =~= "minecraft:structure_starts"@);
        },
        ChunkStatus::StructureReferences => {
            assert("minecraft:"@ + "structure_references"@ =~= "minecraft:structure_references"@);
        },
        ChunkStatus::Biomes => {
            assert("minecraft:"@ + "biomes"@ =~= "minecraft:biomes"@);
        },
        ChunkStatus::Noise => {
            assert("minecraft:"@ + "noise"@ =~= "minecraft:noise"@);
        },
        ChunkStatus::Surface => {
            assert("minecraft:"@ + "surface"@ =~= "minecraft:surface"@);
        },
        ChunkStatus::Carvers => {
            assert("minecraft:"@ + "carvers"@ =~= "minecraft:carvers"@);
        },
        ChunkStatus::LiquidCarvers => {
            assert("minecraft:"@ + "liquid_carvers"@ =~= "minecraft:liquid_carvers"@);
        },
        ChunkStatus::Features => {
            assert("minecraft:"@ + "features"@ =~= "minecraft:features"@);
        },
        ChunkStatus::Light => {
            assert("minecraft:"@ + "light"@ =~= "minecraft:light"@);
        },
        ChunkStatus::InitializeLight => {
            assert("minecraft:"@ + "initialize_light"@ =~= "minecraft:initialize_light"@);
        },
        ChunkStatus::Spawn => {
            assert("minecraft:"@ + "spawn"@ =~= "minecraft:spawn"@);
        },
        ChunkStatus::Full => {
            assert("minecraft:"@ + "full"@ =~= "minecraft:full"@);
        },
    }
}

} // verus!
