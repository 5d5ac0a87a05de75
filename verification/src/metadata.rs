use vstd::prelude::*;
use vstd::slice::slice_subrange;
use vstd::arithmetic::div_mod::lemma_mod_multiples_basic;

verus! {

/// Unix seconds of a chunk's last update; `0` means "never generated".
pub type ChunkTimestamp = i32;

/// The big-endian 24-bit unsigned integer at `pos`.
pub open spec fn spec_u24_be(bytes: Seq<u8>, pos: int) -> u32
    recommends
        0 <= pos,
        pos + 3 <= bytes.len(),
{
    ((bytes[pos] as int) * 0x10000 + (bytes[pos + 1] as int) * 0x100 + (bytes[pos + 2] as int)) as u32
}

/// The big-endian 32-bit signed integer at `pos`.
pub open spec fn spec_i32_be(bytes: Seq<u8>, pos: int) -> i32
    recommends
        0 <= pos,
        pos + 4 <= bytes.len(),
{
    let unsigned = (bytes[pos] as int) * 0x1000000 + (bytes[pos + 1] as int) * 0x10000 + (bytes[pos
        + 2] as int) * 0x100 + (bytes[pos + 3] as int);
    if unsigned < 0x80000000 {
        unsigned as i32
    } else {
        (unsigned - 0x100000000) as i32
    }
}

/// One slot of the location table: a sector offset and a sector count,
/// both in units of 4096-byte sectors.
#[derive(Debug, Clone, Copy, PartialEq, Eq, Structural)]
pub struct LocationTableEntry {
    /// Position of the chunk's first sector within the file, in sectors.
    pub position: u32,
    /// Length of the chunk's span, in sectors.
    pub size: u8,
}

/// The entry encoded at byte `pos`: three big-endian offset bytes, then
/// one sector-count byte.
pub open spec fn spec_location_entry(bytes: Seq<u8>, pos: int) -> LocationTableEntry
    recommends
        0 <= pos,
        pos + 4 <= bytes.len(),
{
    LocationTableEntry { position: spec_u24_be(bytes, pos), size: bytes[pos + 3] }
}

/// Byte offset of the chunk's frame within the file.
pub open spec fn spec_byte_offset(e: LocationTableEntry) -> int {
    e.position * 4096
}

/// Byte length of the chunk's sector span.
pub open spec fn spec_byte_length(e: LocationTableEntry) -> int {
    e.size * 4096
}

impl LocationTableEntry {
    pub fn from_bytes(bytes: &[u8]) -> (r: Self)
        requires
            bytes@.len() >= 4,
        ensures
            r == spec_location_entry(bytes@, 0),
    {
        LocationTableEntry {
            position: (bytes[0] as u32) * 0x10000 + (bytes[1] as u32) * 0x100 + (bytes[2] as u32),
            size: bytes[3],
        }
    }

    /// An empty entry denotes an ungenerated chunk.
    pub fn is_empty(&self) -> (r: bool)
        ensures
            r == (self.position == 0 && self.size == 0),
    {
        self.position == 0 && self.size == 0
    }

    /// Converts this entry into the offset form: the byte offset of the
    /// chunk within the file and the byte length of its sector span.
    pub fn to_offset_form(&self) -> (r: (u64, usize))
        ensures
            r.0 == spec_byte_offset(*self),
            r.1 == spec_byte_length(*self),
    {
        (self.position as u64 * 4096, self.size as usize * 4096)
    }
}

/// P-law: a located chunk span starts past the two header tables and is
/// a whole, positive number of sectors. Entries whose sector offset lies
/// inside the header (`position < 2`) or whose count is zero denote no
/// span and are excluded.
pub proof fn lemma_locator_arithmetic(e: LocationTableEntry)
    requires
        e.position >= 2,
        e.size >= 1,
    ensures
        spec_byte_offset(e) >= 8192,
        spec_byte_length(e) > 0,
        spec_byte_offset(e) % 4096 == 0,
        spec_byte_length(e) % 4096 == 0,
{
    lemma_mod_multiples_basic(e.position as int, 4096);
    lemma_mod_multiples_basic(e.size as int, 4096);
}

/// The 1024-entry table at the start of a region file mapping each chunk
/// slot to its sector span.
pub struct LocationTable {
    internal: Vec<LocationTableEntry>,
}

impl View for LocationTable {
    type V = Seq<LocationTableEntry>;

    closed spec fn view(&self) -> Seq<LocationTableEntry> {
        self.internal@
    }
}

impl LocationTable {
    /// Parses the location table from the first 4096 bytes of `buf`.
    pub fn read(buf: &[u8]) -> (r: Self)
        requires
            buf@.len() >= 4096,
        ensures
            r@.len() == 1024,
            forall|j: int| 0 <= j < 1024 ==> r@[j] == spec_location_entry(buf@, 4 * j),
    {
        let mut internal: Vec<LocationTableEntry> = Vec::new();
        let mut i: usize = 0;
        while i < 1024
            invariant
                i <= 1024,
                buf@.len() >= 4096,
                internal@.len() == i,
                forall|j: int| 0 <= j < i ==> internal@[j] == spec_location_entry(buf@, 4 * j),
            decreases 1024 - i,
        {
            let pos = i * 4;
            let entry = LocationTableEntry::from_bytes(slice_subrange(buf, pos, pos + 4));
            proof {
                assert(spec_location_entry(buf@.subrange(pos as int, pos + 4), 0)
                    == spec_location_entry(buf@, 4 * i));
            }
            internal.push(entry);
            i = i + 1;
        }
        LocationTable { internal }
    }

    /// The entry of slot `index`.
    pub fn entry(&self, index: usize) -> (r: &LocationTableEntry)
        requires
            index < self@.len(),
        ensures
            *r == self@[index as int],
    {
        &self.internal[index]
    }
}

/// The 1024-entry table of last-update timestamps, one per chunk slot.
pub struct TimestampTable {
    internal: Vec<ChunkTimestamp>,
}

impl View for TimestampTable {
    type V = Seq<ChunkTimestamp>;

    closed spec fn view(&self) -> Seq<ChunkTimestamp> {
        self.internal@
    }
}

fn read_i32_be(bytes: &[u8]) -> (r: i32)
    requires
        bytes@.len() >= 4,
    ensures
        r == spec_i32_be(bytes@, 0),
{
    let unsigned: u32 = (bytes[0] as u32) * 0x1000000 + (bytes[1] as u32) * 0x10000 + (bytes[2]
        as u32) * 0x100 + (bytes[3] as u32);
    if unsigned >= 0x80000000 {
        ((unsigned as i64) - 0x100000000i64) as i32
    } else {
        unsigned as i32
    }
}

impl TimestampTable {
    /// Parses the timestamp table from the first 4096 bytes of `buf`
    /// (in the file these follow the location table).
    pub fn read(buf: &[u8]) -> (r: Self)
        requires
            buf@.len() >= 4096,
        ensures
            r@.len() == 1024,
            forall|j: int| 0 <= j < 1024 ==> r@[j] == spec_i32_be(buf@, 4 * j),
    {
        let mut internal: Vec<ChunkTimestamp> = Vec::new();
        let mut i: usize = 0;
        while i < 1024
            invariant
                i <= 1024,
                buf@.len() >= 4096,
                internal@.len() == i,
                forall|j: int| 0 <= j < i ==> internal@[j] == spec_i32_be(buf@, 4 * j),
            decreases 1024 - i,
        {
            let pos = i * 4;
            let ts = read_i32_be(slice_subrange(buf, pos, pos + 4));
            proof {
                assert(spec_i32_be(buf@.subrange(pos as int, pos + 4), 0) == spec_i32_be(
                    buf@,
                    4 * i,
                ));
            }
            internal.push(ts);
            i = i + 1;
        }
        TimestampTable { internal }
    }

    /// The timestamp of slot `index`, or `None` when the index lies
    /// outside the table.
    pub fn get(&self, index: usize) -> (r: Option<ChunkTimestamp>)
        ensures
            r == if index < self@.len() {
                Some(self@[index as int])
            } else {
                Option::<ChunkTimestamp>::None
            },
    {
        if index < self.internal.len() {
            Some(self.internal[index])
        } else {
            None
        }
    }

    /// All 1024 timestamps in slot order.
    pub fn entries(&self) -> (r: &Vec<ChunkTimestamp>)
        ensures
            r@ == self@,
    {
        &self.internal
    }
}

} // verus!
