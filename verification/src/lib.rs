use vstd::prelude::*;
use vstd::slice::slice_subrange;

pub mod chunks;
pub mod error;
pub mod metadata;
pub mod nbt;

use crate::chunks::{spec_chunk_read_result, Chunk};
use crate::error::ChunkLoadError;
use crate::metadata::{
    spec_byte_length, spec_byte_offset, spec_i32_be, spec_location_entry, ChunkTimestamp,
    LocationTable, TimestampTable,
};

verus! {

/// Linear slot index of chunk `(x, z)` in the two region header tables:
/// `z * 32 + x`, row-major over the 32 x 32 chunk grid.
pub open spec fn spec_chunk_index(chunk_x: u8, chunk_z: u8) -> int {
    chunk_z * 32 + chunk_x
}

pub fn get_chunk_index(chunk_x: u8, chunk_z: u8) -> (r: usize)
    ensures
        r == spec_chunk_index(chunk_x, chunk_z),
{
    chunk_z as usize * 32 + chunk_x as usize
}

/// The slot indexing is a bijection between `[0,32)^2` and `[0,1024)`:
/// in-range coordinates land in the table, no two coordinate pairs share
/// a slot, and every slot is hit by some pair.
pub proof fn lemma_chunk_index_bijection(x1: u8, z1: u8, x2: u8, z2: u8, i: int)
    requires
        x1 < 32,
        z1 < 32,
        x2 < 32,
        z2 < 32,
        0 <= i < 1024,
    ensures
        0 <= spec_chunk_index(x1, z1) < 1024,
        spec_chunk_index(x1, z1) == spec_chunk_index(x2, z2) ==> (x1 == x2 && z1 == z2),
        exists|x: u8, z: u8| x < 32 && z < 32 && spec_chunk_index(x, z) == i,
{
    let wx: u8 = (i % 32) as u8;
    let wz: u8 = (i / 32) as u8;
    assert(wx < 32 && wz < 32 && spec_chunk_index(wx, wz) == i);
}

/// Reads a whole Anvil region file held in memory: the two 1024-entry
/// header tables parsed up front, chunk frames decoded on demand.
pub struct RegionFileReader {
    pub data: Vec<u8>,
    pub location_table: LocationTable,
    pub timestamp_table: TimestampTable,
}

impl RegionFileReader {
    /// The header tables were parsed from the first 8192 bytes of the
    /// owned file image.
    pub open spec fn wf(&self) -> bool {
        &&& self.data@.len() >= 8192
        &&& self.location_table@.len() == 1024
        &&& self.timestamp_table@.len() == 1024
        &&& forall|j: int|
            0 <= j < 1024 ==> self.location_table@[j] == spec_location_entry(self.data@, 4 * j)
        &&& forall|j: int|
            0 <= j < 1024 ==> self.timestamp_table@[j] == spec_i32_be(self.data@, 4096 + 4 * j)
    }

    /// Takes ownership of a region file image and parses its two header
    /// tables, which occupy exactly the first 8192 bytes. An image too
    /// short for the header is rejected.
    pub fn create(data: Vec<u8>) -> (r: Result<RegionFileReader, ChunkLoadError>)
        ensures
            data@.len() < 8192 ==> r matches Err(ChunkLoadError::IOError(_)),
            data@.len() >= 8192 ==> (r matches Ok(rf) && rf.data@ == data@ && rf.wf()),
    {
        if data.len() < 8192 {
            return Err(
                ChunkLoadError::IOError("Region file is shorter than its 8192-byte header".to_owned()),
            );
        }
        let location_table = LocationTable::read(data.as_slice());
        let timestamp_slice = slice_subrange(data.as_slice(), 4096, 8192);
        let timestamp_table = TimestampTable::read(timestamp_slice);
        proof {
            assert forall|j: int| 0 <= j < 1024 implies timestamp_table@[j] == spec_i32_be(
                data@,
                4096 + 4 * j,
            ) by {
                assert(timestamp_slice@[4 * j] == data@[4096 + 4 * j]);
                assert(timestamp_slice@[4 * j + 1] == data@[4096 + 4 * j + 1]);
                assert(timestamp_slice@[4 * j + 2] == data@[4096 + 4 * j + 2]);
                assert(timestamp_slice@[4 * j + 3] == data@[4096 + 4 * j + 3]);
            }
        }
        Ok(RegionFileReader { data, location_table, timestamp_table })
    }

    /// The table of last-update timestamps.
    pub fn get_timestamps(&self) -> (r: &TimestampTable)
        ensures
            r@ == self.timestamp_table@,
    {
        &self.timestamp_table
    }

    /// The last-update timestamp of slot `(x, z)`, or `None` when the
    /// slot index lies outside the table. A stored `0` is the valid
    /// "never generated" marker and comes back as `Some(0)`.
    pub fn get_timestamp(&self, chunk_x: u8, chunk_z: u8) -> (r: Option<ChunkTimestamp>)
        ensures
            r == if spec_chunk_index(chunk_x, chunk_z) < self.timestamp_table@.len() {
                Some(self.timestamp_table@[spec_chunk_index(chunk_x, chunk_z)])
            } else {
                Option::<ChunkTimestamp>::None
            },
    {
        self.timestamp_table.get(get_chunk_index(chunk_x, chunk_z))
    }

    /// The metadata of slot `(x, z)`.
    pub fn get_chunk_metadata(&self, chunk_x: u8, chunk_z: u8) -> (r: ChunkMetadata)
        requires
            spec_chunk_index(chunk_x, chunk_z) < self.timestamp_table@.len(),
        ensures
            r.last_updated == self.timestamp_table@[spec_chunk_index(chunk_x, chunk_z)],
    {
        match self.timestamp_table.get(get_chunk_index(chunk_x, chunk_z)) {
            Some(ts) => ChunkMetadata { last_updated: ts },
            None => vstd::pervasive::unreached(),
        }
    }

    /// Locates, slices and decodes the chunk of slot `(x, z)`. An empty
    /// location entry is exactly `ChunkDoesNotExist`; a span past the end
    /// of the file is an I/O failure; within the span the result is the
    /// decode of the located frame, as `spec_chunk_read_result` states. A
    /// fresh chunk is materialized on every call.
    pub fn get_chunk(&self, chunk_x: u8, chunk_z: u8) -> (r: Result<Chunk, ChunkLoadError>)
        requires
            spec_chunk_index(chunk_x, chunk_z) < self.location_table@.len(),
        ensures
            ({
                let e = self.location_table@[spec_chunk_index(chunk_x, chunk_z)];
                let off = spec_byte_offset(e);
                let len = spec_byte_length(e);
                &&& (e.size == 0 <==> r matches Err(ChunkLoadError::ChunkDoesNotExist))
                &&& (e.size != 0 && off + len > self.data@.len() ==> r matches Err(
                    ChunkLoadError::IOError(_),
                ))
                &&& (e.size != 0 && off + len <= self.data@.len() ==> spec_chunk_read_result(
                    self.data@.subrange(off, off + len),
                    r,
                ))
            }),
    {
        let index = get_chunk_index(chunk_x, chunk_z);
        let location = self.location_table.entry(index);
        let (seek, size) = location.to_offset_form();
        if size == 0 {
            return Err(ChunkLoadError::ChunkDoesNotExist);
        }
        let len_data = self.data.len();
        if size > len_data || seek > (len_data - size) as u64 {
            return Err(ChunkLoadError::IOError("Chunk sectors lie outside the file".to_owned()));
        }
        let start = seek as usize;
        let frame = slice_subrange(self.data.as_slice(), start, start + size);
        Chunk::read(frame)
    }
}

/// P-law: opening a region reads exactly the 8192 header bytes. Two
/// readers whose images agree on those bytes carry identical location
/// and timestamp tables, each with its 1024 entries.
pub proof fn lemma_header_reads_8192_bytes(r1: RegionFileReader, r2: RegionFileReader)
    requires
        r1.wf(),
        r2.wf(),
        r1.data@.subrange(0, 8192) == r2.data@.subrange(0, 8192),
    ensures
        r1.location_table@.len() == 1024,
        r1.timestamp_table@.len() == 1024,
        r1.location_table@ == r2.location_table@,
        r1.timestamp_table@ == r2.timestamp_table@,
{
    let header = r1.data@.subrange(0, 8192);
    assert forall|k: int| 0 <= k < 8192 implies r1.data@[k] == r2.data@[k] by {
        assert(r1.data@[k] == header[k]);
        assert(r2.data@[k] == r2.data@.subrange(0, 8192)[k]);
    }
    assert(r1.location_table@ =~= r2.location_table@);
    assert(r1.timestamp_table@ =~= r2.timestamp_table@);
}

/// Cached per-slot metadata of one chunk.
pub struct ChunkMetadata {
    /// The unix timestamp of the last time this chunk was updated.
    /// 0, if the chunk has not been generated.
    pub last_updated: ChunkTimestamp,
}

} // verus!
