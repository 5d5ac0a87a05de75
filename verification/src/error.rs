use vstd::prelude::*;

verus! {

/// Sum of the failure kinds across the whole decoding stack.
#[derive(Debug, Clone, PartialEq, Eq)]
pub enum ChunkLoadError {
    /// Subchunk index out of range of the `sections` list.
    MissingSection,
    /// A section compound lacks a `block_states` compound.
    EmptySection,
    /// A structural or semantic violation, with a human-readable message.
    MalformedChunk(String),
    /// The location entry for the slot is empty: the chunk was never generated.
    ChunkDoesNotExist,
    /// Propagated from the byte source or from a decompressor.
    IOError(String),
    /// Compression tag outside `{1, 2, 3, 4}`.
    UnknownCompressionFormat(u8),
    /// Propagated from the NBT parser.
    MalformedNbt(String),
}

} // verus!
