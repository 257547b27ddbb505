//! Fragment and fragment-set metadata types.
//!
//! A fragment ("chunk") is one uploaded piece of the artifact, identified by
//! its ordinal and verified by a hexadecimal SHA-256 digest of its bytes.
//! The metadata declares the fragment set: how many fragments exist and how
//! large the reassembled artifact must be.

use vstd::prelude::*;

verus! {

/// One uploaded fragment of the artifact.
#[derive(Debug, Clone)]
pub struct ModelChunk {
    /// Ordinal of this fragment within the set.
    pub id: u32,
    /// The fragment's bytes.
    pub data: Vec<u8>,
    /// Hexadecimal SHA-256 digest of `data`, as declared by the uploader.
    pub hash: String,
}

impl ModelChunk {
    /// A copy of the fragment: same ordinal, same bytes, same digest.
    pub fn duplicate(&self) -> (r: ModelChunk)
        ensures
            r.id == self.id,
            r.data@ == self.data@,
            r.hash == self.hash,
    {
        let data = self.data.clone();
        proof {
            assert(data@ =~= self.data@);
        }
        ModelChunk { id: self.id, data, hash: self.hash.clone() }
    }
}

/// Description of a single fragment inside a fragment-set declaration.
#[derive(Debug, Clone)]
pub struct ChunkInfo {
    /// Ordinal of the described fragment.
    pub chunk_id: u32,
    /// Name of the file the fragment was cut from.
    pub filename: String,
    /// Size of the fragment in bytes.
    pub size: u64,
    /// Hexadecimal digest of the fragment's bytes.
    pub hash: String,
}

impl ChunkInfo {
    /// Builds the description of one fragment.
    pub fn new(chunk_id: u32, filename: String, size: u64, hash: String) -> (r: Self)
        ensures
            r.chunk_id == chunk_id,
            r.filename == filename,
            r.size == size,
            r.hash == hash,
    {
        Self { chunk_id, filename, size, hash }
    }
}

/// Declaration of a fragment set: the upload session's source file, its
/// total size in bytes, and how many fragments it was cut into.
#[derive(Debug, Clone)]
pub struct ModelMetadata {
    /// Name of the source file the artifact was cut from.
    pub original_file: String,
    /// Declared total size of the artifact in bytes.
    pub original_size: u64,
    /// Declared number of fragments.
    pub total_chunks: u32,
    /// Size of a fragment in whole mebibytes, as declared by the uploader.
    pub chunk_size_mb: u32,
    /// Optional per-fragment descriptions.
    pub chunks: Vec<ChunkInfo>,
}

/// First entry of `chunks` carrying the ordinal `id`, if any.
pub open spec fn first_chunk_info_with(chunks: Seq<ChunkInfo>, id: u32) -> Option<ChunkInfo>
    decreases chunks.len(),
{
    if chunks.len() == 0 {
        None
    } else if chunks[0].chunk_id == id {
        Some(chunks[0])
    } else {
        first_chunk_info_with(chunks.drop_first(), id)
    }
}

impl ModelMetadata {
    /// Builds a declaration with no per-fragment descriptions yet.
    pub fn new(original_file: String, original_size: u64, total_chunks: u32, chunk_size_mb: u32) -> (r:
        Self)
        ensures
            r.original_file == original_file,
            r.original_size == original_size,
            r.total_chunks == total_chunks,
            r.chunk_size_mb == chunk_size_mb,
            r.chunks@ == Seq::<ChunkInfo>::empty(),
    {
        Self { original_file, original_size, total_chunks, chunk_size_mb, chunks: Vec::new() }
    }

    /// Appends one fragment description.
    pub fn add_chunk(&mut self, chunk: ChunkInfo)
        ensures
            final(self).chunks@ == old(self).chunks@.push(chunk),
            final(self).original_file == old(self).original_file,
            final(self).original_size == old(self).original_size,
            final(self).total_chunks == old(self).total_chunks,
            final(self).chunk_size_mb == old(self).chunk_size_mb,
    {
        self.chunks.push(chunk);
    }

    /// Whether a description has been recorded for every declared fragment.
    pub fn is_complete(&self) -> (r: bool)
        ensures
            r == (self.chunks@.len() == self.total_chunks),
    {
        self.chunks.len() == self.total_chunks as usize
    }

    /// Number of fragment descriptions recorded so far.
    pub fn chunks_uploaded(&self) -> (r: u32)
        requires
            self.chunks@.len() <= u32::MAX,
        ensures
            r == self.chunks@.len(),
    {
        self.chunks.len() as u32
    }

    /// Checks a digest against the first recorded description of the given
    /// fragment; false when the fragment is not described.
    pub fn validate_chunk(&self, chunk_id: u32, hash: &str) -> (r: bool)
        ensures
            r == match first_chunk_info_with(self.chunks@, chunk_id) {
                Some(c) => c.hash@ == hash@,
                None => false,
            },
    {
        let n = self.chunks.len();
        let mut i: usize = 0;
        proof {
            assert(self.chunks@.skip(0) =~= self.chunks@);
        }
        while i < n
            invariant
                0 <= i <= n,
                n == self.chunks@.len(),
                first_chunk_info_with(self.chunks@, chunk_id) == first_chunk_info_with(
                    self.chunks@.skip(i as int),
                    chunk_id,
                ),
            decreases n - i,
        {
            if self.chunks[i].chunk_id == chunk_id {
                proof {
                    assert(self.chunks@.skip(i as int)[0] == self.chunks@[i as int]);
                }
                let expected = hash.to_owned();
                let actual = self.chunks[i].hash.clone();
                return actual == expected;
            }
            proof {
                assert(self.chunks@.skip(i as int).drop_first() =~= self.chunks@.skip(i + 1));
            }
            i = i + 1;
        }
        proof {
            assert(self.chunks@.skip(n as int).len() == 0);
        }
        false
    }
}

} // verus!
