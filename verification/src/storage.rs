//! Fragment store and streaming assembler.
//!
//! [`ModelStorage`] holds uploaded fragments keyed by ordinal together with
//! the fragment-set declaration, and drives a resumable state machine that
//! concatenates the fragments in strictly increasing ordinal order, in
//! bounded batches, into the final artifact. The artifact is too large to
//! assemble in one bounded unit of work, so assembly makes bounded progress
//! per call and is atomic per call: a failed batch commits nothing.

use vstd::prelude::*;

use crate::chunks::{ModelChunk, ModelMetadata};
use crate::errors::{CoreError, ErrorView};
use crate::hash::{calculate_hash, sha256_hex_of, verify_chunk_integrity};
use vstd::hash_map::HashMapWithView;

verus! {

broadcast use vstd::std_specs::hash::group_hash_axioms;

/// Assembly phase of the artifact, as contracts see it.
///
/// Transitions only move forward: `NotStarted` to `InProgress` to
/// `Complete`. While `InProgress`, `buffer` is exactly the concatenation of
/// the fragments with ordinals below `next_ordinal`, in ordinal order.
pub ghost enum AssemblyState {
    /// Assembly has not begun.
    NotStarted,
    /// Fragments below `next_ordinal` have been concatenated into `buffer`.
    InProgress { next_ordinal: u32, buffer: Seq<u8> },
    /// All fragments were concatenated; `digest` is the artifact's
    /// hexadecimal SHA-256 digest.
    Complete { artifact: Seq<u8>, digest: Seq<char> },
}

/// Artifact (or partial buffer) carried by an assembly state.
pub open spec fn artifact_of(s: AssemblyState) -> Seq<u8> {
    match s {
        AssemblyState::NotStarted => Seq::empty(),
        AssemblyState::InProgress { buffer, .. } => buffer,
        AssemblyState::Complete { artifact, .. } => artifact,
    }
}

/// Concatenation of the bytes of fragments `0, 1, ..., n-1`, in ordinal
/// order, out of `chunks`.
pub open spec fn assembled_prefix(chunks: Map<u32, ModelChunk>, n: int) -> Seq<u8>
    decreases n,
{
    if n <= 0 {
        Seq::empty()
    } else {
        assembled_prefix(chunks, n - 1) + chunks[(n - 1) as u32].data@
    }
}

/// First ordinal in `[from, to)` that is absent from `chunks`, if any.
pub open spec fn first_missing(chunks: Map<u32, ModelChunk>, from: int, to: int) -> Option<u32>
    decreases to - from,
{
    if from >= to {
        None
    } else if !chunks.contains_key(from as u32) {
        Some(from as u32)
    } else {
        first_missing(chunks, from + 1, to)
    }
}

/// Ordinals in `[0, n)` absent from `chunks`, in increasing order.
pub open spec fn missing_upto(chunks: Map<u32, ModelChunk>, n: int) -> Seq<u32>
    decreases n,
{
    if n <= 0 {
        Seq::empty()
    } else if chunks.contains_key((n - 1) as u32) {
        missing_upto(chunks, n - 1)
    } else {
        missing_upto(chunks, n - 1).push((n - 1) as u32)
    }
}

/// Progress report of one assembly batch.
#[derive(Debug, Clone, PartialEq, Eq, Structural)]
pub struct Progress {
    /// Number of fragments consumed by this batch.
    pub processed: u32,
    /// Ordinal of the next fragment to consume.
    pub next_ordinal: u32,
    /// Declared number of fragments.
    pub total_chunks: u32,
}

/// Snapshot of the upload session, for callers of the upload endpoint.
#[derive(Debug, Clone)]
pub struct UploadStatus {
    /// Declared number of fragments; zero when nothing is declared.
    pub total_chunks: u32,
    /// Number of distinct fragments received.
    pub uploaded_chunks: u64,
    /// Declared ordinals for which no fragment was received, increasing.
    pub missing_chunks: Vec<u32>,
    /// Whether every declared fragment was received and nothing else.
    pub is_complete: bool,
    /// Declared total size of the artifact in bytes.
    pub original_size_bytes: u64,
}

/// Snapshot of the assembly state machine, for callers of the
/// initialization endpoint.
#[derive(Debug, Clone, PartialEq, Eq, Structural)]
pub struct InitializationStatus {
    /// Whether the artifact is fully assembled.
    pub is_initialized: bool,
    /// Whether a streaming assembly is underway.
    pub is_streaming: bool,
    /// Whether assembly was ever begun.
    pub initialization_started: bool,
    /// Fragments consumed so far.
    pub processed_chunks: u32,
    /// Declared number of fragments; zero when nothing is declared.
    pub total_chunks: u32,
    /// Bytes accumulated so far.
    pub current_size_bytes: u64,
    /// Declared total size of the artifact in bytes.
    pub estimated_total_size_bytes: u64,
}

/// Every stored fragment sits under its own ordinal and carries a digest
/// matching its bytes.
pub open spec fn chunks_wf(chunks: Map<u32, ModelChunk>) -> bool {
    forall|k: u32| #[trigger]
        chunks.contains_key(k) ==> chunks[k].id == k && chunks[k].hash@ == sha256_hex_of(
            chunks[k].data@,
        )
}

/// Fragment store and streaming assembler; one instance per model lifetime.
pub struct ModelStorage {
    chunks: HashMapWithView<u32, ModelChunk>,
    metadata: Option<ModelMetadata>,
    started: bool,
    initialized: bool,
    next_ordinal: u32,
    buffer: Vec<u8>,
    digest: Option<String>,
}

impl ModelStorage {
    /// Received fragments, keyed by ordinal.
    pub closed spec fn chunks_map(&self) -> Map<u32, ModelChunk> {
        self.chunks@
    }

    /// The fragment-set declaration, if one was stored.
    pub closed spec fn metadata_spec(&self) -> Option<ModelMetadata> {
        self.metadata
    }

    /// Current assembly phase.
    pub closed spec fn assembly_state(&self) -> AssemblyState {
        if !self.started {
            AssemblyState::NotStarted
        } else if self.initialized {
            AssemblyState::Complete { artifact: self.buffer@, digest: self.digest->0@ }
        } else {
            AssemblyState::InProgress { next_ordinal: self.next_ordinal, buffer: self.buffer@ }
        }
    }

    /// Internal coherence of the state-machine fields that
    /// [`Self::assembly_state`] does not expose in every phase.
    pub closed spec fn state_inv(&self) -> bool {
        &&& !self.started ==> !self.initialized && self.next_ordinal == 0 && self.buffer@
            == Seq::<u8>::empty() && self.digest is None
        &&& self.initialized ==> self.started && self.digest is Some
    }

    /// Well-formedness: every stored fragment sits under its own ordinal
    /// and carries a digest matching its bytes, and the assembly state obeys
    /// the buffer-prefix and size invariants.
    pub open spec fn wf(&self) -> bool {
        &&& self.state_inv()
        &&& chunks_wf(self.chunks_map())
        &&& match self.assembly_state() {
            AssemblyState::NotStarted => true,
            AssemblyState::InProgress { next_ordinal, buffer } => {
                &&& self.metadata_spec() matches Some(m)
                &&& next_ordinal <= self.metadata_spec()->0.total_chunks
                &&& forall|j: u32| j < next_ordinal ==> self.chunks_map().contains_key(j)
                &&& buffer == assembled_prefix(self.chunks_map(), next_ordinal as int)
            },
            AssemblyState::Complete { artifact, digest } => {
                &&& self.metadata_spec() matches Some(m)
                &&& forall|j: u32|
                    j < self.metadata_spec()->0.total_chunks ==> self.chunks_map().contains_key(j)
                &&& artifact == assembled_prefix(
                    self.chunks_map(),
                    self.metadata_spec()->0.total_chunks as int,
                )
                &&& artifact.len() == self.metadata_spec()->0.original_size
                &&& digest == sha256_hex_of(artifact)
            },
        }
    }

    /// Whether the store accepts this fragment: assembly has not begun, the
    /// digest matches the bytes, and the ordinal lies inside any declaration.
    pub open spec fn accepts_chunk(&self, chunk: ModelChunk) -> bool {
        &&& self.assembly_state() is NotStarted
        &&& chunk.hash@ == sha256_hex_of(chunk.data@)
        &&& (self.metadata_spec() matches Some(m) ==> chunk.id < m.total_chunks)
    }

    /// The cause reported when the store rejects this fragment.
    pub open spec fn store_chunk_error(&self, chunk: ModelChunk) -> ErrorView {
        if self.assembly_state() is Complete {
            ErrorView::AlreadyComplete
        } else if self.assembly_state() is InProgress {
            ErrorView::AlreadyInProgress
        } else if chunk.hash@ != sha256_hex_of(chunk.data@) {
            ErrorView::IntegrityMismatch
        } else {
            ErrorView::InvalidOrdinal(chunk.id)
        }
    }

    /// Whether every declared fragment was received, and only those.
    pub open spec fn upload_complete_spec(&self) -> bool {
        match self.metadata_spec() {
            Some(m) => {
                &&& self.chunks_map().len() == m.total_chunks
                &&& forall|j: u32| j < m.total_chunks ==> self.chunks_map().contains_key(j)
            },
            None => false,
        }
    }

    /// Creates an empty store with assembly not yet begun.
    pub fn new() -> (r: Self)
        ensures
            r.wf(),
            r.chunks_map() == Map::<u32, ModelChunk>::empty(),
            r.metadata_spec() is None,
            r.assembly_state() is NotStarted,
    {
        ModelStorage {
            chunks: HashMapWithView::new(),
            metadata: None,
            started: false,
            initialized: false,
            next_ordinal: 0,
            buffer: Vec::new(),
            digest: None,
        }
    }

    /// Stores one fragment under its ordinal after checking its digest
    /// against its bytes. Re-upload of an already received ordinal is
    /// accepted and overwrites (last write wins); a digest mismatch rejects
    /// the fragment and changes nothing.
    pub fn store_chunk(&mut self, chunk: ModelChunk) -> (r: Result<(), CoreError>)
        requires
            old(self).wf(),
        ensures
            final(self).wf(),
            final(self).metadata_spec() == old(self).metadata_spec(),
            final(self).assembly_state() == old(self).assembly_state(),
            r is Ok <==> old(self).accepts_chunk(chunk),
            r is Ok ==> final(self).chunks_map() == old(self).chunks_map().insert(chunk.id, chunk),
            r matches Err(e) ==> final(self).chunks_map() == old(self).chunks_map() && e@ == old(
                self,
            ).store_chunk_error(chunk),
    {
        if self.started {
            if self.initialized {
                return Err(CoreError::AlreadyComplete);
            }
            return Err(CoreError::AlreadyInProgress);
        }
        if !verify_chunk_integrity(chunk.data.as_slice(), chunk.hash.as_str()) {
            return Err(CoreError::IntegrityMismatch);
        }
        match &self.metadata {
            Some(m) => {
                if chunk.id >= m.total_chunks {
                    return Err(CoreError::InvalidOrdinal(chunk.id));
                }
            },
            None => {},
        }
        let id = chunk.id;
        self.chunks.insert(id, chunk);
        proof {
            assert forall|k: u32| #[trigger] self.chunks_map().contains_key(k) implies self.chunks_map()[k].id
                == k && self.chunks_map()[k].hash@ == sha256_hex_of(
                self.chunks_map()[k].data@,
            ) by {
                if k != id {
                    assert(old(self).chunks_map().contains_key(k));
                }
            }
        }
        Ok(())
    }

    /// Replaces the fragment-set declaration. Fragments already stored are
    /// not validated against the new declaration; completeness is computed
    /// lazily. Rejected once assembly has begun.
    pub fn store_metadata(&mut self, metadata: ModelMetadata) -> (r: Result<(), CoreError>)
        requires
            old(self).wf(),
        ensures
            final(self).wf(),
            final(self).chunks_map() == old(self).chunks_map(),
            final(self).assembly_state() == old(self).assembly_state(),
            r is Ok <==> old(self).assembly_state() is NotStarted,
            r is Ok ==> final(self).metadata_spec() == Some(metadata),
            r matches Err(e) ==> final(self).metadata_spec() == old(self).metadata_spec() && e@ == (
            if old(self).assembly_state() is Complete {
                ErrorView::AlreadyComplete
            } else {
                ErrorView::AlreadyInProgress
            }),
    {
        if self.started {
            if self.initialized {
                return Err(CoreError::AlreadyComplete);
            }
            return Err(CoreError::AlreadyInProgress);
        }
        self.metadata = Some(metadata);
        Ok(())
    }

    /// The stored declaration, if any.
    pub fn get_metadata(&self) -> (r: Option<&ModelMetadata>)
        ensures
            match r {
                Some(m) => self.metadata_spec() == Some(*m),
                None => self.metadata_spec() is None,
            },
    {
        self.metadata.as_ref()
    }

    /// Whether every declared fragment was received and nothing beyond the
    /// declaration; false while no declaration is stored.
    #[verifier::loop_isolation(false)]
    pub fn is_upload_complete(&self) -> (r: bool)
        requires
            self.wf(),
        ensures
            r == self.upload_complete_spec(),
    {
        let total: u32 = match &self.metadata {
            Some(m) => m.total_chunks,
            None => {
                return false;
            },
        };
        if self.chunks.len() != total as usize {
            return false;
        }
        let mut j: u32 = 0;
        while j < total
            invariant
                j <= total,
                forall|k: u32| k < j ==> self.chunks_map().contains_key(k),
                self.metadata_spec() matches Some(m) && m.total_chunks == total,
                self.chunks_map().len() == total,
            decreases total - j,
        {
            if !self.chunks.contains_key(&j) {
                return false;
            }
            j = j + 1;
        }
        true
    }

    /// Declared ordinals for which no fragment was received, in increasing
    /// order; empty while no declaration is stored.
    #[verifier::loop_isolation(false)]
    pub fn get_missing_chunks(&self) -> (r: Vec<u32>)
        ensures
            r@ == match self.metadata_spec() {
                Some(m) => missing_upto(self.chunks_map(), m.total_chunks as int),
                None => Seq::<u32>::empty(),
            },
    {
        let mut missing: Vec<u32> = Vec::new();
        let total: u32 = match &self.metadata {
            Some(m) => m.total_chunks,
            None => {
                return missing;
            },
        };
        let mut j: u32 = 0;
        while j < total
            invariant
                j <= total,
                missing@ == missing_upto(self.chunks_map(), j as int),
            decreases total - j,
        {
            if !self.chunks.contains_key(&j) {
                missing.push(j);
            }
            j = j + 1;
        }
        missing
    }

    /// Begins streaming assembly. Legal only before assembly has begun and
    /// after a declaration was stored; fragments may still be missing, which
    /// later batches will report.
    pub fn start_initialization(&mut self) -> (r: Result<(), CoreError>)
        requires
            old(self).wf(),
        ensures
            final(self).wf(),
            final(self).chunks_map() == old(self).chunks_map(),
            final(self).metadata_spec() == old(self).metadata_spec(),
            r is Ok <==> old(self).assembly_state() is NotStarted && old(self).metadata_spec()
                is Some,
            r is Ok ==> final(self).assembly_state() == (AssemblyState::InProgress {
                next_ordinal: 0u32,
                buffer: Seq::<u8>::empty(),
            }),
            r matches Err(e) ==> final(self).assembly_state() == old(self).assembly_state() && e@
                == (if old(self).assembly_state() is Complete {
                ErrorView::AlreadyComplete
            } else if old(self).assembly_state() is InProgress {
                ErrorView::AlreadyInProgress
            } else {
                ErrorView::ModelNotReady
            }),
    {
        if self.started {
            if self.initialized {
                return Err(CoreError::AlreadyComplete);
            }
            return Err(CoreError::AlreadyInProgress);
        }
        if self.metadata.is_none() {
            return Err(CoreError::ModelNotReady);
        }
        self.started = true;
        self.next_ordinal = 0;
        Ok(())
    }

    /// Consumes the next batch of fragments, appending their bytes to the
    /// buffer in strictly increasing ordinal order.
    ///
    /// A missing fragment fails the whole batch with no partial commit. When
    /// the last fragment is consumed, the buffer's length is checked against
    /// the declared total size: on a match the state becomes `Complete` with
    /// the artifact's digest; on a mismatch the state stays `InProgress` at
    /// the boundary so a caller can inspect it.
    #[verifier::loop_isolation(false)]
    pub fn process_chunks_batch(&mut self, batch_size: u32) -> (r: Result<Progress, CoreError>)
        requires
            old(self).wf(),
        ensures
            final(self).wf(),
            final(self).chunks_map() == old(self).chunks_map(),
            final(self).metadata_spec() == old(self).metadata_spec(),
            match r {
                Ok(p) => {
                    let m = old(self).metadata_spec()->0;
                    let next = old(self).assembly_state()->next_ordinal;
                    let end = if next + batch_size > m.total_chunks {
                        m.total_chunks as int
                    } else {
                        next + batch_size
                    };
                    &&& 1 <= batch_size <= 200
                    &&& old(self).assembly_state() is InProgress
                    &&& first_missing(old(self).chunks_map(), next as int, end) is None
                    &&& p == (Progress {
                        processed: (end - next) as u32,
                        next_ordinal: end as u32,
                        total_chunks: m.total_chunks,
                    })
                    &&& if end == m.total_chunks && assembled_prefix(
                        old(self).chunks_map(),
                        end,
                    ).len() == m.original_size {
                        final(self).assembly_state() == (AssemblyState::Complete {
                            artifact: assembled_prefix(old(self).chunks_map(), end),
                            digest: sha256_hex_of(assembled_prefix(old(self).chunks_map(), end)),
                        })
                    } else {
                        &&& end < m.total_chunks
                        &&& final(self).assembly_state() == (AssemblyState::InProgress {
                            next_ordinal: end as u32,
                            buffer: assembled_prefix(old(self).chunks_map(), end),
                        })
                    }
                },
                Err(e) => {
                    let m = old(self).metadata_spec()->0;
                    let next = old(self).assembly_state()->next_ordinal;
                    let end = if next + batch_size > m.total_chunks {
                        m.total_chunks as int
                    } else {
                        next + batch_size
                    };
                    if batch_size < 1 || batch_size > 200 {
                        e@ == ErrorView::InvalidBatchSize && final(self).assembly_state() == old(
                            self,
                        ).assembly_state()
                    } else if old(self).assembly_state() is NotStarted {
                        e@ == ErrorView::NotStarted && final(self).assembly_state() == old(
                            self,
                        ).assembly_state()
                    } else if old(self).assembly_state() is Complete {
                        e@ == ErrorView::AlreadyComplete && final(self).assembly_state() == old(
                            self,
                        ).assembly_state()
                    } else if first_missing(old(self).chunks_map(), next as int, end) is Some {
                        e@ == ErrorView::MissingFragment(
                            first_missing(old(self).chunks_map(), next as int, end)->0,
                        ) && final(self).assembly_state() == old(self).assembly_state()
                    } else {
                        &&& e@ == ErrorView::SizeMismatch
                        &&& end == m.total_chunks
                        &&& assembled_prefix(old(self).chunks_map(), end).len() != m.original_size
                        &&& final(self).assembly_state() == (AssemblyState::InProgress {
                            next_ordinal: end as u32,
                            buffer: assembled_prefix(old(self).chunks_map(), end),
                        })
                    }
                },
            },
    {
        if batch_size < 1 || batch_size > 200 {
            return Err(CoreError::InvalidBatchSize);
        }
        if !self.started {
            return Err(CoreError::NotStarted);
        }
        if self.initialized {
            return Err(CoreError::AlreadyComplete);
        }
        let (total, declared_size): (u32, u64) = match &self.metadata {
            Some(m) => (m.total_chunks, m.original_size),
            None => {
                proof {
                    assert(false);
                }
                return Err(CoreError::NotStarted);
            },
        };
        let next = self.next_ordinal;
        let end = if batch_size > total - next {
            total
        } else {
            next + batch_size
        };
        // Check the whole batch for availability before committing anything.
        let mut j = next;
        while j < end
            invariant
                next <= j <= end,
                first_missing(self.chunks_map(), next as int, end as int) == first_missing(
                    self.chunks_map(),
                    j as int,
                    end as int,
                ),
            decreases end - j,
        {
            if !self.chunks.contains_key(&j) {
                return Err(CoreError::MissingFragment(j));
            }
            j = j + 1;
        }
        // Append the batch in ordinal order.
        let ghost pre = *self;
        let mut j = next;
        while j < end
            invariant
                next <= j <= end,
                end <= total,
                self.chunks_map() == pre.chunks_map(),
                self.metadata == pre.metadata,
                self.started == pre.started,
                self.initialized == pre.initialized,
                self.digest == pre.digest,
                self.next_ordinal == pre.next_ordinal,
                self.buffer@ == assembled_prefix(self.chunks_map(), j as int),
                first_missing(self.chunks_map(), j as int, end as int) is None,
            decreases end - j,
        {
            let c = match self.chunks.get(&j) {
                Some(c) => c,
                None => {
                    proof {
                        assert(false);
                    }
                    return Err(CoreError::NotStarted);
                },
            };
            self.buffer.extend_from_slice(c.data.as_slice());
            proof {
                assert(self.buffer@ =~= assembled_prefix(self.chunks_map(), j + 1));
            }
            j = j + 1;
        }
        proof {
            lemma_first_missing_none(self.chunks_map(), next as int, end as int);
            assert forall|k: u32| k < end implies self.chunks_map().contains_key(k) by {
                if next <= k {
                    assert(self.chunks_map().contains_key((k as int) as u32));
                }
            }
        }
        self.next_ordinal = end;
        if end == total {
            if self.buffer.len() as u64 != declared_size {
                return Err(CoreError::SizeMismatch);
            }
            let digest = calculate_hash(self.buffer.as_slice());
            self.digest = Some(digest);
            self.initialized = true;
        }
        Ok(Progress { processed: end - next, next_ordinal: end, total_chunks: total })
    }

    /// The assembled artifact, once assembly is complete.
    pub fn get_model_data(&self) -> (r: Option<&Vec<u8>>)
        requires
            self.wf(),
        ensures
            match r {
                Some(v) => self.assembly_state() is Complete && v@ == artifact_of(
                    self.assembly_state(),
                ),
                None => !(self.assembly_state() is Complete),
            },
    {
        if self.initialized {
            Some(&self.buffer)
        } else {
            None
        }
    }

    /// Hexadecimal digest of the assembled artifact, once complete.
    pub fn get_artifact_digest(&self) -> (r: Option<&String>)
        requires
            self.wf(),
        ensures
            match r {
                Some(d) => self.assembly_state() is Complete && d@ == self.assembly_state()->digest,
                None => !(self.assembly_state() is Complete),
            },
    {
        if self.initialized {
            self.digest.as_ref()
        } else {
            None
        }
    }

    /// Whether the artifact is fully assembled.
    pub fn is_initialized(&self) -> (r: bool)
        requires
            self.wf(),
        ensures
            r == (self.assembly_state() is Complete),
    {
        self.initialized
    }

    /// Fragments consumed so far and the declared total.
    pub fn get_initialization_progress(&self) -> (r: (u32, u32))
        requires
            self.wf(),
        ensures
            r.0 == match self.assembly_state() {
                AssemblyState::NotStarted => 0u32,
                AssemblyState::InProgress { next_ordinal, .. } => next_ordinal,
                AssemblyState::Complete { .. } => r.0,
            },
            r.1 == match self.metadata_spec() {
                Some(m) => m.total_chunks,
                None => 0u32,
            },
    {
        let total = match &self.metadata {
            Some(m) => m.total_chunks,
            None => 0,
        };
        (self.next_ordinal, total)
    }

    /// Bytes accumulated in the buffer (or the finished artifact) so far.
    pub fn current_size_bytes(&self) -> (r: u64)
        requires
            self.wf(),
        ensures
            r == artifact_of(self.assembly_state()).len(),
    {
        if !self.started {
            return 0;
        }
        self.buffer.len() as u64
    }

    /// Declared total size of the artifact, or zero without a declaration.
    pub fn estimated_total_size_bytes(&self) -> (r: u64)
        ensures
            r == match self.metadata_spec() {
                Some(m) => m.original_size,
                None => 0u64,
            },
    {
        match &self.metadata {
            Some(m) => m.original_size,
            None => 0,
        }
    }

    /// Upload statistics: declared total, received count, missing ordinals,
    /// completeness, and the declared size in bytes.
    pub fn get_upload_stats(&self) -> (r: (u32, u64, Vec<u32>, bool, u64))
        requires
            self.wf(),
        ensures
            r.0 == match self.metadata_spec() {
                Some(m) => m.total_chunks,
                None => 0u32,
            },
            r.1 == self.chunks_map().len(),
            r.2@ == match self.metadata_spec() {
                Some(m) => missing_upto(self.chunks_map(), m.total_chunks as int),
                None => Seq::<u32>::empty(),
            },
            r.3 == self.upload_complete_spec(),
            r.4 == match self.metadata_spec() {
                Some(m) => m.original_size,
                None => 0u64,
            },
    {
        let total = match &self.metadata {
            Some(m) => m.total_chunks,
            None => 0,
        };
        (
            total,
            self.chunks.len() as u64,
            self.get_missing_chunks(),
            self.is_upload_complete(),
            self.estimated_total_size_bytes(),
        )
    }

    /// Snapshot of the assembly state machine.
    pub fn status(&self) -> (r: InitializationStatus)
        requires
            self.wf(),
        ensures
            r.is_initialized == (self.assembly_state() is Complete),
            r.is_streaming == (self.assembly_state() is InProgress),
            r.initialization_started == !(self.assembly_state() is NotStarted),
            self.assembly_state() matches AssemblyState::InProgress { next_ordinal, .. }
                ==> r.processed_chunks == next_ordinal,
            self.assembly_state() is NotStarted ==> r.processed_chunks == 0,
            r.current_size_bytes == artifact_of(self.assembly_state()).len(),
            r.total_chunks == match self.metadata_spec() {
                Some(m) => m.total_chunks,
                None => 0u32,
            },
            r.estimated_total_size_bytes == match self.metadata_spec() {
                Some(m) => m.original_size,
                None => 0u64,
            },
    {
        let (processed, total) = self.get_initialization_progress();
        InitializationStatus {
            is_initialized: self.initialized,
            is_streaming: self.started && !self.initialized,
            initialization_started: self.started,
            processed_chunks: processed,
            total_chunks: total,
            current_size_bytes: self.current_size_bytes(),
            estimated_total_size_bytes: self.estimated_total_size_bytes(),
        }
    }
}

/// When no ordinal in `[from, to)` is missing, every one of them is present.
pub proof fn lemma_first_missing_none(chunks: Map<u32, ModelChunk>, from: int, to: int)
    requires
        first_missing(chunks, from, to) is None,
    ensures
        forall|j: int| from <= j < to ==> chunks.contains_key(#[trigger] (j as u32)),
    decreases to - from,
{
    if from < to {
        lemma_first_missing_none(chunks, from + 1, to);
    }
}

/// Assembly determinism: the finished artifact is a function of the
/// fragments and the declaration alone. Two complete assemblies over the
/// same fragment set hold byte-identical artifacts, whatever batch sizes
/// each chose along the way.
pub proof fn lemma_assembly_deterministic(s1: ModelStorage, s2: ModelStorage)
    requires
        s1.wf(),
        s2.wf(),
        s1.chunks_map() == s2.chunks_map(),
        s1.metadata_spec() == s2.metadata_spec(),
        s1.assembly_state() is Complete,
        s2.assembly_state() is Complete,
    ensures
        artifact_of(s1.assembly_state()) == artifact_of(s2.assembly_state()),
        s1.assembly_state()->digest == s2.assembly_state()->digest,
{
}

/// Batch-size invariance along the way: two in-progress assemblies over the
/// same fragment set that have consumed the same number of fragments hold
/// byte-identical buffers, however differently their batches were cut.
pub proof fn lemma_batch_split_invariant(s1: ModelStorage, s2: ModelStorage)
    requires
        s1.wf(),
        s2.wf(),
        s1.chunks_map() == s2.chunks_map(),
        s1.assembly_state() matches AssemblyState::InProgress { next_ordinal: n1, .. },
        s2.assembly_state() matches AssemblyState::InProgress { next_ordinal: n2, .. }
            && n2 == s1.assembly_state()->next_ordinal,
    ensures
        artifact_of(s1.assembly_state()) == artifact_of(s2.assembly_state()),
{
}

/// Size invariant: the `Complete` state is reachable only with an artifact
/// whose length equals the declared total size.
pub proof fn lemma_size_invariant(s: ModelStorage)
    requires
        s.wf(),
        s.assembly_state() is Complete,
    ensures
        s.metadata_spec() is Some,
        artifact_of(s.assembly_state()).len() == s.metadata_spec()->0.original_size,
{
}

/// Idempotent re-upload: storing the same fragment twice leaves exactly the
/// fragment map that storing it once leaves, so any artifact assembled from
/// it is identical.
pub proof fn lemma_reupload_idempotent(chunks: Map<u32, ModelChunk>, c: ModelChunk, n: int)
    ensures
        chunks.insert(c.id, c).insert(c.id, c) == chunks.insert(c.id, c),
        assembled_prefix(chunks.insert(c.id, c).insert(c.id, c), n) == assembled_prefix(
            chunks.insert(c.id, c),
            n,
        ),
{
    assert(chunks.insert(c.id, c).insert(c.id, c) =~= chunks.insert(c.id, c));
}

} // verus!
