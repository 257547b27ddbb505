//! Durable canister state as an explicitly owned context object.
//!
//! [`CanisterState`] models what the host persists across calls: the mirror
//! of uploaded fragments keyed by ordinal, the stored declaration, and the
//! usage and subscription books. The caller owns one instance and passes it
//! into each call; there is no hidden global.

use vstd::prelude::*;

use crate::chunks::ModelChunk;
use crate::errors::CoreError;
use crate::text::str_eq;
use vstd::hash_map::HashMapWithView;

verus! {

broadcast use vstd::std_specs::hash::group_hash_axioms;

/// Declaration of the fragment set as persisted durably, together with the
/// ordinals acknowledged so far.
#[derive(Debug, Clone)]
pub struct StoredModelMetadata {
    /// Name of the source file the artifact was cut from.
    pub original_file: String,
    /// Declared total size of the artifact in bytes.
    pub original_size: u64,
    /// Declared number of fragments.
    pub total_chunks: u32,
    /// Size of a fragment in whole mebibytes.
    pub chunk_size_mb: u32,
    /// Ordinals of fragments acknowledged so far.
    pub uploaded_chunks: Vec<u32>,
}

/// One caller's usage within the current accounting window.
#[derive(Debug, Clone, Copy, PartialEq, Eq, Structural)]
pub struct UserUsage {
    /// Calls made in the window.
    pub count: u32,
    /// When the window began, in nanoseconds.
    pub last_reset: u64,
}

/// A paid subscription.
#[derive(Debug, Clone, Copy)]
pub struct PremiumSubscription {
    /// Whether the subscription is in force.
    pub active: bool,
    /// When it lapses, in nanoseconds.
    pub expires_at: u64,
    /// Which plan was bought.
    pub plan: SubscriptionPlan,
}

/// The plans a subscription can be bought under.
#[derive(Debug, Clone, Copy, PartialEq, Eq, Structural)]
pub enum SubscriptionPlan {
    Monthly,
    Yearly,
    Developer,
}

/// The entry most recently stored under `name` in an association list.
pub open spec fn assoc_lookup<V>(s: Seq<(String, V)>, name: Seq<char>) -> Option<V>
    decreases s.len(),
{
    if s.len() == 0 {
        None
    } else if s.last().0@ == name {
        Some(s.last().1)
    } else {
        assoc_lookup(s.drop_last(), name)
    }
}

/// Whether position `k` of `v` holds a copy of the fragment `m` keeps
/// under ordinal `k`.
pub open spec fn chunk_copy_ok(m: Map<u32, ModelChunk>, v: Seq<ModelChunk>, k: int) -> bool {
    &&& m.contains_key(k as u32)
    &&& v[k].id == m[k as u32].id
    &&& v[k].data@ == m[k as u32].data@
    &&& v[k].hash == m[k as u32].hash
}

/// Whether `v` lists, in ordinal order, copies of the fragments that `m`
/// holds under the ordinals `0, 1, ..., v.len() - 1`.
pub open spec fn chunks_prefix_ok(m: Map<u32, ModelChunk>, v: Seq<ModelChunk>) -> bool {
    forall|k: int| 0 <= k < v.len() ==> #[trigger] chunk_copy_ok(m, v, k)
}

/// Appending a copy of the next ordinal's fragment extends a correct
/// prefix listing by one.
proof fn lemma_chunks_prefix_push(m: Map<u32, ModelChunk>, pre: Seq<ModelChunk>, d: ModelChunk)
    requires
        chunks_prefix_ok(m, pre),
        pre.len() < 0x100000000,
        m.contains_key(pre.len() as u32),
        d.id == m[pre.len() as u32].id,
        d.data@ == m[pre.len() as u32].data@,
        d.hash == m[pre.len() as u32].hash,
    ensures
        chunks_prefix_ok(m, pre.push(d)),
{
    assert forall|k: int| 0 <= k < pre.push(d).len() implies #[trigger] chunk_copy_ok(
        m,
        pre.push(d),
        k,
    ) by {
        if k < pre.len() {
            assert(pre.push(d)[k] == pre[k]);
            assert(chunk_copy_ok(m, pre, k));
        } else {
            assert(pre.push(d)[k] == d);
        }
    }
}

/// Durable state: fragment mirror, declaration, and accounting books.
pub struct CanisterState {
    chunks: HashMapWithView<u32, ModelChunk>,
    metadata: Option<StoredModelMetadata>,
    usage: Vec<(String, UserUsage)>,
    premium: Vec<(String, PremiumSubscription)>,
}

impl CanisterState {
    /// The persisted fragments, keyed by ordinal.
    pub closed spec fn chunks_map(&self) -> Map<u32, ModelChunk> {
        self.chunks@
    }

    /// The persisted declaration, if any.
    pub closed spec fn metadata_spec(&self) -> Option<StoredModelMetadata> {
        self.metadata
    }

    /// The usage book, in insertion order.
    pub closed spec fn usage_book(&self) -> Seq<(String, UserUsage)> {
        self.usage@
    }

    /// The subscription book, in insertion order.
    pub closed spec fn premium_book(&self) -> Seq<(String, PremiumSubscription)> {
        self.premium@
    }

    /// Creates fresh, empty state.
    pub fn initialize_canister() -> (r: Self)
        ensures
            r.chunks_map() == Map::<u32, ModelChunk>::empty(),
            r.metadata_spec() is None,
            r.usage_book() == Seq::<(String, UserUsage)>::empty(),
            r.premium_book() == Seq::<(String, PremiumSubscription)>::empty(),
    {
        CanisterState {
            chunks: HashMapWithView::new(),
            metadata: None,
            usage: Vec::new(),
            premium: Vec::new(),
        }
    }

    /// Persists one fragment under its ordinal, overwriting any earlier
    /// fragment there.
    pub fn store_model_chunk(&mut self, chunk: ModelChunk) -> (r: Result<(), CoreError>)
        ensures
            r is Ok,
            final(self).chunks_map() == old(self).chunks_map().insert(chunk.id, chunk),
            final(self).metadata_spec() == old(self).metadata_spec(),
            final(self).usage_book() == old(self).usage_book(),
            final(self).premium_book() == old(self).premium_book(),
    {
        let id = chunk.id;
        self.chunks.insert(id, chunk);
        Ok(())
    }

    /// The persisted fragment under `chunk_id`, if any.
    pub fn get_model_chunk(&self, chunk_id: u32) -> (r: Option<&ModelChunk>)
        ensures
            match r {
                Some(c) => self.chunks_map().contains_key(chunk_id) && *c == self.chunks_map()[
                    chunk_id],
                None => !self.chunks_map().contains_key(chunk_id),
            },
    {
        self.chunks.get(&chunk_id)
    }

    /// Replaces the persisted declaration.
    pub fn store_model_metadata(&mut self, metadata: StoredModelMetadata)
        ensures
            final(self).metadata_spec() == Some(metadata),
            final(self).chunks_map() == old(self).chunks_map(),
            final(self).usage_book() == old(self).usage_book(),
            final(self).premium_book() == old(self).premium_book(),
    {
        self.metadata = Some(metadata);
    }

    /// The persisted declaration, if any.
    pub fn get_model_metadata(&self) -> (r: Option<&StoredModelMetadata>)
        ensures
            match r {
                Some(m) => self.metadata_spec() == Some(*m),
                None => self.metadata_spec() is None,
            },
    {
        self.metadata.as_ref()
    }

    /// Whether as many ordinals were acknowledged as the declaration
    /// promises fragments; false without a declaration.
    pub fn are_all_chunks_uploaded(&self) -> (r: bool)
        ensures
            r == match self.metadata_spec() {
                Some(m) => m.uploaded_chunks@.len() == m.total_chunks,
                None => false,
            },
    {
        match &self.metadata {
            Some(m) => m.uploaded_chunks.len() == m.total_chunks as usize,
            None => false,
        }
    }

    /// Every declared fragment in ordinal order, or the first missing
    /// ordinal; fails with [`CoreError::ModelNotReady`] without a
    /// declaration.
    #[verifier::loop_isolation(false)]
    pub fn get_all_model_chunks(&self) -> (r: Result<Vec<ModelChunk>, CoreError>)
        ensures
            match r {
                Ok(v) => {
                    &&& self.metadata_spec() matches Some(m)
                    &&& v@.len() == self.metadata_spec()->0.total_chunks
                    &&& chunks_prefix_ok(self.chunks_map(), v@)
                },
                Err(e) => match self.metadata_spec() {
                    None => e == CoreError::ModelNotReady,
                    Some(m) => e matches CoreError::MissingFragment(j) && j < m.total_chunks
                        && !self.chunks_map().contains_key(j),
                },
            },
    {
        let total: u32 = match &self.metadata {
            Some(m) => m.total_chunks,
            None => {
                return Err(CoreError::ModelNotReady);
            },
        };
        let mut out: Vec<ModelChunk> = Vec::new();
        let mut j: u32 = 0;
        while j < total
            invariant
                j <= total,
                out@.len() == j,
                chunks_prefix_ok(self.chunks_map(), out@),
            decreases total - j,
        {
            let c = match self.chunks.get(&j) {
                Some(c) => c,
                None => {
                    return Err(CoreError::MissingFragment(j));
                },
            };
            let d = c.duplicate();
            let ghost pre = out@;
            out.push(d);
            proof {
                lemma_chunks_prefix_push(self.chunks_map(), pre, d);
                assert(out@ =~= pre.push(d));
            }
            j = j + 1;
        }
        Ok(out)
    }

    /// The usage most recently recorded for `user_id`.
    pub fn get_usage(&self, user_id: &str) -> (r: Option<UserUsage>)
        ensures
            r == assoc_lookup(self.usage_book(), user_id@),
    {
        let mut i: usize = self.usage.len();
        proof {
            assert(self.usage_book().take(i as int) =~= self.usage_book());
        }
        while i > 0
            invariant
                i <= self.usage_book().len(),
                assoc_lookup(self.usage_book(), user_id@) == assoc_lookup(
                    self.usage_book().take(i as int),
                    user_id@,
                ),
            decreases i,
        {
            i = i - 1;
            proof {
                assert(self.usage_book().take(i + 1).drop_last() =~= self.usage_book().take(
                    i as int,
                ));
                assert(self.usage_book().take(i + 1).last() == self.usage_book()[i as int]);
            }
            if str_eq(self.usage[i].0.as_str(), user_id) {
                return Some(self.usage[i].1);
            }
        }
        None
    }

    /// Records a caller's usage; the newest record wins.
    pub fn update_usage(&mut self, user_id: String, usage: UserUsage)
        ensures
            final(self).usage_book() == old(self).usage_book().push((user_id, usage)),
            final(self).chunks_map() == old(self).chunks_map(),
            final(self).metadata_spec() == old(self).metadata_spec(),
            final(self).premium_book() == old(self).premium_book(),
    {
        self.usage.push((user_id, usage));
    }

    /// Records a caller's subscription; the newest record wins.
    pub fn add_premium_user(&mut self, user_id: String, subscription: PremiumSubscription)
        ensures
            final(self).premium_book() == old(self).premium_book().push((user_id, subscription)),
            final(self).chunks_map() == old(self).chunks_map(),
            final(self).metadata_spec() == old(self).metadata_spec(),
            final(self).usage_book() == old(self).usage_book(),
    {
        self.premium.push((user_id, subscription));
    }

    /// Whether the caller's most recent subscription is active and unexpired
    /// at `now`.
    pub fn is_premium_user(&self, user_id: &str, now: u64) -> (r: bool)
        ensures
            r == match assoc_lookup(self.premium_book(), user_id@) {
                Some(sub) => sub.active && sub.expires_at > now,
                None => false,
            },
    {
        let mut i: usize = self.premium.len();
        proof {
            assert(self.premium_book().take(i as int) =~= self.premium_book());
        }
        while i > 0
            invariant
                i <= self.premium_book().len(),
                assoc_lookup(self.premium_book(), user_id@) == assoc_lookup(
                    self.premium_book().take(i as int),
                    user_id@,
                ),
            decreases i,
        {
            i = i - 1;
            proof {
                assert(self.premium_book().take(i + 1).drop_last() =~= self.premium_book().take(
                    i as int,
                ));
                assert(self.premium_book().take(i + 1).last() == self.premium_book()[i as int]);
            }
            if str_eq(self.premium[i].0.as_str(), user_id) {
                return self.premium[i].1.active && self.premium[i].1.expires_at > now;
            }
        }
        false
    }
}

} // verus!
