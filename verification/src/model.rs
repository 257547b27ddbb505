//! The artifact registry and the full prediction pipeline.
//!
//! [`VeriChainModel`] holds the assembled artifact with its digest and a
//! ready flag, and runs the whole classification pipeline: derive the
//! standard graph's weights from the artifact, execute the graph on the
//! input tensor, and reduce the probabilities to a [`PredictionResult`].
//! The pipeline is a pure function of the artifact bytes and the input.

use vstd::prelude::*;

use crate::engine::{spec_run_graph, InferenceEngine};
use crate::errors::{CoreError, ErrorView, WeightSection};
use crate::hash::{calculate_hash, sha256_hex_of};
use crate::onnx::{spec_standard_nodes, spec_standard_weights, VeriChainONNXModel};
use crate::prediction::{
    spec_clamp, PredictionLabel, PredictionResult, RawScores, CONFIDENCE_MAX, CONFIDENCE_MIN,
    SCORE_MAX, SCORE_MIN,
};
use crate::weights::spec_derive_section;
use vstd::string::StringExecFns;

verus! {

/// Smallest artifact accepted as a loadable model, in bytes.
pub const MIN_MODEL_SIZE: usize = 300_000_000;

/// Largest artifact accepted as a loadable model, in bytes.
pub const MAX_MODEL_SIZE: usize = 400_000_000;

/// What the whole pipeline computes for a loaded artifact and an input
/// tensor: the three normalized class probabilities of the standard model's
/// graph, or the typed cause of failure.
pub open spec fn spec_predict(artifact: Seq<u8>, input: Seq<i64>) -> Result<Seq<i64>, ErrorView> {
    if spec_derive_section(artifact, WeightSection::FeatureExtraction) is None {
        Err(ErrorView::InsufficientWeights(WeightSection::FeatureExtraction))
    } else if spec_derive_section(artifact, WeightSection::Classification) is None {
        Err(ErrorView::InsufficientWeights(WeightSection::Classification))
    } else {
        spec_run_graph(spec_standard_weights(artifact), spec_standard_nodes(), input)
    }
}

/// Registry of the assembled artifact, plus the prediction entry point.
pub struct VeriChainModel {
    model_data: Option<Vec<u8>>,
    model_loaded: bool,
    model_hash: Option<String>,
    total_parameters: u64,
}

impl VeriChainModel {
    /// The artifact, if loaded.
    pub closed spec fn data_spec(&self) -> Option<Seq<u8>> {
        match self.model_data {
            Some(d) => Some(d@),
            None => None,
        }
    }

    /// Whether an artifact is loaded.
    pub closed spec fn loaded_spec(&self) -> bool {
        self.model_loaded
    }

    /// The artifact's digest, if loaded.
    pub closed spec fn hash_spec(&self) -> Option<Seq<char>> {
        match self.model_hash {
            Some(h) => Some(h@),
            None => None,
        }
    }

    /// A loaded model holds an artifact in the accepted size range together
    /// with its digest; an unloaded one holds neither.
    pub open spec fn wf(&self) -> bool {
        if self.loaded_spec() {
            &&& self.data_spec() matches Some(d)
            &&& MIN_MODEL_SIZE <= self.data_spec()->0.len() <= MAX_MODEL_SIZE
            &&& self.hash_spec() == Some(sha256_hex_of(self.data_spec()->0))
        } else {
            self.data_spec() is None && self.hash_spec() is None
        }
    }

    /// Creates an unloaded registry.
    pub fn new() -> (r: Result<Self, CoreError>)
        ensures
            r matches Ok(m) && m.wf() && !m.loaded_spec(),
    {
        Ok(
            Self {
                model_data: None,
                model_loaded: false,
                model_hash: None,
                total_parameters: 85_800_000,
            },
        )
    }

    /// Loads the assembled artifact. Accepts only an artifact within the
    /// expected size range; on success the registry holds the bytes and
    /// their digest and reports ready.
    pub fn load_from_bytes(&mut self, model_data: &[u8]) -> (r: Result<(), CoreError>)
        requires
            old(self).wf(),
        ensures
            final(self).wf(),
            r is Ok <==> MIN_MODEL_SIZE <= model_data@.len() <= MAX_MODEL_SIZE,
            r is Ok ==> final(self).loaded_spec() && final(self).data_spec() == Some(model_data@)
                && final(self).hash_spec() == Some(sha256_hex_of(model_data@)),
            r matches Err(e) ==> e == CoreError::SizeMismatch && *final(self) == *old(self),
    {
        if model_data.len() < MIN_MODEL_SIZE || model_data.len() > MAX_MODEL_SIZE {
            return Err(CoreError::SizeMismatch);
        }
        let hash = calculate_hash(model_data);
        self.model_data = Some(slice_to_vec_u8(model_data));
        self.model_hash = Some(hash);
        self.model_loaded = true;
        Ok(())
    }

    /// Runs the whole pipeline on a preprocessed input tensor: derive the
    /// standard graph from the artifact, execute it, clamp the
    /// probabilities, and pick the winning label. The outcome is exactly
    /// [`spec_predict`] of the artifact and the input.
    pub fn predict(&self, processed: &Vec<i64>) -> (r: Result<PredictionResult, CoreError>)
        requires
            self.wf(),
        ensures
            !self.loaded_spec() ==> (r matches Err(e) && e == CoreError::ModelNotReady),
            self.loaded_spec() ==> match spec_predict(self.data_spec()->0, processed@) {
                Ok(p) => r matches Ok(pr) && {
                    let s = RawScores {
                        real: spec_clamp(p[0], SCORE_MIN, SCORE_MAX),
                        ai_generated: spec_clamp(p[1], SCORE_MIN, SCORE_MAX),
                        deepfake: spec_clamp(p[2], SCORE_MIN, SCORE_MAX),
                    };
                    let win = (if s.ai_generated >= s.deepfake && s.ai_generated >= s.real {
                        (s.ai_generated, PredictionLabel::AIGenerated)
                    } else if s.deepfake >= s.real {
                        (s.deepfake, PredictionLabel::Deepfake)
                    } else {
                        (s.real, PredictionLabel::Real)
                    });
                    &&& pr.raw_scores == s
                    &&& pr.label == win.1
                    &&& pr.confidence == spec_clamp(win.0, CONFIDENCE_MIN, CONFIDENCE_MAX)
                },
                Err(ev) => r matches Err(e) && e@ == ev,
            },
    {
        if !self.model_loaded {
            return Err(CoreError::ModelNotReady);
        }
        let data = match &self.model_data {
            Some(d) => d,
            None => {
                proof {
                    assert(false);
                }
                return Err(CoreError::ModelNotReady);
            },
        };
        let model = match VeriChainONNXModel::from_artifact(data.as_slice()) {
            Ok(m) => m,
            Err(e) => {
                return Err(e);
            },
        };
        let mut engine = InferenceEngine::new();
        let p = match engine.run_graph(&model, processed.clone()) {
            Ok(p) => p,
            Err(e) => {
                return Err(e);
            },
        };
        let scores = RawScores::new(p[0], p[1], p[2]);
        Ok(PredictionResult::new(scores))
    }

    /// Whether an artifact is loaded and ready for prediction.
    pub fn is_loaded(&self) -> (r: bool)
        ensures
            r == self.loaded_spec(),
    {
        self.model_loaded
    }

    /// The expected input layout: channels, height, width.
    pub fn get_input_shape(&self) -> (r: (u32, u32, u32))
        ensures
            r == (3u32, 224u32, 224u32),
    {
        (3, 224, 224)
    }

    /// The image container formats the pipeline accepts.
    pub fn get_supported_formats(&self) -> (r: Vec<String>)
        ensures
            r@.len() == 3,
            r@[0]@ == "PNG"@,
            r@[1]@ == "JPEG"@,
            r@[2]@ == "JPG"@,
    {
        let mut v: Vec<String> = Vec::new();
        v.push(String::from_str("PNG"));
        v.push(String::from_str("JPEG"));
        v.push(String::from_str("JPG"));
        v
    }

    /// A copy of the loaded artifact, if any.
    pub fn get_model_data(&self) -> (r: Option<Vec<u8>>)
        ensures
            match r {
                Some(d) => self.data_spec() == Some(d@),
                None => self.data_spec() is None,
            },
    {
        match &self.model_data {
            Some(d) => Some(d.clone()),
            None => None,
        }
    }

    /// The loaded artifact's hexadecimal digest, if any.
    pub fn get_model_hash(&self) -> (r: Option<String>)
        ensures
            match r {
                Some(h) => self.hash_spec() == Some(h@),
                None => self.hash_spec() is None,
            },
    {
        match &self.model_hash {
            Some(h) => Some(h.clone()),
            None => None,
        }
    }

    /// Recomputes the loaded artifact's digest and checks it against the
    /// stored one; a loaded registry always passes, because the digest is
    /// recorded at load time from the same bytes.
    pub fn verify_model_integrity(&self) -> (r: Result<bool, CoreError>)
        requires
            self.wf(),
        ensures
            r is Ok <==> self.loaded_spec(),
            r matches Ok(b) ==> b,
            r matches Err(e) ==> e == CoreError::ModelNotReady,
    {
        let data = match &self.model_data {
            Some(d) => d,
            None => {
                return Err(CoreError::ModelNotReady);
            },
        };
        let hash = match &self.model_hash {
            Some(h) => h,
            None => {
                proof {
                    assert(false);
                }
                return Err(CoreError::ModelNotReady);
            },
        };
        Ok(crate::hash::verify_chunk_integrity(data.as_slice(), hash.as_str()))
    }

    /// Drops the artifact and its digest; the registry reports not ready.
    pub fn unload(&mut self)
        ensures
            final(self).wf(),
            !final(self).loaded_spec(),
            final(self).data_spec() is None,
            final(self).hash_spec() is None,
    {
        self.model_data = None;
        self.model_loaded = false;
        self.model_hash = None;
    }
}

/// Copies a byte slice into an owned vector.
fn slice_to_vec_u8(data: &[u8]) -> (r: Vec<u8>)
    ensures
        r@ == data@,
{
    vstd::slice::slice_to_vec(data)
}

} // verus!
