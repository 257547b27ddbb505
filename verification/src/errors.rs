//! Typed failure causes returned by the core.
//!
//! Every fallible operation of the library reports one of these causes and
//! leaves its receiver unchanged on failure.

use vstd::prelude::*;

verus! {

/// Named region of the artifact from which a weight tensor is derived.
#[derive(Debug, Clone, Copy, PartialEq, Eq, Structural)]
pub enum WeightSection {
    /// Region feeding the feature-extraction weight tensor.
    FeatureExtraction,
    /// Region feeding the classification weight tensor.
    Classification,
}

/// Failure cause of a core operation.
#[derive(Debug, Clone, PartialEq, Eq)]
pub enum CoreError {
    /// A fragment's digest does not match its bytes.
    IntegrityMismatch,
    /// A fragment required by assembly is absent; carries its ordinal.
    MissingFragment(u32),
    /// The assembled buffer's length differs from the declared total size.
    SizeMismatch,
    /// A batch size outside the accepted range was requested.
    InvalidBatchSize,
    /// Assembly was already begun.
    AlreadyInProgress,
    /// Assembly already produced the artifact.
    AlreadyComplete,
    /// Assembly has not begun.
    NotStarted,
    /// A fragment ordinal lies outside the declared fragment range.
    InvalidOrdinal(u32),
    /// A weight region yielded too few valid values; carries the region.
    InsufficientWeights(WeightSection),
    /// A graph node names a tensor that is not available; carries the name.
    UnknownTensor(String),
    /// A graph node's operation name denotes no supported operation;
    /// carries that name.
    UnsupportedOperation(String),
    /// Tensor lengths do not agree where an operation needs them to.
    ShapeMismatch,
    /// The model artifact is not loaded or declared yet.
    ModelNotReady,
}

/// Mathematical image of a [`CoreError`]: string payloads become
/// character sequences so contracts can speak about them.
pub ghost enum ErrorView {
    IntegrityMismatch,
    MissingFragment(u32),
    SizeMismatch,
    InvalidBatchSize,
    AlreadyInProgress,
    AlreadyComplete,
    NotStarted,
    InvalidOrdinal(u32),
    InsufficientWeights(WeightSection),
    UnknownTensor(Seq<char>),
    UnsupportedOperation(Seq<char>),
    ShapeMismatch,
    ModelNotReady,
}

impl View for CoreError {
    type V = ErrorView;

    open spec fn view(&self) -> ErrorView {
        match self {
            CoreError::IntegrityMismatch => ErrorView::IntegrityMismatch,
            CoreError::MissingFragment(n) => ErrorView::MissingFragment(*n),
            CoreError::SizeMismatch => ErrorView::SizeMismatch,
            CoreError::InvalidBatchSize => ErrorView::InvalidBatchSize,
            CoreError::AlreadyInProgress => ErrorView::AlreadyInProgress,
            CoreError::AlreadyComplete => ErrorView::AlreadyComplete,
            CoreError::NotStarted => ErrorView::NotStarted,
            CoreError::InvalidOrdinal(n) => ErrorView::InvalidOrdinal(*n),
            CoreError::InsufficientWeights(s) => ErrorView::InsufficientWeights(*s),
            CoreError::UnknownTensor(name) => ErrorView::UnknownTensor(name@),
            CoreError::UnsupportedOperation(name) => ErrorView::UnsupportedOperation(name@),
            CoreError::ShapeMismatch => ErrorView::ShapeMismatch,
            CoreError::ModelNotReady => ErrorView::ModelNotReady,
        }
    }
}

/// Result type used throughout the core.
pub type VeriChainResult<T> = Result<T, CoreError>;

} // verus!
