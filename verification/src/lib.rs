//! Core library for a chunked-artifact ingestion and inference service.
//!
//! A large binary artifact arrives as integrity-checked fragments, is
//! reassembled in bounded batches by a resumable state machine, and the
//! resulting artifact feeds a small dataflow-graph engine that computes a
//! three-way classification over fixed-point tensors.

pub mod api_types;
pub mod chunks;
pub mod engine;
pub mod errors;
pub mod graph_check;
pub mod handlers;
pub mod hash;
pub mod media;
pub mod model;
pub mod onnx;
pub mod perf;
pub mod prediction;
pub mod state;
pub mod storage;
pub mod tensor;
pub mod text;
pub mod validation;
pub mod weights;

pub use api_types::{
    AnalyticsData, ApiRequest, ApiRequestType, ApiResponse, ApiUsageStats, BatchAnalysisInput,
    BatchAnalysisResult, ChunkUploadResult, EngagementStats, ModelInfo, NotificationPreferences,
    ProcessingTimeStats, RateLimitInfo, RateLimitType, SocialMediaMetadata, SubscriptionType,
    SystemConfig, SystemHealth, UsageInfo, UserProfile, VeriChainError, WebhookConfig,
    WebhookEvent,
};
pub use chunks::{ChunkInfo, ModelChunk, ModelMetadata};
pub use engine::InferenceEngine;
pub use errors::{CoreError, ErrorView, VeriChainResult, WeightSection};
pub use graph_check::{spec_graph_wf, vec_names};
pub use handlers::{handle_get_supported_formats, handle_validate_image_format};
pub use hash::{calculate_hash, sha256_hex_of, verify_chunk_integrity};
pub use media::{
    aggregate_frames, get_model_input_shape, validate_file_format, validate_social_media_url, DetectionResult,
    FrameResult, MediaExtractionResult, MediaInput, MediaProcessor, MediaType, SocialMediaInput,
    SocialMediaParser, SocialMediaPlatform,
};
pub use model::VeriChainModel;
pub use onnx::{ONNXNode, ONNXOperation, TensorTable, VeriChainONNXModel};
pub use perf::PerformanceMonitor;
pub use prediction::{normalize_scores, PredictionLabel, PredictionResult, RawScores};
pub use state::{
    CanisterState, PremiumSubscription, StoredModelMetadata, SubscriptionPlan, UserUsage,
};
pub use storage::{AssemblyState, InitializationStatus, ModelStorage, Progress, UploadStatus};
pub use validation::{
    calculate_optimal_batch_size, calculate_optimal_chunk_size, is_supported_format,
    validate_batch_size, validate_chunk_id, validate_image_data, ImageValidationError,
};
pub use weights::{decode_weight, derive_section_weights, extract_weights};
