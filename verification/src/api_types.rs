//! Plain data types of the service's outer API surface.
//!
//! These carry requests, responses and bookkeeping between the core and the
//! surrounding layers. Durations and timestamps are what the surrounding
//! layers attach; the core computes none of them.

use vstd::prelude::*;

use crate::media::{DetectionResult, SocialMediaPlatform};

verus! {

/// Collected items for a batch analysis request.
#[derive(Debug, Clone)]
pub struct BatchAnalysisInput {
    /// The media payloads to analyze.
    pub media_items: Vec<crate::media::MediaInput>,
    /// Caller-chosen identifier of the batch.
    pub batch_id: Option<String>,
}

/// Outcome of a batch analysis.
#[derive(Debug, Clone)]
pub struct BatchAnalysisResult {
    /// How many items the batch held.
    pub total_items: usize,
    /// How many analyses succeeded.
    pub successful_analyses: usize,
    /// How many analyses failed.
    pub failed_analyses: usize,
    /// Per-item results, in submission order.
    pub results: Vec<DetectionResult>,
}

/// Envelope for an analysis response.
#[derive(Debug, Clone)]
pub struct ApiResponse {
    /// Whether the request was served.
    pub success: bool,
    /// The result when it was.
    pub result: Option<DetectionResult>,
    /// A message when it was not.
    pub error: Option<String>,
}

/// A caller's usage against their limits.
#[derive(Debug, Clone)]
pub struct UsageInfo {
    /// Calls made in the current window.
    pub current_usage: u32,
    /// Calls allowed per window.
    pub max_usage: u32,
    /// Whether the caller holds a subscription.
    pub is_premium: bool,
    /// Largest accepted batch for this caller.
    pub batch_limit: usize,
    /// When the window resets, in nanoseconds.
    pub resets_at: u64,
}

/// A caller's account record.
#[derive(Debug, Clone)]
pub struct UserProfile {
    /// The caller's identifier.
    pub user_id: String,
    /// The caller's tier.
    pub subscription_type: SubscriptionType,
    /// The caller's key, when one was issued.
    pub api_key: Option<String>,
    /// When the account was created, in nanoseconds.
    pub created_at: u64,
    /// When the caller was last seen, in nanoseconds.
    pub last_active: u64,
}

/// Tiers a caller can hold.
#[derive(Debug, Clone, Copy, PartialEq, Eq, Structural)]
pub enum SubscriptionType {
    Free,
    Monthly,
    Yearly,
    Developer,
}

/// An authenticated request from a developer integration.
#[derive(Debug, Clone)]
pub struct ApiRequest {
    /// The caller's key.
    pub api_key: String,
    /// What is being requested.
    pub request_type: ApiRequestType,
    /// The request payload.
    pub data: Vec<u8>,
}

/// Kinds of developer requests.
#[derive(Debug, Clone, Copy, PartialEq, Eq, Structural)]
pub enum ApiRequestType {
    SingleImage,
    SingleVideo,
    BatchAnalysis,
    SocialMediaAnalysis,
}

/// Aggregate statistics over a caller's requests.
#[derive(Debug, Clone)]
pub struct ApiUsageStats {
    /// Requests received.
    pub total_requests: u32,
    /// Requests served.
    pub successful_requests: u32,
    /// Requests refused or failed.
    pub failed_requests: u32,
    /// Mean service time attached by the host.
    pub average_response_time_ms: u64,
    /// When the last request arrived, in nanoseconds.
    pub last_request_at: u64,
}

/// Operator-tunable service limits.
#[derive(Debug, Clone)]
pub struct SystemConfig {
    /// Largest accepted payload in whole mebibytes.
    pub max_file_size_mb: u32,
    /// Longest accepted video in seconds.
    pub max_video_length_seconds: u32,
    /// Calls per window for unsubscribed callers.
    pub free_tier_limit: u32,
    /// Calls per window for subscribed callers.
    pub premium_tier_limit: u32,
    /// Largest accepted batch.
    pub batch_processing_limit: usize,
    /// Accepted file extensions.
    pub supported_formats: Vec<String>,
}

/// User-facing failure categories of the outer API.
#[derive(Debug, Clone, PartialEq, Eq)]
pub enum VeriChainError {
    /// The model artifact is not assembled or loaded.
    ModelNotInitialized,
    /// The payload's media kind is not accepted.
    UnsupportedMediaType,
    /// The payload exceeds the size limit.
    FileTooLarge,
    /// The caller exhausted their usage window.
    UsageLimitExceeded,
    /// The caller's key was not recognized.
    InvalidApiKey,
    /// The request needs a subscription.
    PremiumRequired,
    /// The core failed; carries its message.
    ProcessingFailed(String),
    /// An outside fetch failed; carries its message.
    NetworkError(String),
    /// The request was malformed; carries a message.
    InvalidInput(String),
}

/// Aggregate analysis statistics of the whole service.
#[derive(Debug, Clone)]
pub struct AnalyticsData {
    /// Analyses performed.
    pub total_analyses: u64,
    /// Analyses that flagged manipulated media.
    pub deepfake_detected: u64,
    /// Analyses that flagged authentic media.
    pub authentic_detected: u64,
    /// Mean winning-class probability, in fixed point.
    pub average_confidence: i64,
    /// Service-time statistics attached by the host.
    pub processing_time_stats: ProcessingTimeStats,
}

/// Service-time statistics attached by the host.
#[derive(Debug, Clone, Copy, PartialEq, Eq, Structural)]
pub struct ProcessingTimeStats {
    /// Fastest observed call, in milliseconds.
    pub min_ms: u64,
    /// Slowest observed call, in milliseconds.
    pub max_ms: u64,
    /// Mean call duration, in milliseconds.
    pub average_ms: u64,
}

/// Where and when to deliver event notifications.
#[derive(Debug, Clone)]
pub struct WebhookConfig {
    /// Delivery address.
    pub url: String,
    /// Shared signing secret.
    pub secret: String,
    /// Which events to deliver.
    pub events: Vec<WebhookEvent>,
}

/// Events a webhook can subscribe to.
#[derive(Debug, Clone, Copy, PartialEq, Eq, Structural)]
pub enum WebhookEvent {
    AnalysisCompleted,
    BatchCompleted,
    UsageLimitWarning,
    SubscriptionExpiring,
}

/// A caller's remaining allowance under one limit.
#[derive(Debug, Clone, Copy, PartialEq, Eq, Structural)]
pub struct RateLimitInfo {
    /// Requests left in the window.
    pub requests_remaining: u32,
    /// When the window resets, in nanoseconds.
    pub reset_time: u64,
    /// Which window the limit counts over.
    pub limit_type: RateLimitType,
}

/// Windows a rate limit can count over.
#[derive(Debug, Clone, Copy, PartialEq, Eq, Structural)]
pub enum RateLimitType {
    PerMinute,
    PerHour,
    PerDay,
    PerMonth,
}

/// Provenance details of media fetched from a social platform.
#[derive(Debug, Clone)]
pub struct SocialMediaMetadata {
    /// The platform the media came from.
    pub platform: SocialMediaPlatform,
    /// The platform's identifier of the post.
    pub post_id: Option<String>,
    /// The posting account.
    pub author: Option<String>,
    /// When the post was made, in nanoseconds.
    pub timestamp: Option<u64>,
    /// Engagement counters at fetch time.
    pub engagement_stats: Option<EngagementStats>,
}

/// Engagement counters of a social-media post.
#[derive(Debug, Clone, Copy, PartialEq, Eq, Structural)]
pub struct EngagementStats {
    pub likes: u32,
    pub shares: u32,
    pub comments: u32,
    pub views: u32,
}

/// How a caller wants to be notified.
#[derive(Debug, Clone, Copy, PartialEq, Eq, Structural)]
pub struct NotificationPreferences {
    pub email_notifications: bool,
    pub webhook_notifications: bool,
    pub usage_alerts: bool,
    pub security_alerts: bool,
}

/// Host-reported health of the service.
#[derive(Debug, Clone)]
pub struct SystemHealth {
    /// Short state description.
    pub status: String,
    /// Whether the model artifact is loaded.
    pub model_loaded: bool,
    /// Seconds since the service started.
    pub uptime_seconds: u64,
    /// Service version string.
    pub version: String,
}

/// The model's capabilities, for clients.
#[derive(Debug)]
pub struct ModelInfo {
    /// Model version string.
    pub version: String,
    /// Expected input width and height, in pixels.
    pub input_size: (u32, u32),
    /// Accepted file extensions.
    pub supported_formats: Vec<String>,
    /// Whether the model artifact is loaded.
    pub model_loaded: bool,
    /// Parameter count of the underlying network, when known.
    pub total_parameters: Option<u64>,
}

/// Acknowledgment of one fragment upload.
#[derive(Debug, Clone)]
pub struct ChunkUploadResult {
    /// Whether the fragment was stored.
    pub success: bool,
    /// The fragment's ordinal.
    pub chunk_id: u32,
    /// A human-readable note.
    pub message: String,
}

} // verus!
