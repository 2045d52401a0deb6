//! The debugging connection and the telemetry derived from it.

pub mod client;
pub mod correlation;
pub mod metrics;
pub mod types;

pub use client::{CdpClient, CdpError, CdpEvent};
pub use metrics::{MetricsCollector, MetricsEvent, TrackedRequest};
pub use types::{
    CdpTarget, ConnectionState, MetricsSnapshot, NetworkRequestInfo, NetworkResponseInfo,
    PerformanceMetrics,
};
