//! Records as the storage sink keeps them.

pub mod database;
pub mod metrics;
pub mod session;

pub use metrics::{MetricType, StoredMetric, StoredNetworkRequest};
pub use session::{Session, SessionStatus};
