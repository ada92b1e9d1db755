//! Health and readiness outcomes, and the HTTP status each maps to.

use vstd::prelude::*;

verus! {

/// Health check result.
#[derive(Debug, Clone, PartialEq, Eq)]
pub enum HealthStatus {
    /// The service is healthy.
    Healthy,
    /// The service is unhealthy, with an optional reason.
    Unhealthy(Option<String>),
}

impl HealthStatus {
    /// True for `Healthy`.
    pub fn is_healthy(&self) -> (r: bool)
        ensures
            r == (*self is Healthy),
    {
        match self {
            HealthStatus::Healthy => true,
            HealthStatus::Unhealthy(_) => false,
        }
    }

    /// 200 for `Healthy`, 503 otherwise.
    pub fn status_code(&self) -> (r: u16)
        ensures
            r == (if *self is Healthy { 200u16 } else { 503u16 }),
    {
        match self {
            HealthStatus::Healthy => 200,
            HealthStatus::Unhealthy(_) => 503,
        }
    }
}

/// Readiness check result.
#[derive(Debug, Clone, PartialEq, Eq)]
pub enum ReadinessStatus {
    /// The service is ready to receive traffic.
    Ready,
    /// The service is not ready, with an optional reason.
    NotReady(Option<String>),
}

impl ReadinessStatus {
    /// True for `Ready`.
    pub fn is_ready(&self) -> (r: bool)
        ensures
            r == (*self is Ready),
    {
        match self {
            ReadinessStatus::Ready => true,
            ReadinessStatus::NotReady(_) => false,
        }
    }

    /// 200 for `Ready`, 503 otherwise.
    pub fn status_code(&self) -> (r: u16)
        ensures
            r == (if *self is Ready { 200u16 } else { 503u16 }),
    {
        match self {
            ReadinessStatus::Ready => 200,
            ReadinessStatus::NotReady(_) => 503,
        }
    }
}

/// The default health check: always healthy.
pub fn default_health_check() -> (r: HealthStatus)
    ensures
        r is Healthy,
{
    HealthStatus::Healthy
}

/// The default readiness check: always ready.
pub fn default_readiness_check() -> (r: ReadinessStatus)
    ensures
        r is Ready,
{
    ReadinessStatus::Ready
}

} // verus!
