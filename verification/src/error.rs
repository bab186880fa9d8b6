//! Failures of a capture session, each carrying the platform status code
//! that caused it.

use vstd::prelude::*;

verus! {

/// Why a session could not be built, or what went wrong inside the
/// frame-arrived callback.
#[derive(Clone, Copy, Debug, PartialEq, Eq, Structural)]
pub enum CaptureError {
    /// No hardware device with the required feature level, or it could not
    /// be adapted for the capture subsystem. Fatal for the session.
    DeviceCreationFailed(i32),
    /// The chosen source could not be turned into a capture item, or its
    /// size could not be read. Another source may still work.
    SourceResolutionFailed(i32),
    /// The frame pool could not be allocated at construction.
    PoolCreationFailed(i32),
    /// The capture session object could not be created on the pool.
    SessionCreationFailed(i32),
    /// The frame-arrived callback could not be registered.
    SubscriptionFailed(i32),
    /// The frame pool could not be recreated after a size change. Capture
    /// goes on with the stale pool.
    PoolRecreationFailed(i32),
    /// A callback found no surface to read. Nothing is published for it.
    FrameAcquisitionFailed(i32),
    /// Construction was abandoned before its last step had succeeded.
    SetupIncomplete,
}

impl CaptureError {
    /// The platform status code behind the error, where there is one.
    pub fn code(&self) -> (code: Option<i32>)
        ensures
            code == match *self {
                CaptureError::DeviceCreationFailed(c) => Some(c),
                CaptureError::SourceResolutionFailed(c) => Some(c),
                CaptureError::PoolCreationFailed(c) => Some(c),
                CaptureError::SessionCreationFailed(c) => Some(c),
                CaptureError::SubscriptionFailed(c) => Some(c),
                CaptureError::PoolRecreationFailed(c) => Some(c),
                CaptureError::FrameAcquisitionFailed(c) => Some(c),
                CaptureError::SetupIncomplete => None,
            },
    {
        match *self {
            CaptureError::DeviceCreationFailed(c) => Some(c),
            CaptureError::SourceResolutionFailed(c) => Some(c),
            CaptureError::PoolCreationFailed(c) => Some(c),
            CaptureError::SessionCreationFailed(c) => Some(c),
            CaptureError::SubscriptionFailed(c) => Some(c),
            CaptureError::PoolRecreationFailed(c) => Some(c),
            CaptureError::FrameAcquisitionFailed(c) => Some(c),
            CaptureError::SetupIncomplete => None,
        }
    }
}

/// The outcome of a teardown in which at least one step failed. Every step
/// was still attempted; each field holds the status code of a step that
/// failed.
#[derive(Clone, Copy, Debug, PartialEq, Eq, Structural)]
pub struct StopError {
    pub unsubscribe: Option<i32>,
    pub close_pool: Option<i32>,
    pub close_session: Option<i32>,
}

} // verus!
