//! Session management for live window and monitor capture: choosing a source,
//! driving a capture session through its lifecycle, and handing the latest
//! frame from the producer callback to a consumer.

pub mod capturer;
pub mod error;
pub mod frame_relay;
pub mod screen_enum;
pub mod setup;
pub mod window_enum;
