//! Verified core of a single-window screen grabber.
//!
//! The library holds the decision logic of a capture pipeline: choosing a
//! target window from an enumerated list, deriving the capture-stream
//! configuration from its geometry, the per-frame sampling and publishing
//! policy, and the session state machine that sequences the asynchronous
//! platform calls. The platform adapter performs the actual calls and feeds
//! their outcomes back in as plain values.

pub mod config;
pub mod delegate;
pub mod errors;
pub mod session;
pub mod slot;
pub mod window;

pub use config::PIXEL_FORMAT_32BGRA;
pub use config::RectHp;
pub use config::StreamConfig;
pub use config::WindowGeometry;
pub use config::configure;
pub use delegate::BufferKind;
pub use delegate::DelegateState;
pub use delegate::FrameDropReason;
pub use delegate::FrameOutcome;
pub use delegate::SAMPLE_INTERVAL;
pub use errors::SessionError;
pub use session::AttachRequest;
pub use session::Grabber;
pub use session::SessionAction;
pub use session::SessionEvent;
pub use session::SessionPhase;
pub use session::title_pattern;
pub use slot::FrameSlot;
pub use window::CandidateWindow;
pub use window::SelectedWindow;
pub use window::select;
pub use window::str_contains;
