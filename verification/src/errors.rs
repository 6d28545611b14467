//! The error taxonomy of a capture session.

use vstd::prelude::*;

verus! {

/// Errors that end a capture session.
#[derive(Clone, Copy, PartialEq, Eq, Structural, Debug)]
pub enum SessionError {
    /// The platform failed to enumerate shareable windows.
    Enumeration,
    /// No window with an owning application was available to select.
    NoCandidates,
    /// The selected window's size is zero or negative.
    InvalidGeometry,
    /// The platform rejected attaching the frame-delivery sink.
    Attach,
    /// The platform reported an error from starting the capture.
    StartCapture,
    /// The first lock of a frame's pixel buffer failed: the stream is corrupt.
    FatalFrameLock,
}

} // verus!
