//! The session controller: sequencing enumeration, selection, configuration,
//! attach and start.
//!
//! Every asynchronous platform call is represented as an action the session
//! hands to its adapter, and every completion as an event the adapter feeds
//! back. The controller itself is a state machine over plain values: it
//! decides, the adapter performs. Setup errors are terminal — a failed
//! session ignores all further events and never asks for another action.

use vstd::prelude::*;
use vstd::string::StringExecFns;

use crate::config::StreamConfig;
use crate::config::configure;
use crate::config::geometry_valid;
use crate::config::stream_config_spec;
use crate::delegate::BufferKind;
use crate::delegate::DelegateState;
use crate::delegate::FrameDropReason;
use crate::delegate::FrameOutcome;
use crate::delegate::frame_transition;
use crate::errors::SessionError;
use crate::slot::FrameSlot;
use crate::window::CandidateWindow;
use crate::window::select;
use crate::window::sel_idx;

verus! {

/// Offset added to the session's instance id to form the delegate's tag,
/// keeping delegate tags disjoint from session instance ids.
pub const DELEGATE_TAG_OFFSET: u32 = 100;

/// Where the session stands in its setup sequence.
#[derive(Debug, Clone, Copy, PartialEq, Eq, Structural)]
pub enum SessionPhase {
    /// Nothing requested yet.
    Idle,
    /// Window enumeration requested; its completion is awaited.
    AwaitingWindows,
    /// A window was selected and configured; the attach outcome is awaited.
    AwaitingAttach,
    /// The delegate is attached; the start-capture outcome is awaited.
    AwaitingStart,
    /// Capture runs; frames arrive through the delegate.
    Capturing,
    /// Teardown was requested; the stop completion is awaited and in-flight
    /// frames are discarded.
    Stopping,
    /// Teardown finished; the session is over.
    Stopped,
    /// The session ended with a terminal error and ignores further events.
    Failed(SessionError),
}

/// A completion the platform adapter reports back to the session.
#[derive(Debug, PartialEq)]
pub enum SessionEvent {
    /// Window enumeration failed.
    WindowsFailed,
    /// Window enumeration finished with this list.
    WindowsReady(Vec<CandidateWindow>),
    /// Attaching the delegate as the stream's output succeeded.
    AttachOk,
    /// The platform rejected attaching the delegate.
    AttachFailed,
    /// The start-capture completion reported no error.
    StartOk,
    /// The start-capture completion reported an error.
    StartFailed,
    /// The first lock of a frame's pixel buffer failed: stream corruption.
    LockFailed,
    /// Detaching the delegate and stopping the capture completed.
    StopFinished,
}

/// What the session asks its adapter to perform: the chosen window (by its
/// index in the enumerated list), the stream parameters and the delegate tag.
#[derive(Debug, Clone, Copy, PartialEq, Eq, Structural)]
pub struct AttachRequest {
    /// Index of the selected window in the enumerated list.
    pub window_index: usize,
    /// Parameters for creating the capture stream.
    pub config: StreamConfig,
    /// Session tag to seed the fresh delegate with.
    pub delegate_tag: u32,
}

/// The next platform call the adapter must make, if any.
#[derive(Debug, PartialEq)]
pub enum SessionAction {
    /// Enumerate shareable windows; select titles against this pattern.
    RequestWindows(String),
    /// Create the stream for the chosen window and attach a fresh delegate.
    AttachDelegate(AttachRequest),
    /// Start capture and await its completion.
    StartCapture,
    /// Detach the delegate from the stream, stop the capture through its own
    /// completion, and only then release the stream resources.
    StopCapture,
    /// Nothing to perform.
    NoAction,
}

/// The title pattern a session instance selects windows by.
pub open spec fn title_pattern_spec(instance_id: u32) -> Seq<char> {
    if instance_id == 0 {
        "GLIDE-ELECTRON WIN 1"@
    } else {
        "GLIDE-ELECTRON WIN 2"@
    }
}

/// The title pattern a session instance selects windows by.
pub fn title_pattern(instance_id: u32) -> (p: String)
    ensures
        p@ == title_pattern_spec(instance_id),
{
    if instance_id == 0 {
        String::from_str("GLIDE-ELECTRON WIN 1")
    } else {
        String::from_str("GLIDE-ELECTRON WIN 2")
    }
}

/// The pairs of phase and event that the session acts on; every other pair
/// is ignored without any change.
pub open spec fn relevant(phase: SessionPhase, event: SessionEvent) -> bool {
    match (phase, event) {
        (SessionPhase::AwaitingWindows, SessionEvent::WindowsFailed) => true,
        (SessionPhase::AwaitingWindows, SessionEvent::WindowsReady(_)) => true,
        (SessionPhase::AwaitingAttach, SessionEvent::AttachOk) => true,
        (SessionPhase::AwaitingAttach, SessionEvent::AttachFailed) => true,
        (SessionPhase::AwaitingStart, SessionEvent::StartOk) => true,
        (SessionPhase::AwaitingStart, SessionEvent::StartFailed) => true,
        (SessionPhase::Capturing, SessionEvent::LockFailed) => true,
        (SessionPhase::Stopping, SessionEvent::StopFinished) => true,
        _ => false,
    }
}

/// The phases with a platform request or a capture in flight: those a stop
/// request must tear down.
pub open spec fn phase_active(phase: SessionPhase) -> bool {
    match phase {
        SessionPhase::AwaitingWindows => true,
        SessionPhase::AwaitingAttach => true,
        SessionPhase::AwaitingStart => true,
        SessionPhase::Capturing => true,
        _ => false,
    }
}

/// The phases in which the session no longer accepts frames: stopping,
/// stopped, or failed. A consumer never observes a slot update past the
/// point where the session entered one of these.
pub open spec fn phase_halted(phase: SessionPhase) -> bool {
    match phase {
        SessionPhase::Stopping => true,
        SessionPhase::Stopped => true,
        SessionPhase::Failed(_) => true,
        _ => false,
    }
}

/// One capture session: its identity, selection pattern, setup phase, frame
/// delegate and the hand-off slot its frames are published into.
pub struct Grabber {
    /// Distinguishes concurrently running sessions.
    pub instance_id: u32,
    /// Title pattern used for window selection.
    pub pattern: String,
    /// Where the session stands in its setup sequence.
    pub phase: SessionPhase,
    /// Per-frame state of the delivery sink.
    pub delegate: DelegateState,
    /// The shared hand-off slot for published frames.
    pub slot: FrameSlot,
}

impl Grabber {
    /// A fresh, idle session publishing into `slot`. The pattern is fixed by
    /// the instance id.
    pub fn new(instance_id: u32, slot: FrameSlot) -> (g: Grabber)
        requires
            instance_id + DELEGATE_TAG_OFFSET <= u32::MAX,
        ensures
            g.instance_id == instance_id,
            g.pattern@ == title_pattern_spec(instance_id),
            g.phase == SessionPhase::Idle,
            g.delegate.delegate_id == instance_id + DELEGATE_TAG_OFFSET,
            g.delegate.frame_count == 0,
            g.slot == slot,
    {
        Grabber {
            instance_id,
            pattern: title_pattern(instance_id),
            phase: SessionPhase::Idle,
            delegate: DelegateState::new(instance_id + DELEGATE_TAG_OFFSET),
            slot,
        }
    }

    /// Begins the session: asks the adapter to enumerate shareable windows.
    /// The remaining steps run from the completions fed into `step`.
    pub fn start(&mut self) -> (a: SessionAction)
        ensures
            final(self).phase == SessionPhase::AwaitingWindows,
            final(self).instance_id == old(self).instance_id,
            final(self).pattern == old(self).pattern,
            final(self).delegate == old(self).delegate,
            final(self).slot == old(self).slot,
            a matches SessionAction::RequestWindows(p) && p@ == old(self).pattern@,
    {
        self.phase = SessionPhase::AwaitingWindows;
        SessionAction::RequestWindows(self.pattern.clone())
    }

    /// Feeds one completion into the session and returns the next call the
    /// adapter must make. Setup failures are terminal: enumeration failure,
    /// an empty filtered window list, degenerate geometry, a rejected attach
    /// and a failed start each move the session to `Failed`, after which
    /// every event is ignored. In particular a rejected attach never leads
    /// to a start-capture action.
    pub fn step(&mut self, event: SessionEvent) -> (a: SessionAction)
        requires
            old(self).instance_id + DELEGATE_TAG_OFFSET <= u32::MAX,
        ensures
            final(self).instance_id == old(self).instance_id,
            final(self).pattern == old(self).pattern,
            final(self).slot == old(self).slot,
            !relevant(old(self).phase, event) ==> *final(self) == *old(self) && a
                == SessionAction::NoAction,
            old(self).phase == SessionPhase::AwaitingWindows && event
                == SessionEvent::WindowsFailed ==> final(self).phase == SessionPhase::Failed(
                SessionError::Enumeration,
            ) && a == SessionAction::NoAction && final(self).delegate == old(self).delegate,
            old(self).phase == SessionPhase::AwaitingWindows ==> (event matches
                SessionEvent::WindowsReady(ws) ==> ({
                let choice = sel_idx(ws@, old(self).pattern@);
                &&& choice is None ==> final(self).phase == SessionPhase::Failed(
                    SessionError::NoCandidates,
                ) && a == SessionAction::NoAction && final(self).delegate == old(self).delegate
                &&& choice matches Some(i) ==> (if !geometry_valid(ws@[i].geometry) {
                    final(self).phase == SessionPhase::Failed(SessionError::InvalidGeometry)
                        && a == SessionAction::NoAction
                        && final(self).delegate == old(self).delegate
                } else {
                    final(self).phase == SessionPhase::AwaitingAttach
                        && final(self).delegate == (DelegateState {
                        delegate_id: (old(self).instance_id + DELEGATE_TAG_OFFSET) as u32,
                        frame_count: 0,
                    })
                        && a == SessionAction::AttachDelegate(
                        AttachRequest {
                            window_index: i as usize,
                            config: stream_config_spec(ws@[i].geometry),
                            delegate_tag: (old(self).instance_id + DELEGATE_TAG_OFFSET) as u32,
                        },
                    )
                })
            })),
            old(self).phase == SessionPhase::AwaitingAttach && event == SessionEvent::AttachOk
                ==> final(self).phase == SessionPhase::AwaitingStart && a
                == SessionAction::StartCapture && final(self).delegate == old(self).delegate,
            old(self).phase == SessionPhase::AwaitingAttach && event == SessionEvent::AttachFailed
                ==> final(self).phase == SessionPhase::Failed(SessionError::Attach) && a
                == SessionAction::NoAction && final(self).delegate == old(self).delegate,
            old(self).phase == SessionPhase::AwaitingStart && event == SessionEvent::StartOk
                ==> final(self).phase == SessionPhase::Capturing && a == SessionAction::NoAction
                && final(self).delegate == old(self).delegate,
            old(self).phase == SessionPhase::AwaitingStart && event == SessionEvent::StartFailed
                ==> final(self).phase == SessionPhase::Failed(SessionError::StartCapture) && a
                == SessionAction::NoAction && final(self).delegate == old(self).delegate,
            old(self).phase == SessionPhase::Capturing && event == SessionEvent::LockFailed
                ==> final(self).phase == SessionPhase::Failed(SessionError::FatalFrameLock) && a
                == SessionAction::NoAction && final(self).delegate == old(self).delegate,
            old(self).phase == SessionPhase::Stopping && event == SessionEvent::StopFinished
                ==> final(self).phase == SessionPhase::Stopped && a == SessionAction::NoAction
                && final(self).delegate == old(self).delegate,
    {
        match self.phase {
            SessionPhase::AwaitingWindows => match event {
                SessionEvent::WindowsFailed => {
                    self.phase = SessionPhase::Failed(SessionError::Enumeration);
                    SessionAction::NoAction
                },
                SessionEvent::WindowsReady(ws) => match select(&ws, self.pattern.as_str()) {
                    Result::Err(_) => {
                        self.phase = SessionPhase::Failed(SessionError::NoCandidates);
                        SessionAction::NoAction
                    },
                    Result::Ok(sel) => match configure(sel.geometry) {
                        Result::Err(_) => {
                            self.phase = SessionPhase::Failed(SessionError::InvalidGeometry);
                            SessionAction::NoAction
                        },
                        Result::Ok(cfg) => {
                            let tag = self.instance_id + DELEGATE_TAG_OFFSET;
                            self.delegate = DelegateState::new(tag);
                            self.phase = SessionPhase::AwaitingAttach;
                            SessionAction::AttachDelegate(
                                AttachRequest {
                                    window_index: sel.index,
                                    config: cfg,
                                    delegate_tag: tag,
                                },
                            )
                        },
                    },
                },
                _ => SessionAction::NoAction,
            },
            SessionPhase::AwaitingAttach => match event {
                SessionEvent::AttachOk => {
                    self.phase = SessionPhase::AwaitingStart;
                    SessionAction::StartCapture
                },
                SessionEvent::AttachFailed => {
                    self.phase = SessionPhase::Failed(SessionError::Attach);
                    SessionAction::NoAction
                },
                _ => SessionAction::NoAction,
            },
            SessionPhase::AwaitingStart => match event {
                SessionEvent::StartOk => {
                    self.phase = SessionPhase::Capturing;
                    SessionAction::NoAction
                },
                SessionEvent::StartFailed => {
                    self.phase = SessionPhase::Failed(SessionError::StartCapture);
                    SessionAction::NoAction
                },
                _ => SessionAction::NoAction,
            },
            SessionPhase::Capturing => match event {
                SessionEvent::LockFailed => {
                    self.phase = SessionPhase::Failed(SessionError::FatalFrameLock);
                    SessionAction::NoAction
                },
                _ => SessionAction::NoAction,
            },
            SessionPhase::Stopping => match event {
                SessionEvent::StopFinished => {
                    self.phase = SessionPhase::Stopped;
                    SessionAction::NoAction
                },
                _ => SessionAction::NoAction,
            },
            SessionPhase::Idle => SessionAction::NoAction,
            SessionPhase::Stopped => SessionAction::NoAction,
            SessionPhase::Failed(_) => SessionAction::NoAction,
        }
    }

    /// Requests teardown. From any phase with work in flight the adapter is
    /// asked to detach the delegate and stop the capture, and the session
    /// discards frames from here on; an idle session is simply over, and a
    /// stopped or failed session keeps its phase.
    pub fn stop(&mut self) -> (a: SessionAction)
        ensures
            final(self).instance_id == old(self).instance_id,
            final(self).pattern == old(self).pattern,
            final(self).delegate == old(self).delegate,
            final(self).slot == old(self).slot,
            phase_active(old(self).phase) ==> final(self).phase == SessionPhase::Stopping && a
                == SessionAction::StopCapture,
            old(self).phase == SessionPhase::Idle ==> final(self).phase == SessionPhase::Stopped
                && a == SessionAction::NoAction,
            phase_halted(old(self).phase) ==> final(self).phase == old(self).phase && a
                == SessionAction::NoAction,
    {
        match self.phase {
            SessionPhase::AwaitingWindows
            | SessionPhase::AwaitingAttach
            | SessionPhase::AwaitingStart
            | SessionPhase::Capturing => {
                self.phase = SessionPhase::Stopping;
                SessionAction::StopCapture
            },
            SessionPhase::Idle => {
                self.phase = SessionPhase::Stopped;
                SessionAction::NoAction
            },
            SessionPhase::Stopping | SessionPhase::Stopped | SessionPhase::Failed(_) => {
                SessionAction::NoAction
            },
        }
    }

    /// Handles one delivered frame through the session's delegate,
    /// publishing sampled frames into the session's slot. Frames still in
    /// flight after the session stopped or failed are discarded whole, so no
    /// slot update is observable past that point.
    pub fn handle_frame(
        &mut self,
        kind: BufferKind,
        width: usize,
        height: usize,
        data: &[u8],
    ) -> (r: FrameOutcome)
        requires
            old(self).delegate.frame_count < u64::MAX,
        ensures
            final(self).instance_id == old(self).instance_id,
            final(self).pattern == old(self).pattern,
            final(self).phase == old(self).phase,
            phase_halted(old(self).phase) ==> *final(self) == *old(self) && r
                == FrameOutcome::Dropped(FrameDropReason::SessionHalted),
            !phase_halted(old(self).phase) ==> frame_transition(
                old(self).delegate,
                old(self).slot,
                final(self).delegate,
                final(self).slot,
                kind,
                width as nat,
                height as nat,
                data@,
                r,
            ),
    {
        match self.phase {
            SessionPhase::Stopping | SessionPhase::Stopped | SessionPhase::Failed(_) => {
                return FrameOutcome::Dropped(FrameDropReason::SessionHalted);
            },
            _ => {},
        }
        let d = &mut self.delegate;
        let s = &mut self.slot;
        d.handle_frame(s, kind, width, height, data)
    }

    /// The most recently published frame (empty before the first publish).
    pub fn latest_frame(&self) -> (r: &Vec<u8>)
        ensures
            r@ == self.slot.contents(),
    {
        self.slot.latest()
    }
}

/// A failed session is terminal: whatever event arrives, it stays failed and
/// asks for no further action — in particular, once an attach was rejected,
/// no start-capture action can ever be produced.
pub proof fn lemma_failed_is_terminal(phase: SessionPhase, event: SessionEvent)
    requires
        phase matches SessionPhase::Failed(_),
    ensures
        !relevant(phase, event),
{
}

} // verus!
