//! The frame-delivery sink: per-frame counting, sampling and publishing.
//!
//! Each delivered frame arrives as a buffer-kind discriminator, the locked
//! buffer's dimensions, and the locked pixel bytes, already extracted by the
//! platform adapter (the scoped buffer lock itself is the adapter's duty and
//! is released on every exit path there). Frames of the wrong kind are
//! dropped without counting. Every video frame increments the counter; only
//! every `SAMPLE_INTERVAL`-th one is published, and then exactly
//! `width * height * 4` bytes are copied into the frame slot in one
//! exclusive replacement.

use vstd::prelude::*;
use vstd::slice::slice_subrange;
use vstd::slice::slice_to_vec;

use crate::slot::FrameSlot;

verus! {

/// Publish every `SAMPLE_INTERVAL`-th delivered video frame.
pub const SAMPLE_INTERVAL: u64 = 10;

/// Bytes per pixel of the fixed 32-bit BGRA format.
pub const BYTES_PER_PIXEL: usize = 4;

/// What kind of buffer a delivery carried: only video samples are handled.
#[derive(Debug, Clone, Copy, PartialEq, Eq, Structural)]
pub enum BufferKind {
    /// The expected video-sample buffer.
    Video,
    /// Any other delivery (audio, metadata, ...): rejected per frame.
    Other,
}

/// Why a single frame was dropped; never fatal to the session.
#[derive(Debug, Clone, Copy, PartialEq, Eq, Structural)]
pub enum FrameDropReason {
    /// The delivery was not a video-sample buffer.
    BadBufferType,
    /// The locked buffer transiently reported a zero dimension.
    ZeroDimensions,
    /// The locked bytes are shorter than `width * height * 4`: reading the
    /// frame would go out of bounds, so it is dropped instead.
    ShortBuffer,
    /// The delivery was still in flight when the session had already been
    /// stopped or had failed; it is discarded without counting.
    SessionHalted,
}

/// The per-frame verdict of the delivery handler.
#[derive(Debug, Clone, Copy, PartialEq, Eq, Structural)]
pub enum FrameOutcome {
    /// The frame was copied whole into the frame slot.
    Published,
    /// The frame was counted but fell between sampling points.
    NotSampled,
    /// The frame was discarded for the given reason.
    Dropped(FrameDropReason),
}

/// Mutable state of one delegate instance: its session tag and the count of
/// video frames delivered so far.
#[derive(Debug, Clone, Copy, PartialEq, Eq, Structural)]
pub struct DelegateState {
    /// Session tag, kept disjoint from session instance ids.
    pub delegate_id: u32,
    /// Video frames delivered so far; grows by one per video delivery.
    pub frame_count: u64,
}

/// The sampling policy: a frame is due for publishing when the counter value
/// it was given is a multiple of the sampling interval.
pub open spec fn sample_due(count: int) -> bool {
    count % (SAMPLE_INTERVAL as int) == 0
}

/// How many bytes one published frame of the given dimensions holds.
pub open spec fn frame_bytes(width: nat, height: nat) -> nat {
    width * height * (BYTES_PER_PIXEL as nat)
}

/// Everything one frame delivery does to the delegate and the slot, and the
/// verdict it returns — a function of the state before and the delivery.
pub open spec fn frame_transition(
    pre: DelegateState,
    pre_slot: FrameSlot,
    post: DelegateState,
    post_slot: FrameSlot,
    kind: BufferKind,
    width: nat,
    height: nat,
    data: Seq<u8>,
    r: FrameOutcome,
) -> bool {
    if kind != BufferKind::Video {
        post == pre && post_slot == pre_slot && r == FrameOutcome::Dropped(
            FrameDropReason::BadBufferType,
        )
    } else {
        let count = pre.frame_count + 1;
        &&& post.delegate_id == pre.delegate_id
        &&& post.frame_count == count
        &&& if width == 0 || height == 0 {
            post_slot == pre_slot && r == FrameOutcome::Dropped(FrameDropReason::ZeroDimensions)
        } else if !sample_due(count as int) {
            post_slot == pre_slot && r == FrameOutcome::NotSampled
        } else if data.len() < frame_bytes(width, height) {
            post_slot == pre_slot && r == FrameOutcome::Dropped(FrameDropReason::ShortBuffer)
        } else {
            &&& r == FrameOutcome::Published
            &&& post_slot.wf()
            &&& post_slot.published() == pre_slot.published().push(
                data.subrange(0, frame_bytes(width, height) as int),
            )
            &&& post_slot.contents() == data.subrange(0, frame_bytes(width, height) as int)
        }
    }
}

impl DelegateState {
    /// A fresh delegate carrying the given session tag, no frame seen yet.
    pub fn new(delegate_id: u32) -> (d: DelegateState)
        ensures
            d.delegate_id == delegate_id,
            d.frame_count == 0,
    {
        DelegateState { delegate_id, frame_count: 0 }
    }

    /// Handles one frame delivery: rejects non-video buffers, counts the
    /// frame, skips transiently zero-sized frames, applies the sampling
    /// policy, and on a sampled frame copies exactly `width * height * 4`
    /// bytes of `data` into the slot as one whole replacement.
    pub fn handle_frame(
        &mut self,
        slot: &mut FrameSlot,
        kind: BufferKind,
        width: usize,
        height: usize,
        data: &[u8],
    ) -> (r: FrameOutcome)
        requires
            old(self).frame_count < u64::MAX,
        ensures
            frame_transition(
                *old(self),
                *old(slot),
                *final(self),
                *final(slot),
                kind,
                width as nat,
                height as nat,
                data@,
                r,
            ),
    {
        match kind {
            BufferKind::Other => {
                return FrameOutcome::Dropped(FrameDropReason::BadBufferType);
            },
            BufferKind::Video => {},
        }
        self.frame_count = self.frame_count + 1;
        if width == 0 || height == 0 {
            return FrameOutcome::Dropped(FrameDropReason::ZeroDimensions);
        }
        if self.frame_count % SAMPLE_INTERVAL != 0 {
            return FrameOutcome::NotSampled;
        }
        proof {
            vstd::arithmetic::mul::lemma_mul_upper_bound(
                width as int,
                u64::MAX as int,
                height as int,
                u64::MAX as int,
            );
        }
        let wh: u128 = (width as u128) * (height as u128);
        let quarter: u128 = (data.len() as u128) / (BYTES_PER_PIXEL as u128);
        if quarter < wh {
            proof {
                let b = BYTES_PER_PIXEL as int;
                let len = data@.len() as int;
                vstd::arithmetic::div_mod::lemma_div_multiples_vanish(wh as int, b);
                if len >= frame_bytes(width as nat, height as nat) {
                    vstd::arithmetic::div_mod::lemma_div_is_ordered(b * (wh as int), len, b);
                }
            }
            return FrameOutcome::Dropped(FrameDropReason::ShortBuffer);
        }
        proof {
            let b = BYTES_PER_PIXEL as int;
            let len = data@.len() as int;
            vstd::arithmetic::div_mod::lemma_fundamental_div_mod(len, b);
            vstd::arithmetic::div_mod::lemma_mod_division_less_than_divisor(len, b);
            vstd::arithmetic::mul::lemma_mul_inequality(wh as int, len / b, b);
            assert(frame_bytes(width as nat, height as nat) <= data@.len());
        }
        let needed: usize = width * height * BYTES_PER_PIXEL;
        let frame: Vec<u8> = slice_to_vec(slice_subrange(data, 0, needed));
        slot.publish(frame);
        FrameOutcome::Published
    }
}

/// The number of publishes among deliveries `1 ..= n` of well-formed video
/// frames: one for each counter value the sampling policy selects.
pub open spec fn publishes_among(n: nat) -> nat
    decreases n,
{
    if n == 0 {
        0
    } else {
        publishes_among((n - 1) as nat) + if sample_due(n as int) {
            1nat
        } else {
            0nat
        }
    }
}

/// The sampling rate: among any `n` sequential well-formed video deliveries,
/// exactly `n / SAMPLE_INTERVAL` are published — those at delivery indices
/// `SAMPLE_INTERVAL`, `2 * SAMPLE_INTERVAL`, and so on. A fresh delegate
/// drives its counter through `1 ..= n` over such deliveries, and
/// `handle_frame` publishes exactly when the counter is a multiple of the
/// interval.
pub proof fn lemma_sampling_rate(n: nat)
    ensures
        publishes_among(n) == n / (SAMPLE_INTERVAL as nat),
    decreases n,
{
    let d = SAMPLE_INTERVAL as int;
    if n > 0 {
        lemma_sampling_rate((n - 1) as nat);
        vstd::arithmetic::div_mod::lemma_fundamental_div_mod(n as int, d);
        vstd::arithmetic::div_mod::lemma_mod_division_less_than_divisor(n as int, d);
        let q = n as int / d;
        let r = n as int % d;
        if r == 0 {
            vstd::arithmetic::div_mod::lemma_fundamental_div_mod_converse(
                n - 1,
                d,
                q - 1,
                d - 1,
            );
        } else {
            vstd::arithmetic::div_mod::lemma_fundamental_div_mod_converse(n - 1, d, q, r - 1);
        }
    }
}

} // verus!
