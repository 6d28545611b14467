//! The shared hand-off slot for the most recently published frame.
//!
//! The slot has exactly one writer, the capture delegate, and external
//! readers. Publishing replaces the whole byte sequence in a single exclusive
//! step, so a reader sees either the previous complete frame or the new
//! complete frame, never a mixture. Within the library exclusivity is the
//! `&mut` borrow; across threads the platform adapter must wrap the slot in
//! its own mutual-exclusion primitive.

use vstd::prelude::*;

verus! {

/// Holds the raw bytes of the most recently published frame, together with a
/// ghost record of every frame published so far.
pub struct FrameSlot {
    bytes: Vec<u8>,
    history: Ghost<Seq<Seq<u8>>>,
}

impl FrameSlot {
    /// The bytes a reader currently observes.
    pub closed spec fn contents(&self) -> Seq<u8> {
        self.bytes@
    }

    /// Every frame ever published into this slot, oldest first.
    pub closed spec fn published(&self) -> Seq<Seq<u8>> {
        self.history@
    }

    /// The slot holds the last published frame, whole — or nothing yet.
    pub open spec fn wf(&self) -> bool {
        self.contents() == if self.published().len() == 0 {
            Seq::<u8>::empty()
        } else {
            self.published().last()
        }
    }

    /// A fresh slot with no published frame.
    pub fn new() -> (s: FrameSlot)
        ensures
            s.wf(),
            s.published() == Seq::<Seq<u8>>::empty(),
            s.contents() == Seq::<u8>::empty(),
    {
        FrameSlot { bytes: Vec::new(), history: Ghost(Seq::empty()) }
    }

    /// Replaces the slot's entire contents with `frame` in one exclusive step.
    pub fn publish(&mut self, frame: Vec<u8>)
        ensures
            final(self).wf(),
            final(self).published() == old(self).published().push(frame@),
            final(self).contents() == frame@,
    {
        let ghost f = frame@;
        self.bytes = frame;
        self.history = Ghost(self.history@.push(f));
    }

    /// The most recently published frame (empty before the first publish).
    pub fn latest(&self) -> (r: &Vec<u8>)
        ensures
            r@ == self.contents(),
    {
        &self.bytes
    }

    /// How many bytes a reader observes.
    pub fn len(&self) -> (n: usize)
        ensures
            n == self.contents().len(),
    {
        self.bytes.len()
    }
}

/// Readers never observe a torn frame: once anything has been published, the
/// observable contents are exactly the most recently published frame, so
/// their length agrees with that single frame's size.
pub proof fn lemma_no_torn_reads(s: &FrameSlot)
    requires
        s.wf(),
        s.published().len() > 0,
    ensures
        s.contents() == s.published().last(),
        s.contents().len() == s.published().last().len(),
{
}

} // verus!
