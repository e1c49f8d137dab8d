//! The frame store: one slot per camera, holding its most recent frame.
//!
//! A slot is either empty (no frame yet) or holds exactly one complete
//! frame of its format. New frames replace the old one whole; nothing is
//! ever appended or patched in place, so whoever looks at a slot sees no
//! frame or a complete one.
//!
//! [`FrameSlot`] is the slot as a plain value. [`SharedFrameStore`] is the
//! same slot behind a reader-writer lock, for one capture thread that
//! writes and one render thread that reads. The lock is held only to swap
//! the payload in or to copy it out.

use vstd::prelude::*;
use vstd::rwlock::{RwLock, RwLockPredicate};
use crate::format::FrameFormat;

verus! {

/// A payload of `len` bytes is what a slot of `format` may hold: nothing,
/// or one whole frame.
pub open spec fn consistent(format: FrameFormat, len: nat) -> bool {
    len == 0 || len == format.payload_len()
}

/// The latest decoded frame of one camera, as a plain value.
pub struct FrameSlot {
    format: FrameFormat,
    payload: Vec<u8>,
}

impl View for FrameSlot {
    type V = Seq<u8>;

    /// The payload: row-major RGB, or empty while no frame has arrived.
    closed spec fn view(&self) -> Seq<u8> {
        self.payload@
    }
}

impl FrameSlot {
    /// The payload is empty or one whole frame.
    #[verifier::type_invariant]
    spec fn whole_or_empty(self) -> bool {
        consistent(self.format, self.payload@.len())
    }

    /// The format whose frames the slot holds.
    pub closed spec fn spec_format(&self) -> FrameFormat {
        self.format
    }

    /// An empty slot for frames of `format`.
    pub fn new(format: FrameFormat) -> (slot: FrameSlot)
        ensures
            slot.spec_format() == format,
            slot@ == Seq::<u8>::empty(),
    {
        FrameSlot { format, payload: Vec::new() }
    }

    /// The format whose frames are held.
    #[verifier::when_used_as_spec(spec_format)]
    pub fn format(&self) -> (format: FrameFormat)
        ensures
            format == self.spec_format(),
    {
        self.format
    }

    /// Whether no frame has arrived yet.
    pub fn is_empty(&self) -> (empty: bool)
        ensures
            empty == (self@.len() == 0),
    {
        self.payload.len() == 0
    }

    /// Puts `pixels` in place of the current payload if they are exactly
    /// one frame of the slot's format, and leaves the slot as it is
    /// otherwise.
    pub fn replace(&mut self, pixels: Vec<u8>) -> (accepted: bool)
        ensures
            final(self).spec_format() == old(self).spec_format(),
            accepted == (pixels@.len() == old(self).spec_format().payload_len()),
            final(self)@ == (if accepted {
                pixels@
            } else {
                old(self)@
            }),
    {
        if self.format.holds(pixels.len()) {
            self.payload = pixels;
            true
        } else {
            false
        }
    }

    /// A copy of the current payload: empty, or one whole frame.
    pub fn snapshot(&self) -> (copy: Vec<u8>)
        ensures
            copy@ == self@,
            consistent(self.spec_format(), copy@.len()),
    {
        proof {
            use_type_invariant(self);
        }
        let copy = self.payload.clone();
        assert(copy@ =~= self.payload@);
        copy
    }
}

/// What the lock of a shared store admits: slots of one format.
pub struct SlotOfFormat {
    pub format: FrameFormat,
}

impl RwLockPredicate<FrameSlot> for SlotOfFormat {
    /// The slot is one of the lock's format.
    open spec fn inv(self, slot: FrameSlot) -> bool {
        slot.spec_format() == self.format
    }
}

/// The latest decoded frame of one camera, shared between the thread that
/// captures and the thread that renders.
pub struct SharedFrameStore {
    format: FrameFormat,
    slot: RwLock<FrameSlot, SlotOfFormat>,
}

impl SharedFrameStore {
    /// The lock admits slots of the store's format and no others.
    #[verifier::type_invariant]
    spec fn guards_own_format(self) -> bool {
        self.slot.pred().format == self.format
    }

    /// The format whose frames the store holds. It never changes.
    pub closed spec fn spec_format(&self) -> FrameFormat {
        self.format
    }

    /// An empty store for frames of `format`.
    pub fn new(format: FrameFormat) -> (store: SharedFrameStore)
        ensures
            store.spec_format() == format,
    {
        let slot = FrameSlot::new(format);
        SharedFrameStore { format, slot: RwLock::new(slot, Ghost(SlotOfFormat { format })) }
    }

    /// The format whose frames are held.
    #[verifier::when_used_as_spec(spec_format)]
    pub fn format(&self) -> (format: FrameFormat)
        ensures
            format == self.spec_format(),
    {
        self.format
    }

    /// Publishes `pixels` as the latest frame if they are exactly one frame
    /// of the store's format; otherwise the store keeps what it has. The
    /// size is checked before the lock is taken, and the lock is held for
    /// the swap alone.
    pub fn publish(&self, pixels: Vec<u8>) -> (accepted: bool)
        ensures
            accepted == (pixels@.len() == self.spec_format().payload_len()),
    {
        proof {
            use_type_invariant(self);
        }
        if !self.format.holds(pixels.len()) {
            return false;
        }
        let (mut slot, writing) = self.slot.acquire_write();
        let accepted = slot.replace(pixels);
        writing.release_write(slot);
        accepted
    }

    /// A copy of the latest frame, or an empty payload while none has
    /// arrived. Whatever a writer does meanwhile, the copy is never part of
    /// a frame. The lock is held for the copy alone.
    ///
    /// Which frame is the latest is for the capturing thread to decide, at
    /// any moment, so two calls may differ and the contract says what holds
    /// of every copy. What the copy is, for the slot that was read, is what
    /// [`FrameSlot::snapshot`] states.
    pub fn snapshot(&self) -> (copy: Vec<u8>)
        ensures
            consistent(self.spec_format(), copy@.len()),
    {
        proof {
            use_type_invariant(self);
        }
        let reading = self.slot.acquire_read();
        let copy = reading.borrow().snapshot();
        reading.release_read();
        copy
    }
}

} // verus!
