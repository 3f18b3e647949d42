//! The segment lifecycle controller: slot alternation and phase transitions.
//!
//! Two slots, indices 0 and 1, each bound to a distinct output path, exist
//! for the life of the process. Rotation `k` records into slot `k % 2`, so
//! consecutive rotations never write the same path and the path written at
//! rotation `k` is the path written at rotation `k - 2`.

use vstd::prelude::*;

verus! {

/// Lifecycle phase of the controller.
#[derive(Clone, Copy, Debug, PartialEq, Eq, Structural)]
pub enum Phase {
    Idle,
    Recording,
    Finalizing,
    Dispatching,
}

/// One of the two alternating output identities.
pub struct SegmentSlot {
    pub index: u8,
    pub path: String,
}

/// The slot index rotation `k` records into: rotations alternate 0,1,0,1,…
/// starting from 0.
pub open spec fn slot_of_rotation(k: nat) -> nat {
    k % 2
}

/// The driving state of the segment lifecycle.
pub struct Controller {
    pub slot0: SegmentSlot,
    pub slot1: SegmentSlot,
    /// Rotations begun so far.
    pub rotations: u64,
    pub phase: Phase,
}

impl Controller {
    /// The two slots carry their fixed indices and distinct paths.
    pub open spec fn wf(self) -> bool {
        &&& self.slot0.index == 0
        &&& self.slot1.index == 1
        &&& self.slot0.path@ != self.slot1.path@
    }

    /// The path rotation `k` records into.
    pub open spec fn spec_path_of(self, k: nat) -> Seq<char> {
        if slot_of_rotation(k) == 0 {
            self.slot0.path@
        } else {
            self.slot1.path@
        }
    }

    /// The rotation currently in progress (the last one begun).
    pub open spec fn active_rotation(self) -> nat
        recommends
            self.rotations >= 1,
    {
        (self.rotations - 1) as nat
    }

    /// Creates the controller in `Idle`, before any rotation, with slot 0 on
    /// `path0` and slot 1 on `path1`.
    pub fn new(path0: String, path1: String) -> (c: Controller)
        requires
            path0@ != path1@,
        ensures
            c.wf(),
            c.rotations == 0,
            c.phase == Phase::Idle,
            c.slot0.path@ == path0@,
            c.slot1.path@ == path1@,
    {
        Controller {
            slot0: SegmentSlot { index: 0, path: path0 },
            slot1: SegmentSlot { index: 1, path: path1 },
            rotations: 0,
            phase: Phase::Idle,
        }
    }

    /// Idle → Recording: selects the next slot. Selection alternates
    /// 0,1,0,1,… from 0: rotation `k` (counting from 0) gets slot `k % 2`.
    pub fn begin_rotation(&mut self) -> (i: usize)
        requires
            old(self).wf(),
            old(self).phase == Phase::Idle,
            old(self).rotations < u64::MAX,
        ensures
            final(self).wf(),
            final(self).phase == Phase::Recording,
            final(self).rotations == old(self).rotations + 1,
            i == slot_of_rotation(old(self).rotations as nat),
            i == slot_of_rotation(final(self).active_rotation()),
            final(self).slot0.path@ == old(self).slot0.path@,
            final(self).slot1.path@ == old(self).slot1.path@,
    {
        let i: usize = (self.rotations % 2) as usize;
        self.rotations = self.rotations + 1;
        self.phase = Phase::Recording;
        i
    }

    /// The path bound to slot `i`.
    pub fn slot_path(&self, i: usize) -> (p: &String)
        requires
            i < 2,
        ensures
            p@ == (if i == 0 {
                self.slot0.path@
            } else {
                self.slot1.path@
            }),
    {
        if i == 0 {
            &self.slot0.path
        } else {
            &self.slot1.path
        }
    }

    /// Recording → Finalizing: the fixed segment duration has elapsed and the
    /// stream has been stopped.
    pub fn recording_elapsed(&mut self)
        requires
            old(self).phase == Phase::Recording,
        ensures
            final(self).phase == Phase::Finalizing,
            final(self).rotations == old(self).rotations,
            final(self).slot0 == old(self).slot0,
            final(self).slot1 == old(self).slot1,
            old(self).wf() ==> final(self).wf(),
    {
        self.phase = Phase::Finalizing;
    }

    /// Finalizing → Dispatching: yields the slot index whose finalized file
    /// is to be handed to the upload path.
    pub fn begin_dispatch(&mut self) -> (i: usize)
        requires
            old(self).phase == Phase::Finalizing,
            old(self).rotations >= 1,
        ensures
            final(self).phase == Phase::Dispatching,
            final(self).rotations == old(self).rotations,
            final(self).slot0 == old(self).slot0,
            final(self).slot1 == old(self).slot1,
            old(self).wf() ==> final(self).wf(),
            i == slot_of_rotation(old(self).active_rotation()),
    {
        self.phase = Phase::Dispatching;
        ((self.rotations - 1) % 2) as usize
    }

    /// Dispatching → Idle: the handoff is detached; the controller returns to
    /// `Idle` at once and the next rotation may begin.
    pub fn rotation_complete(&mut self)
        requires
            old(self).phase == Phase::Dispatching,
        ensures
            final(self).phase == Phase::Idle,
            final(self).rotations == old(self).rotations,
            final(self).slot0 == old(self).slot0,
            final(self).slot1 == old(self).slot1,
            old(self).wf() ==> final(self).wf(),
    {
        self.phase = Phase::Idle;
    }
}

/// Slot selection starts at 0, flips every rotation, and repeats with period
/// two, so rotation `k + 2` reuses rotation `k`'s slot.
pub proof fn lemma_slot_alternation(k: nat)
    ensures
        slot_of_rotation(0) == 0,
        slot_of_rotation(k + 1) != slot_of_rotation(k),
        slot_of_rotation(k + 2) == slot_of_rotation(k),
{
}

/// The path written at rotation `k + 2` is the path written at rotation `k`,
/// and the path written at rotation `k + 1` — the one recorded while rotation
/// `k`'s file may still be read for upload — is a different path.
pub proof fn lemma_path_reuse(c: Controller, k: nat)
    requires
        c.wf(),
    ensures
        c.spec_path_of(k + 2) == c.spec_path_of(k),
        c.spec_path_of(k + 1) != c.spec_path_of(k),
{
    lemma_slot_alternation(k);
}

} // verus!
