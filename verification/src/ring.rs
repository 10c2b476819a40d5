//! The ring of in-flight frame slots and its reuse protocol.
//!
//! Each slot owns one frame's synchronization objects: an image-available
//! signal, a render-finished signal and a completion guard. A slot may back a
//! new submission only after the guard of its previous submission has been
//! observed signaled and then reset. The ring records exactly that protocol:
//! the blocking wait itself happens in the shell, which reports its outcome
//! here.

use vstd::prelude::*;

use crate::errors::GpuError;

verus! {

/// What the completion guard of one slot is known to be.
#[derive(Debug, Clone, Copy, PartialEq, Eq, Structural)]
pub enum SlotStatus {
    /// The guard is set and completion has not been observed: either the
    /// initial state (guards are created signaled, but this has not been
    /// checked yet) or a submission still possibly running on the GPU.
    Pending,
    /// A wait on the guard returned success since the last submission.
    Ready,
    /// The guard was reset after a successful wait; the slot may back a new
    /// submission.
    Armed,
}

/// One protocol step on the ring's slots, as an abstract operation.
pub enum SlotOp {
    WaitSuccess { slot: nat },
    Reset { slot: nat },
    Submit { slot: nat },
}

/// The transition relation of the slot protocol: `None` when the operation is
/// not enabled in state `s`.
pub open spec fn slot_step(s: Seq<SlotStatus>, op: SlotOp) -> Option<Seq<SlotStatus>> {
    match op {
        SlotOp::WaitSuccess { slot } => if slot < s.len() && (s[slot as int] is Pending
            || s[slot as int] is Ready) {
            Some(s.update(slot as int, SlotStatus::Ready))
        } else {
            None
        },
        SlotOp::Reset { slot } => if slot < s.len() && s[slot as int] is Ready {
            Some(s.update(slot as int, SlotStatus::Armed))
        } else {
            None
        },
        SlotOp::Submit { slot } => if slot < s.len() && s[slot as int] is Armed {
            Some(s.update(slot as int, SlotStatus::Pending))
        } else {
            None
        },
    }
}

/// The state after running `ops` from `s`, or `None` if some step on the way
/// was not enabled.
pub open spec fn slot_run(s: Seq<SlotStatus>, ops: Seq<SlotOp>) -> Option<Seq<SlotStatus>>
    decreases ops.len(),
{
    if ops.len() == 0 {
        Some(s)
    } else {
        match slot_run(s, ops.drop_last()) {
            Some(t) => slot_step(t, ops.last()),
            None => None,
        }
    }
}

/// The initial slot state: every guard set, no completion observed yet.
pub open spec fn slots_initial(depth: nat) -> Seq<SlotStatus> {
    Seq::new(depth, |i: int| SlotStatus::Pending)
}

/// Every step leaves the number of slots unchanged, so a whole run does too.
proof fn lemma_run_len(s0: Seq<SlotStatus>, ops: Seq<SlotOp>)
    requires
        slot_run(s0, ops) is Some,
    ensures
        slot_run(s0, ops)->Some_0.len() == s0.len(),
    decreases ops.len(),
{
    if ops.len() > 0 {
        lemma_run_len(s0, ops.drop_last());
    }
}

/// In any accepted run, a slot is `Ready` only because some earlier wait on it
/// succeeded, with no submission on that slot in between.
proof fn lemma_ready_comes_from_wait(s0: Seq<SlotStatus>, ops: Seq<SlotOp>, slot: nat)
    requires
        slot < s0.len(),
        !(s0[slot as int] is Ready),
        slot_run(s0, ops) is Some,
        slot_run(s0, ops)->Some_0[slot as int] is Ready,
    ensures
        exists|j: int|
            0 <= j < ops.len() && ops[j] == (SlotOp::WaitSuccess { slot }) && forall|m: int|
                j < m < ops.len() ==> ops[m] != (SlotOp::Submit { slot }),
    decreases ops.len(),
{
    if ops.len() == 0 {
        assert(slot_run(s0, ops) == Some(s0));
        assert(false);
    } else {
        let t = slot_run(s0, ops.drop_last())->Some_0;
        let res = slot_run(s0, ops)->Some_0;
        lemma_run_len(s0, ops.drop_last());
        assert(slot_step(t, ops.last()) == Some(res));
        if ops.last() == (SlotOp::WaitSuccess { slot }) {
            let j = ops.len() - 1;
            assert(ops[j] == (SlotOp::WaitSuccess { slot }) && forall|m: int|
                j < m < ops.len() ==> ops[m] != (SlotOp::Submit { slot }));
        } else {
            match ops.last() {
                SlotOp::WaitSuccess { slot: s } => {
                    assert(res == t.update(s as int, SlotStatus::Ready));
                    assert(s != slot);
                    assert(t[slot as int] is Ready);
                },
                SlotOp::Reset { slot: s } => {
                    assert(res == t.update(s as int, SlotStatus::Armed));
                    assert(s != slot);
                    assert(t[slot as int] is Ready);
                },
                SlotOp::Submit { slot: s } => {
                    assert(res == t.update(s as int, SlotStatus::Pending));
                    assert(s != slot);
                    assert(t[slot as int] is Ready);
                },
            }
            lemma_ready_comes_from_wait(s0, ops.drop_last(), slot);
            let j = choose|j: int|
                0 <= j < ops.drop_last().len() && ops.drop_last()[j] == (SlotOp::WaitSuccess {
                    slot,
                }) && forall|m: int|
                    j < m < ops.drop_last().len() ==> ops.drop_last()[m] != (SlotOp::Submit {
                        slot,
                    });
            assert(ops[j] == (SlotOp::WaitSuccess { slot }));
            assert(forall|m: int| j < m < ops.len() - 1 ==> ops.drop_last()[m] == ops[m]);
            assert(forall|m: int| j < m < ops.len() ==> ops[m] != (SlotOp::Submit { slot }));
        }
    }
}

/// A run is accepted stepwise, so every prefix of it is accepted too.
proof fn lemma_run_prefix(s0: Seq<SlotStatus>, ops: Seq<SlotOp>, k: int)
    requires
        slot_run(s0, ops) is Some,
        0 <= k <= ops.len(),
    ensures
        slot_run(s0, ops.take(k)) is Some,
    decreases ops.len(),
{
    if k < ops.len() {
        assert(ops.drop_last().take(k) =~= ops.take(k));
        lemma_run_prefix(s0, ops.drop_last(), k);
    } else {
        assert(ops.take(k) =~= ops);
    }
}

/// The slot-reuse law: in any run of the protocol from the initial state, a
/// slot's guard is reset only after a wait on that exact slot succeeded, with
/// no submission on the slot between that wait and the reset.
pub proof fn lemma_no_reset_without_wait(depth: nat, ops: Seq<SlotOp>, k: int, slot: nat)
    requires
        slot_run(slots_initial(depth), ops) is Some,
        0 <= k < ops.len(),
        ops[k] == (SlotOp::Reset { slot }),
    ensures
        exists|j: int|
            0 <= j < k && ops[j] == (SlotOp::WaitSuccess { slot }) && forall|m: int|
                j < m < k ==> ops[m] != (SlotOp::Submit { slot }),
{
    let s0 = slots_initial(depth);
    lemma_run_prefix(s0, ops, k + 1);
    assert(ops.take(k + 1).drop_last() =~= ops.take(k));
    assert(ops.take(k + 1).last() == ops[k]);
    assert(slot_run(s0, ops.take(k)) is Some);
    lemma_run_len(s0, ops.take(k));
    assert(slot_step(slot_run(s0, ops.take(k))->Some_0, ops[k]) is Some);
    assert(slot_run(s0, ops.take(k))->Some_0[slot as int] is Ready);
    let pre = ops.take(k);
    lemma_ready_comes_from_wait(s0, pre, slot);
    let j = choose|j: int|
        0 <= j < pre.len() && pre[j] == (SlotOp::WaitSuccess { slot }) && forall|m: int|
            j < m < pre.len() ==> pre[m] != (SlotOp::Submit { slot });
    assert(pre.len() == k);
    assert(pre[j] == ops[j]);
    assert forall|m: int| j < m < k implies ops[m] != (SlotOp::Submit { slot }) by {
        assert(pre[m] != (SlotOp::Submit { slot }));
        assert(pre[m] == ops[m]);
    }
    assert(ops[j] == (SlotOp::WaitSuccess { slot }) && forall|m: int|
        j < m < k ==> ops[m] != (SlotOp::Submit { slot }));
}

/// The ring itself: one status per slot, plus the frame counter that selects
/// the current slot.
pub struct FrameRing {
    slots: Vec<SlotStatus>,
    frames_begun: u64,
    current: usize,
    history: Ghost<Seq<SlotOp>>,
}

impl FrameRing {
    /// The status of every slot's completion guard.
    pub closed spec fn statuses(&self) -> Seq<SlotStatus> {
        self.slots@
    }

    /// The number of slots, fixed at configuration time.
    pub open spec fn depth(&self) -> nat {
        self.statuses().len()
    }

    /// How many frames have been begun since startup.
    pub closed spec fn frames_begun(&self) -> nat {
        self.frames_begun as nat
    }

    /// The slot backing the frame most recently begun.
    pub closed spec fn current_slot(&self) -> nat {
        self.current as nat
    }

    /// Every protocol operation the ring has been through, oldest first.
    pub closed spec fn history(&self) -> Seq<SlotOp> {
        self.history@
    }

    /// At least two slots (one frame of CPU/GPU overlap), a current slot
    /// inside the ring, and a recorded history that really leads from the
    /// initial state to the present statuses. Every reachable ring therefore
    /// carries a witness that its past obeyed the slot protocol.
    pub open spec fn wf(&self) -> bool {
        &&& 2 <= self.depth()
        &&& self.current_slot() < self.depth()
        &&& slot_run(slots_initial(self.depth()), self.history()) == Some(self.statuses())
    }

    /// A fresh ring: every guard set as if signaled, nothing begun yet.
    pub fn new(depth: usize) -> (r: Self)
        requires
            2 <= depth,
        ensures
            r.wf(),
            r.depth() == depth,
            r.frames_begun() == 0,
            r.current_slot() == 0,
            r.statuses() =~= slots_initial(depth as nat),
            r.history() == Seq::<SlotOp>::empty(),
    {
        let mut slots: Vec<SlotStatus> = Vec::new();
        let mut i: usize = 0;
        while i < depth
            invariant
                i <= depth,
                slots@.len() == i,
                forall|j: int| 0 <= j < i ==> slots@[j] is Pending,
            decreases depth - i,
        {
            slots.push(SlotStatus::Pending);
            i = i + 1;
        }
        proof {
            assert(slots@ =~= slots_initial(depth as nat));
        }
        FrameRing { slots, frames_begun: 0, current: 0, history: Ghost(Seq::empty()) }
    }

    /// Move to the slot of the next frame and count it. Frame `f` (counting
    /// from zero) always lands on slot `f mod depth`; the statuses are
    /// untouched.
    pub fn advance(&mut self) -> (slot: usize)
        requires
            old(self).wf(),
            old(self).frames_begun() < u64::MAX,
        ensures
            final(self).wf(),
            slot as nat == old(self).frames_begun() % old(self).depth(),
            final(self).current_slot() == slot as nat,
            final(self).frames_begun() == old(self).frames_begun() + 1,
            final(self).statuses() == old(self).statuses(),
            final(self).depth() == old(self).depth(),
            final(self).history() == old(self).history(),
    {
        let slot = (self.frames_begun % (self.slots.len() as u64)) as usize;
        self.frames_begun = self.frames_begun + 1;
        self.current = slot;
        slot
    }

    /// The status of one slot's guard.
    pub fn slot_status(&self, slot: usize) -> (r: SlotStatus)
        requires
            slot < self.depth(),
        ensures
            r == self.statuses()[slot as int],
    {
        self.slots[slot]
    }

    /// Record the outcome of the shell's blocking wait on `slot`'s guard.
    /// A successful wait marks the slot `Ready`; a failed one is device loss,
    /// which is fatal and leaves the ring as it was.
    pub fn wait_for_slot_ready(&mut self, slot: usize, wait_ok: bool) -> (r: Result<(), GpuError>)
        requires
            old(self).wf(),
            slot < old(self).depth(),
            old(self).statuses()[slot as int] is Pending || old(self).statuses()[slot as int]
                is Ready,
        ensures
            final(self).wf(),
            final(self).depth() == old(self).depth(),
            final(self).frames_begun() == old(self).frames_begun(),
            final(self).current_slot() == old(self).current_slot(),
            r is Ok <==> wait_ok,
            wait_ok ==> slot_step(old(self).statuses(), SlotOp::WaitSuccess { slot: slot as nat })
                == Some(final(self).statuses()) && final(self).history() == old(
                self,
            ).history().push(SlotOp::WaitSuccess { slot: slot as nat }),
            !wait_ok ==> final(self).statuses() == old(self).statuses() && final(self).history()
                == old(self).history() && r == Err::<(), GpuError>(GpuError::DeviceLost),
    {
        if wait_ok {
            self.slots.set(slot, SlotStatus::Ready);
            proof {
                let op = SlotOp::WaitSuccess { slot: slot as nat };
                let h = old(self).history@;
                self.history@ = h.push(op);
                assert(h.push(op).drop_last() =~= h);
                assert(h.push(op).last() == op);
            }
            Ok(())
        } else {
            Err(GpuError::DeviceLost)
        }
    }

    /// Clear `slot`'s guard so it can gate a new submission. Allowed only
    /// once the previous use of the slot has been observed complete.
    pub fn reset_slot(&mut self, slot: usize)
        requires
            old(self).wf(),
            slot < old(self).depth(),
            old(self).statuses()[slot as int] is Ready,
        ensures
            final(self).wf(),
            final(self).depth() == old(self).depth(),
            final(self).frames_begun() == old(self).frames_begun(),
            final(self).current_slot() == old(self).current_slot(),
            slot_step(old(self).statuses(), SlotOp::Reset { slot: slot as nat }) == Some(
                final(self).statuses(),
            ),
            final(self).history() == old(self).history().push(
                SlotOp::Reset { slot: slot as nat },
            ),
    {
        self.slots.set(slot, SlotStatus::Armed);
        proof {
            let op = SlotOp::Reset { slot: slot as nat };
            let h = old(self).history@;
            self.history@ = h.push(op);
            assert(h.push(op).drop_last() =~= h);
            assert(h.push(op).last() == op);
        }
    }

    /// Note that a submission now owns `slot`: its guard will be signaled by
    /// the GPU when that work completes.
    pub fn mark_submitted(&mut self, slot: usize)
        requires
            old(self).wf(),
            slot < old(self).depth(),
            old(self).statuses()[slot as int] is Armed,
        ensures
            final(self).wf(),
            final(self).depth() == old(self).depth(),
            final(self).frames_begun() == old(self).frames_begun(),
            final(self).current_slot() == old(self).current_slot(),
            slot_step(old(self).statuses(), SlotOp::Submit { slot: slot as nat }) == Some(
                final(self).statuses(),
            ),
            final(self).history() == old(self).history().push(
                SlotOp::Submit { slot: slot as nat },
            ),
    {
        self.slots.set(slot, SlotStatus::Pending);
        proof {
            let op = SlotOp::Submit { slot: slot as nat };
            let h = old(self).history@;
            self.history@ = h.push(op);
            assert(h.push(op).drop_last() =~= h);
            assert(h.push(op).last() == op);
        }
    }

    /// The slot backing the frame most recently begun, as an index.
    pub fn current_index(&self) -> (r: usize)
        ensures
            r as nat == self.current_slot(),
    {
        self.current
    }

    /// The number of slots in the ring.
    pub fn slot_count(&self) -> (r: usize)
        ensures
            r as nat == self.depth(),
    {
        self.slots.len()
    }

    /// How many frames have been begun since startup.
    pub fn frames_begun_count(&self) -> (r: u64)
        ensures
            r as nat == self.frames_begun(),
    {
        self.frames_begun
    }

    /// Is a GPU time measurement meaningful for the frame in progress?
    /// During the first `depth` frames no prior submission exists for the
    /// slot, so there is no data rather than a zero that could pass for a
    /// very fast frame.
    pub fn gpu_timing_available(&self) -> (r: bool)
        requires
            self.wf(),
        ensures
            r <==> self.frames_begun() > self.depth(),
    {
        self.frames_begun > (self.slots.len() as u64)
    }
}

/// The slot-reuse law on the code itself: whatever state a [`FrameRing`] has
/// reached, wherever its history holds a reset of a slot, a successful wait
/// on that exact slot stands earlier in it, with no submission on the slot
/// in between.
pub proof fn lemma_ring_reset_preceded_by_wait(r: FrameRing, k: int, slot: nat)
    requires
        r.wf(),
        0 <= k < r.history().len(),
        r.history()[k] == (SlotOp::Reset { slot }),
    ensures
        exists|j: int|
            0 <= j < k && r.history()[j] == (SlotOp::WaitSuccess { slot }) && forall|m: int|
                j < m < k ==> r.history()[m] != (SlotOp::Submit { slot }),
{
    lemma_no_reset_without_wait(r.depth(), r.history(), k, slot);
}

/// Nanoseconds between two GPU timestamps, clamped at zero when the clock
/// samples arrive out of order.
pub fn timestamp_delta_nanos(start: u64, end: u64) -> (r: u64)
    ensures
        r == if end >= start {
            end - start
        } else {
            0
        },
{
    if end >= start {
        end - start
    } else {
        0
    }
}

} // verus!
