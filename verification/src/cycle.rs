//! The frame loop proper: one strictly sequential state machine per frame,
//! plus the recreation and shutdown paths that run between frames.
//!
//! The shell drives it in lock step. Each method either asks for the next
//! outside action (advance, wait, acquire, record, present, recreate, wait
//! idle) or records what that action came back with; the contracts pin the
//! transition taken for every possible answer.

use vstd::prelude::*;

use crate::errors::GpuError;
use crate::ring::{
    lemma_ring_reset_preceded_by_wait, slot_step, slots_initial, FrameRing, SlotOp, SlotStatus,
};
use crate::swapchain::{
    caps_allow_double_buffering, plan_swapchain, planned_image_count, SurfaceCaps, SurfaceFormat,
    SwapchainPlan, SwapchainState,
};

verus! {

/// Where the loop stands. Within a frame the phases run
/// `Idle -> SlotWait -> Acquiring -> Recording -> Presenting -> Idle`;
/// a stale surface diverts the frame to `Dirty`, and recreation, shutdown
/// and device loss have phases of their own.
#[derive(Debug, Clone, Copy, PartialEq, Eq, Structural)]
pub enum FramePhase {
    /// Between frames; the swapchain is serviceable.
    Idle,
    /// A frame has begun; the shell must wait on the slot's completion guard.
    SlotWait,
    /// The slot is ready; the shell must ask the surface for an image.
    Acquiring,
    /// An image is acquired and the guard reset; the shell records and
    /// submits the frame's work.
    Recording,
    /// The work is submitted; the shell must queue the present.
    Presenting,
    /// The surface went stale (or a recreation attempt failed recoverably);
    /// the swapchain must be recreated before the next frame.
    Dirty,
    /// A recreation is planned; the shell must wait for the device to go
    /// idle so no in-flight work references the old images.
    RecreateIdle,
    /// The device is idle; the creation call is outstanding.
    Recreating,
    /// Shutdown was requested; the shell must wait for the device to go
    /// idle before anything is destroyed.
    ShuttingDown,
    /// The device is known idle; teardown may proceed.
    Terminated,
    /// Unrecoverable device loss: only full teardown is correct.
    Lost,
}

/// What the surface answered when asked for the next presentable image.
#[derive(Debug, Clone, Copy, PartialEq, Eq, Structural)]
pub enum AcquireOutcome {
    /// An image is available at `index`.
    Acquired { index: u32 },
    /// The surface is out of date (or the wait timed out): recreate.
    Stale,
    /// The driver failed outright.
    Failed(GpuError),
}

/// What the present call answered.
#[derive(Debug, Clone, Copy, PartialEq, Eq, Structural)]
pub enum PresentOutcome {
    /// The image was queued; `suboptimal` says the surface no longer matches
    /// exactly and should be recreated at the next boundary.
    Presented { suboptimal: bool },
    /// The surface is out of date: recreate.
    Stale,
    /// The driver failed outright.
    Failed(GpuError),
}

/// What the swapchain creation call answered.
#[derive(Debug, Clone, Copy, PartialEq, Eq, Structural)]
pub enum RecreateOutcome {
    /// A new image set exists, with this many images.
    Created { image_count: u32 },
    /// The driver failed; out-of-memory leaves the next resize to retry.
    Failed(GpuError),
}

/// What is pending after a format request: the new request, whatever was
/// pending before.
pub open spec fn requested(
    pending: Option<SurfaceFormat>,
    format: SurfaceFormat,
) -> Option<SurfaceFormat> {
    Some(format)
}

/// The frame synchronization core: ring, swapchain state, the pending
/// format request, and the phase of the machine.
pub struct FrameLoop {
    ring: FrameRing,
    swapchain: SwapchainState,
    pending_format: Option<SurfaceFormat>,
    pending_plan: Option<SwapchainPlan>,
    phase: FramePhase,
    acquired: u32,
    main_pass_recorded: bool,
    overlay_pass_recorded: bool,
}

impl FrameLoop {
    /// The slot ring.
    pub closed spec fn ring(&self) -> FrameRing {
        self.ring
    }

    /// The image set currently presentable.
    pub closed spec fn swapchain(&self) -> SwapchainState {
        self.swapchain
    }

    /// The format change requested by the application and not yet consumed.
    pub closed spec fn pending_format(&self) -> Option<SurfaceFormat> {
        self.pending_format
    }

    /// The creation plan of a recreation in progress.
    pub closed spec fn pending_plan(&self) -> Option<SwapchainPlan> {
        self.pending_plan
    }

    /// The phase of the machine.
    pub closed spec fn phase(&self) -> FramePhase {
        self.phase
    }

    /// The index of the image acquired for the frame in progress.
    pub closed spec fn acquired_index(&self) -> u32 {
        self.acquired
    }

    /// Has the main pass of the frame in progress been recorded?
    pub closed spec fn main_pass_recorded(&self) -> bool {
        self.main_pass_recorded
    }

    /// Has the overlay pass of the frame in progress been recorded?
    pub closed spec fn overlay_pass_recorded(&self) -> bool {
        self.overlay_pass_recorded
    }

    /// The machine's invariant: a sound ring and image set, a plan exactly
    /// while a recreation is in progress, an acquired image inside the image
    /// set while one is held, the overlay pass never recorded before the
    /// main pass, and the slot protocol in the phase it should be: the
    /// current slot is `Ready` when an acquire is outstanding and `Armed`
    /// while recording, and no slot is `Armed` in any other phase — except
    /// after the machine is `Lost`, when nothing runs anyway.
    pub open spec fn wf(&self) -> bool {
        &&& self.ring().wf()
        &&& self.swapchain().wf()
        &&& ((self.phase() is RecreateIdle || self.phase() is Recreating) <==> self.pending_plan()
            is Some)
        &&& (self.pending_plan() matches Some(p) ==> p.wf())
        &&& ((self.phase() is Recording || self.phase() is Presenting)
            ==> self.acquired_index() < self.swapchain().image_count)
        &&& (self.phase() is Acquiring ==> self.ring().statuses()[self.ring().current_slot() as int]
            is Ready)
        &&& (self.phase() is Recording ==> self.ring().statuses()[self.ring().current_slot() as int]
            is Armed)
        &&& (forall|i: int|
            0 <= i < self.ring().depth() && self.ring().statuses()[i] is Armed ==> ((self.phase()
                is Recording && i == self.ring().current_slot()) || self.phase() is Lost))
        &&& (self.overlay_pass_recorded() ==> self.main_pass_recorded())
    }

    /// A fresh loop over an already created image set: nothing begun,
    /// nothing pending.
    pub fn new(depth: usize, swapchain: SwapchainState) -> (r: Self)
        requires
            2 <= depth,
            swapchain.wf(),
        ensures
            r.wf(),
            r.phase() is Idle,
            r.swapchain() == swapchain,
            r.pending_format() is None,
            r.ring().depth() == depth,
            r.ring().frames_begun() == 0,
            r.ring().statuses() =~= slots_initial(depth as nat),
    {
        FrameLoop {
            ring: FrameRing::new(depth),
            swapchain,
            pending_format: None,
            pending_plan: None,
            phase: FramePhase::Idle,
            acquired: 0,
            main_pass_recorded: false,
            overlay_pass_recorded: false,
        }
    }

    /// Ask for a surface format change. The request is pending until the
    /// next frame boundary; a newer request replaces an older one.
    pub fn request_format_change(&mut self, format: SurfaceFormat)
        requires
            old(self).wf(),
        ensures
            final(self).wf(),
            final(self).pending_format() == requested(old(self).pending_format(), format),
            final(self).phase() == old(self).phase(),
            final(self).ring() == old(self).ring(),
            final(self).swapchain() == old(self).swapchain(),
            final(self).pending_plan() == old(self).pending_plan(),
            final(self).acquired_index() == old(self).acquired_index(),
    {
        self.pending_format = Some(format);
    }

    /// Note a window resize: the image set no longer matches the surface, so
    /// the next frame boundary must recreate it.
    pub fn note_resize(&mut self)
        requires
            old(self).wf(),
            old(self).phase() is Idle || old(self).phase() is Dirty,
        ensures
            final(self).wf(),
            final(self).phase() is Dirty,
            final(self).ring() == old(self).ring(),
            final(self).swapchain() == old(self).swapchain(),
            final(self).pending_format() == old(self).pending_format(),
            final(self).pending_plan() == old(self).pending_plan(),
    {
        self.phase = FramePhase::Dirty;
    }

    /// Must the swapchain be serviced before the next frame? True after a
    /// stale frame and while a format change is pending.
    pub fn needs_service(&self) -> (r: bool)
        ensures
            r <==> (self.phase() is Dirty || self.pending_format() is Some),
    {
        self.phase == FramePhase::Dirty || self.pending_format.is_some()
    }

    /// The format a recreation at this boundary would use: the pending
    /// request if there is one, else the format already in use.
    pub open spec fn service_format(&self) -> SurfaceFormat {
        match self.pending_format() {
            Some(f) => f,
            None => self.swapchain().format,
        }
    }

    /// The frame boundary's recreation decision. Consumes the pending format
    /// request — even when the window currently has no area, as the next
    /// resize will trigger this path again. Returns the plan the shell must
    /// create a swapchain from, or `None` when nothing is to be done now.
    pub fn service_swapchain(&mut self, caps: SurfaceCaps, width: u32, height: u32) -> (r: Option<
        SwapchainPlan,
    >)
        requires
            old(self).wf(),
            old(self).phase() is Idle || old(self).phase() is Dirty,
        ensures
            final(self).wf(),
            final(self).ring() == old(self).ring(),
            final(self).swapchain() == old(self).swapchain(),
            final(self).pending_format() is None,
            !(old(self).phase() is Dirty || old(self).pending_format() is Some) ==> r is None
                && final(self).phase() == old(self).phase() && final(self).pending_plan() is None,
            (old(self).phase() is Dirty || old(self).pending_format() is Some) ==> {
                &&& r is Some <==> (width > 0 && height > 0 && caps_allow_double_buffering(caps))
                &&& r matches Some(plan) ==> plan == (SwapchainPlan {
                    image_count: planned_image_count(caps) as u32,
                    width,
                    height,
                    format: old(self).service_format(),
                }) && final(self).phase() is RecreateIdle && final(self).pending_plan() == Some(
                    plan,
                )
                &&& r is None ==> final(self).phase() == old(self).phase()
                    && final(self).pending_plan() is None
            },
    {
        if self.phase == FramePhase::Dirty || self.pending_format.is_some() {
            let format = match self.pending_format {
                Some(f) => f,
                None => self.swapchain.format,
            };
            self.pending_format = None;
            match plan_swapchain(caps, width, height, format) {
                Some(plan) => {
                    self.pending_plan = Some(plan);
                    self.phase = FramePhase::RecreateIdle;
                    Some(plan)
                },
                None => None,
            }
        } else {
            None
        }
    }

    /// Record the outcome of the device-idle wait that precedes recreation:
    /// no in-flight work may reference the old images when they go away.
    pub fn on_recreate_idle(&mut self, wait_ok: bool) -> (r: Result<(), GpuError>)
        requires
            old(self).wf(),
            old(self).phase() is RecreateIdle,
        ensures
            final(self).wf(),
            final(self).ring() == old(self).ring(),
            final(self).swapchain() == old(self).swapchain(),
            final(self).pending_format() == old(self).pending_format(),
            r is Ok <==> wait_ok,
            wait_ok ==> final(self).phase() is Recreating && final(self).pending_plan()
                == old(self).pending_plan(),
            !wait_ok ==> final(self).phase() is Lost && r == Err::<(), GpuError>(
                GpuError::DeviceLost,
            ),
    {
        if wait_ok {
            self.phase = FramePhase::Recreating;
            Ok(())
        } else {
            self.pending_plan = None;
            self.phase = FramePhase::Lost;
            Err(GpuError::DeviceLost)
        }
    }

    /// Adopt (or refuse) what the creation call produced. On success the new
    /// image set always holds at least two images; an answer below two would
    /// break that and is treated as an unrecoverable driver fault. A failed
    /// creation keeps the loop dirty so a later resize retries, except for
    /// device loss.
    pub fn complete_recreation(&mut self, outcome: RecreateOutcome) -> (r: Result<(), GpuError>)
        requires
            old(self).wf(),
            old(self).phase() is Recreating,
        ensures
            final(self).wf(),
            final(self).ring() == old(self).ring(),
            final(self).pending_format() == old(self).pending_format(),
            final(self).pending_plan() is None,
            outcome matches RecreateOutcome::Created { image_count } ==> (image_count >= 2 ==> {
                &&& r is Ok
                &&& final(self).phase() is Idle
                &&& final(self).swapchain() == (SwapchainState {
                    image_count,
                    width: old(self).pending_plan()->Some_0.width,
                    height: old(self).pending_plan()->Some_0.height,
                    format: old(self).pending_plan()->Some_0.format,
                })
                &&& final(self).swapchain().wf()
            }) && (image_count < 2 ==> r == Err::<(), GpuError>(GpuError::DeviceLost)
                && final(self).phase() is Lost && final(self).swapchain() == old(self).swapchain()),
            outcome matches RecreateOutcome::Failed(e) ==> r == Err::<(), GpuError>(e)
                && final(self).swapchain() == old(self).swapchain() && (if e is DeviceLost {
                final(self).phase() is Lost
            } else {
                final(self).phase() is Dirty
            }),
    {
        match outcome {
            RecreateOutcome::Created { image_count } => {
                let plan = self.pending_plan.unwrap();
                self.pending_plan = None;
                if image_count >= 2 {
                    self.swapchain = SwapchainState {
                        image_count,
                        width: plan.width,
                        height: plan.height,
                        format: plan.format,
                    };
                    self.phase = FramePhase::Idle;
                    Ok(())
                } else {
                    self.phase = FramePhase::Lost;
                    Err(GpuError::DeviceLost)
                }
            },
            RecreateOutcome::Failed(e) => {
                self.pending_plan = None;
                self.phase = if matches!(e, GpuError::DeviceLost) {
                    FramePhase::Lost
                } else {
                    FramePhase::Dirty
                };
                Err(e)
            },
        }
    }

    /// Begin a frame: move the ring to the next slot. Frame `f` always lands
    /// on slot `f mod depth`. The shell must now block on that slot's guard.
    pub fn begin_frame(&mut self) -> (slot: usize)
        requires
            old(self).wf(),
            old(self).phase() is Idle,
            old(self).ring().frames_begun() < u64::MAX,
        ensures
            final(self).wf(),
            final(self).phase() is SlotWait,
            slot as nat == old(self).ring().frames_begun() % old(self).ring().depth(),
            final(self).ring().current_slot() == slot as nat,
            final(self).ring().frames_begun() == old(self).ring().frames_begun() + 1,
            final(self).ring().statuses() == old(self).ring().statuses(),
            final(self).ring().depth() == old(self).ring().depth(),
            final(self).swapchain() == old(self).swapchain(),
            final(self).pending_format() == old(self).pending_format(),
    {
        let slot = self.ring.advance();
        self.phase = FramePhase::SlotWait;
        slot
    }

    /// Record the outcome of the blocking wait on the current slot's guard.
    /// Success makes the slot ready for reuse; failure is device loss.
    pub fn on_slot_wait(&mut self, wait_ok: bool) -> (r: Result<(), GpuError>)
        requires
            old(self).wf(),
            old(self).phase() is SlotWait,
        ensures
            final(self).wf(),
            final(self).ring().depth() == old(self).ring().depth(),
            final(self).ring().frames_begun() == old(self).ring().frames_begun(),
            final(self).ring().current_slot() == old(self).ring().current_slot(),
            final(self).swapchain() == old(self).swapchain(),
            final(self).pending_format() == old(self).pending_format(),
            r is Ok <==> wait_ok,
            wait_ok ==> final(self).phase() is Acquiring && slot_step(
                old(self).ring().statuses(),
                SlotOp::WaitSuccess { slot: old(self).ring().current_slot() },
            ) == Some(final(self).ring().statuses()),
            !wait_ok ==> final(self).phase() is Lost && final(self).ring().statuses()
                == old(self).ring().statuses() && r == Err::<(), GpuError>(
                GpuError::DeviceLost,
            ),
    {
        let slot = self.ring.current_index();
        let waited = self.ring.wait_for_slot_ready(slot, wait_ok);
        match waited {
            Ok(_) => {
                self.phase = FramePhase::Acquiring;
                proof {
                    let olds = old(self).ring().statuses();
                    let news = self.ring().statuses();
                    let cur = old(self).ring().current_slot() as int;
                    assert(news == olds.update(cur, SlotStatus::Ready));
                    assert forall|i: int|
                        0 <= i < self.ring().depth() && news[i] is Armed implies (self.phase()
                        is Recording && i == self.ring().current_slot()) by {
                        if i != cur {
                            assert(news[i] == olds[i]);
                            assert(!(olds[i] is Armed));
                        }
                    }
                }
                Ok(())
            },
            Err(e) => {
                self.phase = FramePhase::Lost;
                Err(e)
            },
        }
    }

    /// Is a GPU time measurement meaningful for the frame in progress? The
    /// first `depth` frames have no prior submission on their slot, so the
    /// answer is no data at all rather than a zero that could pass for a
    /// very fast frame.
    pub fn gpu_timing_available(&self) -> (r: bool)
        requires
            self.wf(),
        ensures
            r <==> self.ring().frames_begun() > self.ring().depth(),
    {
        self.ring.gpu_timing_available()
    }

    /// Record what the acquire call answered. A valid image moves the frame
    /// on to recording, and only then is the slot's guard reset; a stale
    /// surface abandons the frame as `Dirty`; out-of-memory abandons the
    /// frame but keeps the loop alive; an out-of-range image index is an
    /// unrecoverable driver fault.
    pub fn on_acquire(&mut self, outcome: AcquireOutcome) -> (r: Result<(), GpuError>)
        requires
            old(self).wf(),
            old(self).phase() is Acquiring,
        ensures
            final(self).wf(),
            final(self).ring().depth() == old(self).ring().depth(),
            final(self).ring().frames_begun() == old(self).ring().frames_begun(),
            final(self).ring().current_slot() == old(self).ring().current_slot(),
            final(self).swapchain() == old(self).swapchain(),
            final(self).pending_format() == old(self).pending_format(),
            outcome matches AcquireOutcome::Acquired { index } ==> (index < old(
                self,
            ).swapchain().image_count ==> {
                &&& r is Ok
                &&& final(self).phase() is Recording
                &&& final(self).acquired_index() == index
                &&& !final(self).main_pass_recorded()
                &&& !final(self).overlay_pass_recorded()
                &&& slot_step(
                    old(self).ring().statuses(),
                    SlotOp::Reset { slot: old(self).ring().current_slot() },
                ) == Some(final(self).ring().statuses())
            }) && (index >= old(self).swapchain().image_count ==> r == Err::<(), GpuError>(
                GpuError::DeviceLost,
            ) && final(self).phase() is Lost && final(self).ring().statuses() == old(
                self,
            ).ring().statuses()),
            outcome is Stale ==> r is Ok && final(self).phase() is Dirty
                && final(self).ring().statuses() == old(self).ring().statuses(),
            outcome matches AcquireOutcome::Failed(e) ==> r == Err::<(), GpuError>(e)
                && final(self).ring().statuses() == old(self).ring().statuses() && (if e
                is DeviceLost {
                final(self).phase() is Lost
            } else {
                final(self).phase() is Idle
            }),
    {
        match outcome {
            AcquireOutcome::Acquired { index } => {
                if index < self.swapchain.image_count {
                    let slot = self.ring.current_index();
                    self.ring.reset_slot(slot);
                    self.acquired = index;
                    self.main_pass_recorded = false;
                    self.overlay_pass_recorded = false;
                    self.phase = FramePhase::Recording;
                    proof {
                        let olds = old(self).ring().statuses();
                        let news = self.ring().statuses();
                        let cur = old(self).ring().current_slot() as int;
                        assert(news == olds.update(cur, SlotStatus::Armed));
                        assert forall|i: int|
                            0 <= i < self.ring().depth() && news[i] is Armed implies (self.phase()
                            is Recording && i == self.ring().current_slot()) by {
                            if i != cur {
                                assert(news[i] == olds[i]);
                                assert(!(olds[i] is Armed));
                            }
                        }
                    }
                    Ok(())
                } else {
                    self.phase = FramePhase::Lost;
                    Err(GpuError::DeviceLost)
                }
            },
            AcquireOutcome::Stale => {
                self.phase = FramePhase::Dirty;
                Ok(())
            },
            AcquireOutcome::Failed(e) => {
                self.phase = if matches!(e, GpuError::DeviceLost) {
                    FramePhase::Lost
                } else {
                    FramePhase::Idle
                };
                Err(e)
            },
        }
    }

    /// Note that the main pass of the frame in progress has been recorded.
    /// It always comes first, and once per frame.
    pub fn note_main_pass_recorded(&mut self)
        requires
            old(self).wf(),
            old(self).phase() is Recording,
            !old(self).main_pass_recorded(),
        ensures
            final(self).wf(),
            final(self).main_pass_recorded(),
            !final(self).overlay_pass_recorded(),
            final(self).phase() == old(self).phase(),
            final(self).ring() == old(self).ring(),
            final(self).swapchain() == old(self).swapchain(),
            final(self).pending_format() == old(self).pending_format(),
            final(self).acquired_index() == old(self).acquired_index(),
    {
        self.main_pass_recorded = true;
        self.overlay_pass_recorded = false;
    }

    /// Note that the overlay pass of the frame in progress has been
    /// recorded. It comes after the main pass, and once per frame.
    pub fn note_overlay_pass_recorded(&mut self)
        requires
            old(self).wf(),
            old(self).phase() is Recording,
            old(self).main_pass_recorded(),
            !old(self).overlay_pass_recorded(),
        ensures
            final(self).wf(),
            final(self).main_pass_recorded(),
            final(self).overlay_pass_recorded(),
            final(self).phase() == old(self).phase(),
            final(self).ring() == old(self).ring(),
            final(self).swapchain() == old(self).swapchain(),
            final(self).pending_format() == old(self).pending_format(),
            final(self).acquired_index() == old(self).acquired_index(),
    {
        self.overlay_pass_recorded = true;
    }

    /// The image index the frame in progress rendered into.
    pub fn acquired_image(&self) -> (r: u32)
        requires
            self.wf(),
            self.phase() is Recording || self.phase() is Presenting,
        ensures
            r == self.acquired_index(),
            r < self.swapchain().image_count,
    {
        self.acquired
    }

    /// Record the outcome of submitting the recorded work, which must hold
    /// both passes, main before overlay. On success the slot's guard now
    /// belongs to the GPU. On failure the guard was already reset with
    /// nothing submitted to signal it, so the slot can never be waited on
    /// again: the loop is torn down rather than left to hang.
    pub fn on_submitted(&mut self, outcome: Result<(), GpuError>) -> (r: Result<(), GpuError>)
        requires
            old(self).wf(),
            old(self).phase() is Recording,
            old(self).main_pass_recorded(),
            old(self).overlay_pass_recorded(),
        ensures
            final(self).wf(),
            final(self).ring().depth() == old(self).ring().depth(),
            final(self).ring().frames_begun() == old(self).ring().frames_begun(),
            final(self).ring().current_slot() == old(self).ring().current_slot(),
            final(self).swapchain() == old(self).swapchain(),
            final(self).pending_format() == old(self).pending_format(),
            final(self).acquired_index() == old(self).acquired_index(),
            outcome is Ok ==> {
                &&& r is Ok
                &&& final(self).phase() is Presenting
                &&& slot_step(
                    old(self).ring().statuses(),
                    SlotOp::Submit { slot: old(self).ring().current_slot() },
                ) == Some(final(self).ring().statuses())
            },
            outcome matches Err(e) ==> r == Err::<(), GpuError>(e) && final(self).phase() is Lost
                && final(self).ring().statuses() == old(self).ring().statuses(),
    {
        match outcome {
            Ok(_) => {
                let slot = self.ring.current_index();
                self.ring.mark_submitted(slot);
                self.phase = FramePhase::Presenting;
                proof {
                    let olds = old(self).ring().statuses();
                    let news = self.ring().statuses();
                    let cur = old(self).ring().current_slot() as int;
                    assert(news == olds.update(cur, SlotStatus::Pending));
                    assert forall|i: int|
                        0 <= i < self.ring().depth() implies !(self.ring().statuses()[i]
                        is Armed) by {
                        if i != cur {
                            assert(news[i] == olds[i]);
                            assert(!(olds[i] is Armed));
                        } else {
                            assert(news[i] is Pending);
                        }
                    }
                }
                Ok(())
            },
            Err(e) => {
                self.phase = FramePhase::Lost;
                Err(e)
            },
        }
    }

    /// Record what the present call answered. A clean present completes the
    /// frame; a suboptimal or stale surface completes it `Dirty` so the next
    /// boundary recreates the swapchain.
    pub fn on_present(&mut self, outcome: PresentOutcome) -> (r: Result<(), GpuError>)
        requires
            old(self).wf(),
            old(self).phase() is Presenting,
        ensures
            final(self).wf(),
            final(self).ring() == old(self).ring(),
            final(self).swapchain() == old(self).swapchain(),
            final(self).pending_format() == old(self).pending_format(),
            outcome matches PresentOutcome::Presented { suboptimal } ==> r is Ok && (if suboptimal {
                final(self).phase() is Dirty
            } else {
                final(self).phase() is Idle
            }),
            outcome is Stale ==> r is Ok && final(self).phase() is Dirty,
            outcome matches PresentOutcome::Failed(e) ==> r == Err::<(), GpuError>(e)
                && final(self).phase() is Lost,
    {
        match outcome {
            PresentOutcome::Presented { suboptimal } => {
                self.phase = if suboptimal {
                    FramePhase::Dirty
                } else {
                    FramePhase::Idle
                };
                Ok(())
            },
            PresentOutcome::Stale => {
                self.phase = FramePhase::Dirty;
                Ok(())
            },
            PresentOutcome::Failed(e) => {
                self.phase = FramePhase::Lost;
                Err(e)
            },
        }
    }

    /// Begin shutdown between frames. Nothing may be destroyed yet: the GPU
    /// may still be working through earlier submissions.
    pub fn request_shutdown(&mut self)
        requires
            old(self).wf(),
            old(self).phase() is Idle || old(self).phase() is Dirty,
        ensures
            final(self).wf(),
            final(self).phase() is ShuttingDown,
            !final(self).may_destroy(),
            final(self).ring() == old(self).ring(),
            final(self).swapchain() == old(self).swapchain(),
    {
        self.phase = FramePhase::ShuttingDown;
    }

    /// Record the outcome of the device-idle wait during shutdown. Only
    /// after it succeeds — every pending submission retired — may objects
    /// be destroyed.
    pub fn on_shutdown_idle(&mut self, wait_ok: bool) -> (r: Result<(), GpuError>)
        requires
            old(self).wf(),
            old(self).phase() is ShuttingDown,
        ensures
            final(self).wf(),
            final(self).ring() == old(self).ring(),
            final(self).swapchain() == old(self).swapchain(),
            r is Ok <==> wait_ok,
            wait_ok ==> final(self).phase() is Terminated && final(self).may_destroy(),
            !wait_ok ==> final(self).phase() is Lost && r == Err::<(), GpuError>(
                GpuError::DeviceLost,
            ),
    {
        if wait_ok {
            self.phase = FramePhase::Terminated;
            Ok(())
        } else {
            self.phase = FramePhase::Lost;
            Err(GpuError::DeviceLost)
        }
    }

    /// May GPU objects be destroyed? Only once the device is known idle —
    /// after a completed shutdown wait — or once the device is lost, when
    /// teardown is the only correct move anyway.
    pub open spec fn may_destroy(&self) -> bool {
        self.phase() is Terminated || self.phase() is Lost
    }

    /// Exec view of [`Self::may_destroy`].
    pub fn destruction_allowed(&self) -> (r: bool)
        ensures
            r <==> self.may_destroy(),
    {
        self.phase == FramePhase::Terminated || self.phase == FramePhase::Lost
    }

    /// The phase the machine is in.
    pub fn current_phase(&self) -> (r: FramePhase)
        ensures
            r == self.phase(),
    {
        self.phase
    }

    /// The number of presentable images in the current set.
    pub fn image_count(&self) -> (r: u32)
        ensures
            r == self.swapchain().image_count,
    {
        self.swapchain.image_count
    }

    /// The surface format of the current image set.
    pub fn surface_format(&self) -> (r: SurfaceFormat)
        ensures
            r == self.swapchain().format,
    {
        self.swapchain.format
    }

    /// The slot backing the frame most recently begun.
    pub fn current_slot_index(&self) -> (r: usize)
        ensures
            r as nat == self.ring().current_slot(),
    {
        self.ring.current_index()
    }
}

/// Asking for the same format twice before a frame boundary leaves exactly
/// what one request leaves, and the boundary that follows consumes it once
/// ([`FrameLoop::service_swapchain`] clears the request whenever it runs):
/// one recreation results, with that format.
pub proof fn lemma_repeated_format_request_absorbed(
    pending: Option<SurfaceFormat>,
    x: SurfaceFormat,
)
    ensures
        requested(requested(pending, x), x) == requested(pending, x),
        requested(pending, x) == Some(x),
{
}

/// Of two format requests before one frame boundary, the later wins: the
/// boundary recreates once, with the second format.
pub proof fn lemma_latest_format_request_wins(
    pending: Option<SurfaceFormat>,
    first: SurfaceFormat,
    second: SurfaceFormat,
)
    ensures
        requested(requested(pending, first), second) == Some(second),
{
}

/// The slot-reuse law lifted to the frame loop: in the history of any
/// reachable loop state, a slot's guard was only ever reset after a wait on
/// that exact slot succeeded, with no submission on the slot in between.
pub proof fn lemma_loop_reset_preceded_by_wait(l: FrameLoop, k: int, slot: nat)
    requires
        l.wf(),
        0 <= k < l.ring().history().len(),
        l.ring().history()[k] == (SlotOp::Reset { slot }),
    ensures
        exists|j: int|
            0 <= j < k && l.ring().history()[j] == (SlotOp::WaitSuccess { slot }) && forall|m: int|
                j < m < k ==> l.ring().history()[m] != (SlotOp::Submit { slot }),
{
    lemma_ring_reset_preceded_by_wait(l.ring(), k, slot);
}

/// The format a boundary uses: the pending request when there is one, the
/// format already in use otherwise.
pub proof fn lemma_service_format_choice(l: FrameLoop)
    ensures
        l.pending_format() matches Some(f) ==> l.service_format() == f,
        l.pending_format() is None ==> l.service_format() == l.swapchain().format,
{
}

} // verus!
