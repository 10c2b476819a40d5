//! Frame timing statistics: per-frame CPU/GPU times, a frames-per-second
//! counter, and bounded logs of recent frame times.
//!
//! All times are integer nanoseconds (logs keep milliseconds). GPU timings
//! are collected the frame after they were measured, so the CPU time of a
//! frame is derived from the previous frame's total and the GPU share.

use vstd::prelude::*;

verus! {

/// How much of the statistics overlay is shown.
#[derive(Debug, Clone, Copy, PartialEq, Eq, Structural)]
pub enum StatsDisplayMode {
    Hidden,
    Basic,
    Full,
}

impl StatsDisplayMode {
    /// The next mode in the toggle cycle: hidden, basic, full, and around.
    pub fn next(self) -> (r: Self)
        ensures
            self is Hidden ==> r is Basic,
            self is Basic ==> r is Full,
            self is Full ==> r is Hidden,
    {
        match self {
            Self::Hidden => Self::Basic,
            Self::Basic => Self::Full,
            Self::Full => Self::Hidden,
        }
    }
}

/// What a bounded log holds after a push: the new value at the back, the
/// oldest entry dropped once the log is full.
pub open spec fn bounded_push<T>(s: Seq<T>, max: nat, v: T) -> Seq<T> {
    if s.len() >= max {
        s.subrange(1, s.len() as int).push(v)
    } else {
        s.push(v)
    }
}

/// A first-in, first-out log that never grows beyond a fixed size.
#[derive(Debug)]
pub struct BoundedLog<T> {
    items: Vec<T>,
    max_size: usize,
}

impl<T> View for BoundedLog<T> {
    type V = Seq<T>;

    closed spec fn view(&self) -> Seq<T> {
        self.items@
    }
}

impl<T> BoundedLog<T> {
    /// The bound the log was created with.
    pub closed spec fn max_size(&self) -> nat {
        self.max_size as nat
    }

    /// The log never holds more than its bound.
    pub open spec fn wf(&self) -> bool {
        self@.len() <= self.max_size() && self.max_size() >= 1
    }

    /// An empty log that will hold at most `max_size` entries.
    pub fn new(max_size: usize) -> (r: Self)
        requires
            max_size >= 1,
        ensures
            r.wf(),
            r@ =~= Seq::<T>::empty(),
            r.max_size() == max_size,
    {
        BoundedLog { items: Vec::new(), max_size }
    }

    /// Append a value, dropping the oldest entry if the log is full.
    pub fn push(&mut self, value: T)
        requires
            old(self).wf(),
        ensures
            final(self).wf(),
            final(self).max_size() == old(self).max_size(),
            final(self)@ == bounded_push(old(self)@, old(self).max_size(), value),
    {
        if self.items.len() == self.max_size {
            self.items.remove(0);
        }
        self.items.push(value);
    }

    /// How many entries the log holds.
    pub fn len(&self) -> (r: usize)
        ensures
            r == self@.len(),
    {
        self.items.len()
    }

    /// The entries, oldest first.
    pub fn entries(&self) -> (r: &Vec<T>)
        ensures
            r@ == self@,
    {
        &self.items
    }
}

/// Saturating addition on `u64`, as a specification value.
pub open spec fn sat_add_u64(a: u64, b: u64) -> u64 {
    if a + b > u64::MAX {
        u64::MAX
    } else {
        (a + b) as u64
    }
}

/// Saturating subtraction on `u64`, as a specification value.
pub open spec fn sat_sub_u64(a: u64, b: u64) -> u64 {
    if a >= b {
        (a - b) as u64
    } else {
        0
    }
}

/// One second, in nanoseconds.
pub const ONE_SEC_NANOS: u64 = 1_000_000_000;

/// Nanoseconds per millisecond.
pub const NANOS_PER_MILLI: u64 = 1_000_000;

/// How many recent frames the time logs keep.
pub const MAX_LOG_SIZE: usize = 1000;

/// What the application reads each frame: the derived CPU and GPU shares of
/// the previous frame and the index of the current one.
#[derive(Debug, Clone, Copy, PartialEq, Eq, Structural)]
pub struct FrameStatistics {
    pub cpu_time_nanos: u64,
    pub gpu_time_nanos: u64,
    pub frame_index: u64,
}

/// The running statistics of the frame loop.
#[derive(Debug)]
pub struct FrameStats {
    /// Total time of the frame before the last completed one: GPU timings
    /// arrive one frame late, so the CPU share is derived against this.
    pub previous_frame_time: u64,
    /// Total time of the last completed frame, in nanoseconds.
    pub frame_time: u64,
    /// Derived CPU share of the frame the GPU timing belongs to.
    pub cpu_time: u64,
    /// Last reported GPU time, in nanoseconds.
    pub gpu_time: u64,
    /// Recent whole-frame times, in milliseconds.
    pub frame_time_ms_log: BoundedLog<u64>,
    /// Recent CPU shares, in milliseconds.
    pub cpu_time_ms_log: BoundedLog<u64>,
    /// Recent GPU times, in milliseconds.
    pub gpu_time_ms_log: BoundedLog<u64>,
    /// Frames accounted for since startup.
    pub total_frame_count: u64,
    /// Frames accounted for in the current one-second window.
    pub frame_count: u64,
    /// Frames counted in the last full one-second window.
    pub fps_counter: u64,
    /// Time accumulated toward the current one-second window.
    pub timer: u64,
}

impl FrameStats {
    /// The per-second counter never runs ahead of the total.
    pub open spec fn wf(&self) -> bool {
        &&& self.frame_count <= self.total_frame_count
        &&& self.frame_time_ms_log.wf() && self.frame_time_ms_log.max_size() == MAX_LOG_SIZE
        &&& self.cpu_time_ms_log.wf() && self.cpu_time_ms_log.max_size() == MAX_LOG_SIZE
        &&& self.gpu_time_ms_log.wf() && self.gpu_time_ms_log.max_size() == MAX_LOG_SIZE
    }

    /// Note the total duration of the frame that just ended; the one before
    /// moves into `previous_frame_time`.
    pub fn set_frame_time(&mut self, frame_time: u64)
        requires
            old(self).wf(),
        ensures
            final(self).wf(),
            final(self).previous_frame_time == old(self).frame_time,
            final(self).frame_time == frame_time,
            final(self).cpu_time == old(self).cpu_time,
            final(self).gpu_time == old(self).gpu_time,
            final(self).total_frame_count == old(self).total_frame_count,
            final(self).frame_count == old(self).frame_count,
            final(self).fps_counter == old(self).fps_counter,
            final(self).timer == old(self).timer,
            final(self).frame_time_ms_log@ == old(self).frame_time_ms_log@,
            final(self).cpu_time_ms_log@ == old(self).cpu_time_ms_log@,
            final(self).gpu_time_ms_log@ == old(self).gpu_time_ms_log@,
    {
        self.previous_frame_time = self.frame_time;
        self.frame_time = frame_time;
    }

    /// Note the GPU time reported for the previous frame.
    pub fn set_gpu_time(&mut self, gpu_time: u64)
        requires
            old(self).wf(),
        ensures
            final(self).wf(),
            final(self).gpu_time == gpu_time,
            final(self).previous_frame_time == old(self).previous_frame_time,
            final(self).frame_time == old(self).frame_time,
            final(self).cpu_time == old(self).cpu_time,
            final(self).total_frame_count == old(self).total_frame_count,
            final(self).frame_count == old(self).frame_count,
            final(self).fps_counter == old(self).fps_counter,
            final(self).timer == old(self).timer,
            final(self).frame_time_ms_log@ == old(self).frame_time_ms_log@,
            final(self).cpu_time_ms_log@ == old(self).cpu_time_ms_log@,
            final(self).gpu_time_ms_log@ == old(self).gpu_time_ms_log@,
    {
        self.gpu_time = gpu_time;
    }

    /// Account for one frame: derive the CPU share of the frame the GPU
    /// timing belongs to, log the times, count the frame, and close the
    /// one-second window when it is over.
    pub fn tick(&mut self)
        requires
            old(self).wf(),
            old(self).total_frame_count < u64::MAX,
        ensures
            final(self).wf(),
            final(self).cpu_time == sat_sub_u64(
                old(self).previous_frame_time,
                old(self).gpu_time,
            ),
            final(self).frame_time_ms_log@ == bounded_push(
                old(self).frame_time_ms_log@,
                MAX_LOG_SIZE as nat,
                (old(self).previous_frame_time / NANOS_PER_MILLI) as u64,
            ),
            final(self).cpu_time_ms_log@ == bounded_push(
                old(self).cpu_time_ms_log@,
                MAX_LOG_SIZE as nat,
                (sat_sub_u64(old(self).previous_frame_time, old(self).gpu_time)
                    / NANOS_PER_MILLI) as u64,
            ),
            final(self).gpu_time_ms_log@ == bounded_push(
                old(self).gpu_time_ms_log@,
                MAX_LOG_SIZE as nat,
                (old(self).gpu_time / NANOS_PER_MILLI) as u64,
            ),
            final(self).total_frame_count == old(self).total_frame_count + 1,
            final(self).previous_frame_time == old(self).previous_frame_time,
            final(self).frame_time == old(self).frame_time,
            final(self).gpu_time == old(self).gpu_time,
            ({
                let t = sat_add_u64(old(self).timer, old(self).frame_time);
                let counted = (old(self).frame_count + 1) as u64;
                if t > ONE_SEC_NANOS {
                    &&& final(self).fps_counter == counted
                    &&& final(self).frame_count == 0
                    &&& final(self).timer == t - ONE_SEC_NANOS
                } else {
                    &&& final(self).fps_counter == old(self).fps_counter
                    &&& final(self).frame_count == counted
                    &&& final(self).timer == t
                }
            }),
    {
        self.cpu_time = if self.previous_frame_time >= self.gpu_time {
            self.previous_frame_time - self.gpu_time
        } else {
            0
        };

        self.frame_time_ms_log.push(self.previous_frame_time / NANOS_PER_MILLI);
        self.cpu_time_ms_log.push(self.cpu_time / NANOS_PER_MILLI);
        self.gpu_time_ms_log.push(self.gpu_time / NANOS_PER_MILLI);

        self.total_frame_count = self.total_frame_count + 1;
        self.frame_count = self.frame_count + 1;
        self.timer = if self.timer > u64::MAX - self.frame_time {
            u64::MAX
        } else {
            self.timer + self.frame_time
        };

        if self.timer > ONE_SEC_NANOS {
            self.fps_counter = self.frame_count;
            self.frame_count = 0;
            self.timer = self.timer - ONE_SEC_NANOS;
        }
    }

    /// The statistics the application reads each frame.
    pub fn current_frame_statistics(&self) -> (r: FrameStatistics)
        ensures
            r.cpu_time_nanos == self.cpu_time,
            r.gpu_time_nanos == self.gpu_time,
            r.frame_index == self.total_frame_count,
    {
        FrameStatistics {
            cpu_time_nanos: self.cpu_time,
            gpu_time_nanos: self.gpu_time,
            frame_index: self.total_frame_count,
        }
    }
}

impl Default for FrameStats {
    /// Everything zero, the logs empty with their fixed bound.
    fn default() -> (r: Self)
        ensures
            r.wf(),
            r.previous_frame_time == 0,
            r.frame_time == 0,
            r.cpu_time == 0,
            r.gpu_time == 0,
            r.total_frame_count == 0,
            r.frame_count == 0,
            r.fps_counter == 0,
            r.timer == 0,
            r.frame_time_ms_log@ =~= Seq::<u64>::empty(),
            r.cpu_time_ms_log@ =~= Seq::<u64>::empty(),
            r.gpu_time_ms_log@ =~= Seq::<u64>::empty(),
    {
        FrameStats {
            previous_frame_time: 0,
            frame_time: 0,
            cpu_time: 0,
            gpu_time: 0,
            frame_time_ms_log: BoundedLog::new(MAX_LOG_SIZE),
            cpu_time_ms_log: BoundedLog::new(MAX_LOG_SIZE),
            gpu_time_ms_log: BoundedLog::new(MAX_LOG_SIZE),
            total_frame_count: 0,
            frame_count: 0,
            fps_counter: 0,
            timer: 0,
        }
    }
}

} // verus!
