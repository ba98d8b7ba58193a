//! Frame pacing: how long to sleep after a frame, and when to report the
//! frame rate. Times are readings of one clock, in nanoseconds.

use vstd::prelude::*;

verus! {

/// Nanoseconds in a second: the length of a reporting window.
pub const NANOS_PER_SECOND: u64 = 1_000_000_000;

/// `a - b`, or 0 where `b` is the larger.
pub open spec fn span(a: u64, b: u64) -> u64 {
    if a >= b {
        (a - b) as u64
    } else {
        0
    }
}

/// The frame rate over a reporting window: frames per second, rounded down.
pub open spec fn frames_per_second(frames: u64, window: u64) -> int {
    frames * NANOS_PER_SECOND / (window as int)
}

/// A report on the reporting window that just ended.
#[derive(Clone, Copy, Debug, PartialEq, Eq, Structural)]
pub struct FrameReport {
    /// Frames completed per second of the window, rounded down.
    pub fps: u64,
    /// Nanoseconds from the start of the frame before the last to the start
    /// of the last.
    pub frame_time: u64,
}

/// What to do at the end of a frame.
#[derive(Clone, Copy, Debug, PartialEq, Eq)]
pub struct Pace {
    /// Nanoseconds to sleep before the next frame.
    pub sleep: u64,
    /// The report, if a reporting window just ended.
    pub report: Option<FrameReport>,
}

/// The clockwork of the frame loop.
#[derive(Clone, Copy, Debug)]
pub struct FramePacer {
    target: u64,
    frame_start: u64,
    window_start: u64,
    frames: u64,
    frame_time: u64,
}

impl FramePacer {
    /// The time a frame should take, sleep included.
    pub closed spec fn target(&self) -> u64 {
        self.target
    }

    /// When the current frame began.
    pub closed spec fn frame_start(&self) -> u64 {
        self.frame_start
    }

    /// When the current reporting window began.
    pub closed spec fn window_start(&self) -> u64 {
        self.window_start
    }

    /// Frames completed in the current reporting window.
    pub closed spec fn frames(&self) -> u64 {
        self.frames
    }

    /// Nanoseconds from the start of the frame before to the start of the
    /// current one.
    pub closed spec fn frame_time(&self) -> u64 {
        self.frame_time
    }

    /// A frame always gets some time.
    #[verifier::type_invariant]
    pub open spec fn timed(&self) -> bool {
        self.target() > 0
    }

    /// Whether a frame that ends at `now` ends the reporting window.
    pub open spec fn reports(&self, now: u64) -> bool {
        span(now, self.window_start()) >= NANOS_PER_SECOND
    }

    /// The frames completed in the reporting window once one more is.
    pub open spec fn completed(&self) -> u64 {
        if self.frames() < u64::MAX {
            (self.frames() + 1) as u64
        } else {
            u64::MAX
        }
    }

    /// What a frame that ends at `now` is told.
    pub open spec fn pace(&self, now: u64) -> Pace {
        Pace {
            sleep: span(self.target(), span(now, self.frame_start())),
            report: if self.reports(now) {
                Some(
                    FrameReport {
                        fps: frames_per_second(
                            self.completed(),
                            span(now, self.window_start()),
                        ) as u64,
                        frame_time: self.frame_time(),
                    },
                )
            } else {
                None
            },
        }
    }

    /// `next` is this pacer after a frame that ended at `now`.
    pub open spec fn ended(&self, now: u64, next: FramePacer) -> bool {
        &&& next.target() == self.target()
        &&& next.frame_start() == self.frame_start()
        &&& next.frame_time() == self.frame_time()
        &&& next.window_start() == if self.reports(now) {
            now
        } else {
            self.window_start()
        }
        &&& next.frames() == if self.reports(now) {
            0
        } else {
            self.completed()
        }
    }

    /// `next` is this pacer after a frame that began at `now`.
    pub open spec fn begun(&self, now: u64, next: FramePacer) -> bool {
        &&& next.target() == self.target()
        &&& next.frame_start() == now
        &&& next.frame_time() == span(now, self.frame_start())
        &&& next.window_start() == self.window_start()
        &&& next.frames() == self.frames()
    }

    /// A pacer for frames of `target_frame_time` nanoseconds, whose first
    /// frame and first reporting window begin at `now`. A frame must get
    /// some time: there is no pacer for a frame time of 0.
    pub fn new(target_frame_time: u64, now: u64) -> (pacer: Option<FramePacer>)
        ensures
            pacer is Some <==> target_frame_time > 0,
            pacer matches Some(p) ==> {
                &&& p.target() == target_frame_time
                &&& p.frame_start() == now
                &&& p.window_start() == now
                &&& p.frames() == 0
                &&& p.frame_time() == 0
            },
    {
        if target_frame_time == 0 {
            None
        } else {
            Some(
                FramePacer {
                    target: target_frame_time,
                    frame_start: now,
                    window_start: now,
                    frames: 0,
                    frame_time: 0,
                },
            )
        }
    }

    /// The time a frame should take, sleep included.
    pub fn target_frame_time(&self) -> (target: u64)
        ensures
            target == self.target(),
            target > 0,
    {
        proof {
            use_type_invariant(self);
        }
        self.target
    }

    /// Starts the clock again: the current frame and the reporting window
    /// begin at `now`, with no frame completed.
    pub fn restart(&mut self, now: u64)
        ensures
            final(self).target() == old(self).target(),
            final(self).frame_start() == now,
            final(self).window_start() == now,
            final(self).frames() == 0,
            final(self).frame_time() == 0,
    {
        proof {
            use_type_invariant(&*self);
        }
        *self = FramePacer {
            target: self.target,
            frame_start: now,
            window_start: now,
            frames: 0,
            frame_time: 0,
        };
    }

    /// Notes that a frame begins at `now`.
    pub fn begin_frame(&mut self, now: u64)
        ensures
            old(self).begun(now, *final(self)),
    {
        proof {
            use_type_invariant(&*self);
        }
        let frame_time = if now >= self.frame_start {
            now - self.frame_start
        } else {
            0
        };
        *self = FramePacer {
            target: self.target,
            frame_start: now,
            window_start: self.window_start,
            frames: self.frames,
            frame_time,
        };
    }

    /// Notes that the frame's work is done at `now`, and says how long to
    /// sleep so that the frame fills its target time: the remainder of the
    /// target, or nothing where the work overran it. When a second or more
    /// has passed since the reporting window began, the frame ends the
    /// window: the frame rate over it is reported, and a new window begins
    /// at `now`.
    pub fn end_frame(&mut self, now: u64) -> (pace: Pace)
        ensures
            pace == old(self).pace(now),
            old(self).ended(now, *final(self)),
    {
        proof {
            use_type_invariant(&*self);
        }
        let elapsed = if now >= self.frame_start {
            now - self.frame_start
        } else {
            0
        };
        let sleep = if self.target >= elapsed {
            self.target - elapsed
        } else {
            0
        };
        let completed = if self.frames < u64::MAX {
            self.frames + 1
        } else {
            u64::MAX
        };
        let window = if now >= self.window_start {
            now - self.window_start
        } else {
            0
        };
        if window >= NANOS_PER_SECOND {
            let scaled: u128 = (completed as u128) * (NANOS_PER_SECOND as u128);
            let rate: u128 = scaled / (window as u128);
            proof {
                lemma_rate_bound(completed as int, window as int);
            }
            let report = FrameReport { fps: rate as u64, frame_time: self.frame_time };
            *self = FramePacer {
                target: self.target,
                frame_start: self.frame_start,
                window_start: now,
                frames: 0,
                frame_time: self.frame_time,
            };
            Pace { sleep, report: Some(report) }
        } else {
            *self = FramePacer {
                target: self.target,
                frame_start: self.frame_start,
                window_start: self.window_start,
                frames: completed,
                frame_time: self.frame_time,
            };
            Pace { sleep, report: None }
        }
    }

    /// With its sleep, a frame lasts its target time; a frame that overran
    /// its target does not sleep.
    pub proof fn lemma_sleep_fills_frame(&self, now: u64)
        ensures
            span(now, self.frame_start()) >= self.target() ==> self.pace(now).sleep == 0,
            span(now, self.frame_start()) < self.target() ==> span(now, self.frame_start())
                + self.pace(now).sleep == self.target(),
    {
    }

    /// The reporting window never moves back: a frame that begins leaves it
    /// where it is, and a frame that ends leaves it or moves it up to the
    /// frame's end.
    pub proof fn lemma_window_moves_forward(&self, now: u64, next: FramePacer)
        requires
            self.begun(now, next) || self.ended(now, next),
        ensures
            next.window_start() >= self.window_start(),
            self.ended(now, next) && self.reports(now) ==> next.window_start() == now,
    {
    }
}

/// `states` is the history of a pacer over the frames that began or ended
/// at `times`: state `k + 1` is state `k` after a frame began or ended at
/// `times[k]`.
pub open spec fn history(states: Seq<FramePacer>, times: Seq<u64>) -> bool {
    &&& states.len() == times.len() + 1
    &&& forall|k: int|
        0 <= k < times.len() ==> {
            ||| (#[trigger] states[k]).begun(times[k], states[k + 1])
            ||| states[k].ended(times[k], states[k + 1])
        }
}

/// Over a history, the window at any later state began no earlier than the
/// window at an earlier one.
proof fn lemma_window_is_monotone(states: Seq<FramePacer>, times: Seq<u64>, i: int, j: int)
    requires
        history(states, times),
        0 <= i <= j < states.len(),
    ensures
        states[j].window_start() >= states[i].window_start(),
    decreases j - i,
{
    if i < j {
        lemma_window_is_monotone(states, times, i, j - 1);
        states[j - 1].lemma_window_moves_forward(times[j - 1], states[j]);
    }
}

/// The frame rate is reported once a second, whatever the frame rate: of
/// two frames that ended with a report, the later ended a second or more
/// after the earlier, however many frames began and ended in between.
pub proof fn lemma_reports_a_second_apart(
    states: Seq<FramePacer>,
    times: Seq<u64>,
    i: int,
    j: int,
)
    requires
        history(states, times),
        0 <= i < j < times.len(),
        states[i].ended(times[i], states[i + 1]),
        states[i].reports(times[i]),
        states[j].ended(times[j], states[j + 1]),
        states[j].reports(times[j]),
    ensures
        times[j] - times[i] >= NANOS_PER_SECOND,
{
    states[i].lemma_window_moves_forward(times[i], states[i + 1]);
    lemma_window_is_monotone(states, times, i + 1, j);
}

/// Over a window of a second or more, the frame rate is at most the number
/// of frames.
proof fn lemma_rate_bound(frames: int, window: int)
    requires
        0 <= frames,
        window >= NANOS_PER_SECOND,
    ensures
        0 <= frames * NANOS_PER_SECOND / window <= frames,
        frames * 1_000_000_000 == frames * NANOS_PER_SECOND,
{
    assert(frames * NANOS_PER_SECOND <= frames * window) by (nonlinear_arith)
        requires
            0 <= frames,
            window >= NANOS_PER_SECOND,
    ;
    assert(0 <= frames * NANOS_PER_SECOND) by (nonlinear_arith)
        requires
            0 <= frames,
    ;
    assert(frames * NANOS_PER_SECOND / window <= frames) by (nonlinear_arith)
        requires
            0 <= frames * NANOS_PER_SECOND <= frames * window,
            window > 0,
    ;
    assert(0 <= frames * NANOS_PER_SECOND / window) by (nonlinear_arith)
        requires
            0 <= frames * NANOS_PER_SECOND,
            window > 0,
    ;
}

} // verus!
