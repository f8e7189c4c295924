//! Frame timing: the time the last frame took, and the frame rate over a
//! rolling window of one second.
//!
//! Timestamps are whole clock ticks, a tick being one microsecond. The host
//! reads its clock and hands the reading in; nothing here reads a clock.

use vstd::prelude::*;
use crate::arith::lemma_floor_quotient;
use crate::error::StatsError;

verus! {

/// Clock ticks in one millisecond.
pub const TICKS_PER_MS: u64 = 1_000;

/// Clock ticks in one rate window (one second).
pub const WINDOW_TICKS: u64 = 1_000_000;

/// The mathematical state of a monitor: unbounded timestamps and counts.
pub struct MonitorState {
    /// When the last sample was taken.
    pub begin_time: int,
    /// When the current rate window began.
    pub previous_time: int,
    /// Frames seen in the current rate window.
    pub frames: nat,
    /// The rate of the last closed window, in frames per second.
    pub fps: nat,
    /// How long the last frame took, in whole milliseconds.
    pub ms: nat,
}

/// Whole milliseconds from `begin_time` to `now`: rounded down, zero when the
/// clock went backwards, and held at the largest `u32` beyond it.
pub open spec fn frame_millis(begin_time: int, now: int) -> nat {
    let millis = (now - begin_time) / (TICKS_PER_MS as int);
    if now <= begin_time {
        0
    } else if millis > u32::MAX {
        u32::MAX as nat
    } else {
        millis as nat
    }
}

/// Whether a window that began at `previous_time` is over at `now`.
pub open spec fn window_closed(previous_time: int, now: int) -> bool {
    now - previous_time >= WINDOW_TICKS
}

/// Frames per second, rounded down, of `frames` frames in `elapsed` ticks.
pub open spec fn window_rate(frames: nat, elapsed: int) -> nat
    recommends
        elapsed > 0,
{
    ((frames as int) * (WINDOW_TICKS as int) / elapsed) as nat
}

impl MonitorState {
    /// The state after one sample taken at `now`.
    pub open spec fn step(self, now: int) -> MonitorState {
        if window_closed(self.previous_time, now) {
            MonitorState {
                begin_time: now,
                previous_time: now,
                frames: 0,
                fps: window_rate(self.frames + 1, now - self.previous_time),
                ms: frame_millis(self.begin_time, now),
            }
        } else {
            MonitorState {
                begin_time: now,
                previous_time: self.previous_time,
                frames: self.frames + 1,
                fps: self.fps,
                ms: frame_millis(self.begin_time, now),
            }
        }
    }

    /// The state after one sample at each of `times`, in order.
    pub open spec fn run(self, times: Seq<int>) -> MonitorState
        decreases times.len(),
    {
        if times.len() == 0 {
            self
        } else {
            self.run(times.drop_last()).step(times.last())
        }
    }

    /// The window does not begin after the last sample.
    pub open spec fn ordered(self) -> bool {
        self.previous_time <= self.begin_time
    }
}

/// Samples a clock once per frame and keeps the two figures of the overlay.
#[derive(Debug)]
pub struct CanvasPerformance {
    /// When the last sample was taken, in ticks.
    pub begin_time: u64,
    /// When the current rate window began, in ticks.
    pub previous_time: u64,
    /// Frames seen in the current rate window.
    pub frames: u32,
    /// The rate of the last closed window, in frames per second.
    pub fps: u32,
    /// How long the last frame took, in whole milliseconds.
    pub ms: u32,
}

impl View for CanvasPerformance {
    type V = MonitorState;

    open spec fn view(&self) -> MonitorState {
        MonitorState {
            begin_time: self.begin_time as int,
            previous_time: self.previous_time as int,
            frames: self.frames as nat,
            fps: self.fps as nat,
            ms: self.ms as nat,
        }
    }
}

impl CanvasPerformance {
    /// A monitor whose window begins at the clock reading `now`; without a
    /// reading there is no monitor.
    pub fn init(now: Option<u64>) -> (made: Result<CanvasPerformance, StatsError>)
        ensures
            now is None <==> made is Err,
            made is Err ==> made == Err::<CanvasPerformance, StatsError>(StatsError::ClockUnavailable),
            made is Ok ==> made->Ok_0@ == (MonitorState {
                begin_time: now->Some_0 as int,
                previous_time: now->Some_0 as int,
                frames: 0,
                fps: 0,
                ms: 0,
            }),
    {
        match now {
            None => Err(StatsError::ClockUnavailable),
            Some(t) => Ok(CanvasPerformance { begin_time: t, previous_time: t, frames: 0, fps: 0, ms: 0 }),
        }
    }

    /// Takes one sample at the clock reading `now`.
    ///
    /// The frame time is refreshed on every call. The frame rate is refreshed,
    /// and a new window begun, once a full window has passed.
    pub fn recalculate(&mut self, now: u64)
        requires
            old(self).frames < u32::MAX,
        ensures
            final(self)@ == old(self)@.step(now as int),
    {
        let frames: u32 = self.frames + 1;
        self.ms = elapsed_millis(self.begin_time, now);
        if now >= self.previous_time && now - self.previous_time >= WINDOW_TICKS {
            let elapsed: u64 = now - self.previous_time;
            self.fps = rate(frames, elapsed);
            self.previous_time = now;
            self.frames = 0;
        } else {
            self.frames = frames;
        }
        self.begin_time = now;
    }

    /// Moves the time of the last sample to `time`.
    pub fn set_begin_time(&mut self, time: u64)
        ensures
            final(self)@ == (MonitorState { begin_time: time as int, ..old(self)@ }),
    {
        self.begin_time = time;
    }

    /// Moves the beginning of the current window to `time`.
    pub fn set_previous_time(&mut self, time: u64)
        ensures
            final(self)@ == (MonitorState { previous_time: time as int, ..old(self)@ }),
    {
        self.previous_time = time;
    }
}

/// Whole milliseconds from `begin_time` to `now`, as `frame_millis` has them.
pub fn elapsed_millis(begin_time: u64, now: u64) -> (millis: u32)
    ensures
        millis == frame_millis(begin_time as int, now as int),
{
    if now <= begin_time {
        0
    } else {
        let millis: u64 = (now - begin_time) / TICKS_PER_MS;
        if millis > 0xffff_ffff {
            u32::MAX
        } else {
            millis as u32
        }
    }
}

/// Frames per second of `frames` frames in `elapsed` ticks, a full window or
/// more.
pub fn rate(frames: u32, elapsed: u64) -> (fps: u32)
    requires
        elapsed >= WINDOW_TICKS,
    ensures
        fps == window_rate(frames as nat, elapsed as int),
        fps <= frames,
{
    let scaled: u64 = frames as u64 * WINDOW_TICKS;
    let fps: u64 = scaled / elapsed;
    proof {
        lemma_rate_bounded(frames as nat, elapsed as int);
    }
    fps as u32
}

/// Over a full window or more, the rate is no more than the frame count.
pub proof fn lemma_rate_bounded(frames: nat, elapsed: int)
    requires
        elapsed >= WINDOW_TICKS,
    ensures
        window_rate(frames, elapsed) <= frames,
{
    let count: int = frames as int;
    assert(0 <= count * 1_000_000 / elapsed <= count) by (nonlinear_arith)
        requires
            elapsed >= 1_000_000,
            count >= 0,
    ;
}

/// While every sample falls inside the window that is open at the outset,
/// the rate stays what it was, the window stays where it began, and each
/// sample adds one to the frame count.
pub proof fn lemma_rate_kept_inside_window(start: MonitorState, times: Seq<int>)
    requires
        forall|i: int| 0 <= i < times.len() ==> !window_closed(start.previous_time, #[trigger] times[i]),
    ensures
        start.run(times).fps == start.fps,
        start.run(times).previous_time == start.previous_time,
        start.run(times).frames == start.frames + times.len(),
    decreases times.len(),
{
    if times.len() > 0 {
        lemma_rate_kept_inside_window(start, times.drop_last());
    }
}

/// Inside one window the frame count grows with every sample: of two
/// prefixes of the samples, the longer one has counted more frames.
pub proof fn lemma_frames_grow_inside_window(start: MonitorState, times: Seq<int>, shorter: int, longer: int)
    requires
        forall|i: int| 0 <= i < times.len() ==> !window_closed(start.previous_time, #[trigger] times[i]),
        0 <= shorter < longer <= times.len(),
    ensures
        start.run(times.take(shorter)).frames < start.run(times.take(longer)).frames,
{
    lemma_rate_kept_inside_window(start, times.take(shorter));
    lemma_rate_kept_inside_window(start, times.take(longer));
}

/// The sample that finds a full window behind it closes that window: the rate
/// becomes the frames counted, this one included, per second of the window,
/// rounded down; the count starts again at zero, and the next window begins
/// at this sample.
pub proof fn lemma_window_closes(before: MonitorState, now: int)
    requires
        now - before.previous_time >= WINDOW_TICKS,
    ensures
        before.step(now).frames == 0,
        before.step(now).previous_time == now,
        before.step(now).fps == ((before.frames + 1) as int * 1_000_000) / (now - before.previous_time),
        before.step(now).fps * (now - before.previous_time) <= (before.frames + 1) * 1_000_000,
        (before.frames + 1) * 1_000_000 < (before.step(now).fps + 1) * (now - before.previous_time),
{
    let elapsed: int = now - before.previous_time;
    let scaled: int = (before.frames + 1) as int * 1_000_000;
    lemma_floor_quotient(scaled, elapsed);
}

/// With a clock that did not go backwards, the frame time is the time since
/// the last sample in milliseconds, rounded down and never up.
pub proof fn lemma_frame_time_rounds_down(before: MonitorState, now: int)
    requires
        before.begin_time <= now,
        now - before.begin_time < (u32::MAX + 1) * TICKS_PER_MS,
    ensures
        before.step(now).ms == (now - before.begin_time) / 1_000,
        before.step(now).ms * 1_000 <= now - before.begin_time < (before.step(now).ms + 1) * 1_000,
{
    lemma_floor_quotient(now - before.begin_time, 1_000);
}

/// A sample taken at the very instant the window began never closes it: the
/// rate and the window stay, the frame is counted, and the first later sample
/// with a full window behind it sets the rate from all frames counted.
pub proof fn lemma_empty_window_skipped(before: MonitorState, now: int, later: int)
    requires
        now == before.previous_time,
        later - now >= WINDOW_TICKS,
    ensures
        before.step(now).fps == before.fps,
        before.step(now).previous_time == before.previous_time,
        before.step(now).frames == before.frames + 1,
        before.step(now).step(later).fps == window_rate(before.frames + 2, later - now),
{
}

/// With a clock that does not run behind the window, a sample leaves the
/// window beginning no later than the sample itself.
pub proof fn lemma_step_keeps_order(before: MonitorState, now: int)
    requires
        before.previous_time <= now,
    ensures
        before.step(now).ordered(),
{
}

} // verus!
