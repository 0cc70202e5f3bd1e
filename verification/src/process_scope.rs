//! The view of one process cycle that the process handler is given.

use vstd::prelude::*;
use crate::error::Error;
use crate::primitive_types::Frames;
use crate::primitive_types::Time;

verus! {

/// What the server tells about the timing of the cycle it is about to run.
#[derive(Clone, Copy, Debug, PartialEq, Eq, Structural)]
pub struct RawCycle {
    /// The frame time at the start of the cycle.
    pub last_frame_time: Frames,
    /// The frames that have passed since the cycle started.
    pub frames_since_cycle_start: Frames,
    /// Zero when the two times below are valid.
    pub times_code: i32,
    /// When the cycle started, in microseconds.
    pub current_usecs: Time,
    /// When the cycle is due to end, in microseconds.
    pub next_usecs: Time,
}

/// The start and the end of a cycle, in microseconds.
#[derive(Clone, Copy, Debug, PartialEq, Eq, Structural)]
pub struct CycleTimes {
    pub current_usecs: Time,
    pub next_usecs: Time,
}

/// One process cycle as the handler sees it. A scope is made for a single
/// invocation and handed out by reference only.
#[derive(Debug)]
pub struct ProcessScope {
    n_frames: Frames,
    last_frame_time: Frames,
    frames_since_cycle_start: Frames,
    cycle_times: Option<CycleTimes>,
}

/// The mathematical content of a scope.
pub struct ProcessScopeView {
    pub n_frames: Frames,
    pub last_frame_time: Frames,
    pub frames_since_cycle_start: Frames,
    pub cycle_times: Option<CycleTimes>,
}

impl View for ProcessScope {
    type V = ProcessScopeView;

    closed spec fn view(&self) -> ProcessScopeView {
        ProcessScopeView {
            n_frames: self.n_frames,
            last_frame_time: self.last_frame_time,
            frames_since_cycle_start: self.frames_since_cycle_start,
            cycle_times: self.cycle_times,
        }
    }
}

/// The scope that stands for a cycle of `n_frames` frames with the timing
/// `cycle`. Without timing the counters are zero and no times are known; times
/// that the server marked invalid are not known either.
pub open spec fn scope_of(n_frames: Frames, cycle: Option<RawCycle>) -> ProcessScopeView {
    match cycle {
        Some(raw) => ProcessScopeView {
            n_frames: n_frames,
            last_frame_time: raw.last_frame_time,
            frames_since_cycle_start: raw.frames_since_cycle_start,
            cycle_times: if raw.times_code == 0 {
                Some(
                    CycleTimes { current_usecs: raw.current_usecs, next_usecs: raw.next_usecs },
                )
            } else {
                None
            },
        },
        None => ProcessScopeView {
            n_frames: n_frames,
            last_frame_time: 0,
            frames_since_cycle_start: 0,
            cycle_times: None,
        },
    }
}

impl ProcessScope {
    /// Builds the scope of a cycle from what the server handed over.
    pub fn from_raw(n_frames: Frames, cycle: Option<RawCycle>) -> (scope: ProcessScope)
        ensures
            scope@ == scope_of(n_frames, cycle),
    {
        match cycle {
            Some(raw) => {
                let cycle_times = if raw.times_code == 0 {
                    Some(
                        CycleTimes { current_usecs: raw.current_usecs, next_usecs: raw.next_usecs },
                    )
                } else {
                    None
                };
                ProcessScope {
                    n_frames,
                    last_frame_time: raw.last_frame_time,
                    frames_since_cycle_start: raw.frames_since_cycle_start,
                    cycle_times,
                }
            },
            None => ProcessScope {
                n_frames,
                last_frame_time: 0,
                frames_since_cycle_start: 0,
                cycle_times: None,
            },
        }
    }

    /// The number of frames to process in this cycle.
    pub fn n_frames(&self) -> (n: Frames)
        ensures
            n == self@.n_frames,
    {
        self.n_frames
    }

    /// The frame time at the start of this cycle.
    pub fn last_frame_time(&self) -> (t: Frames)
        ensures
            t == self@.last_frame_time,
    {
        self.last_frame_time
    }

    /// The frames that have passed since this cycle started.
    pub fn frames_since_cycle_start(&self) -> (n: Frames)
        ensures
            n == self@.frames_since_cycle_start,
    {
        self.frames_since_cycle_start
    }

    /// The start and end of this cycle, or `TimeError` when the server gave
    /// none.
    pub fn cycle_times(&self) -> (times: Result<CycleTimes, Error>)
        ensures
            match self@.cycle_times {
                Some(known) => times == Ok::<CycleTimes, Error>(known),
                None => times == Err::<CycleTimes, Error>(Error::TimeError),
            },
    {
        match self.cycle_times {
            Some(known) => Ok(known),
            None => Err(Error::TimeError),
        }
    }
}

} // verus!
