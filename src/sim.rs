//! A simulated sensor line: a recorded waveform that the sensor plays back
//! each time the host ends a start signal.
use vstd::prelude::*;
use crate::protocol::Line;

verus! {

/// A line whose sensor answers every start signal with the same waveform: a
/// list of (level, microseconds) segments, after which the pull-up holds the
/// line high.
pub struct SimLine {
    segments: Vec<(bool, u32)>,
    pos: usize,
    offset: u32,
    host_low: bool,
    starts: u32,
    last_start_us: u32,
}

/// How much longer the waveform holds level `high` from segment `pos`, of
/// which `offset` microseconds have already passed; `None` when it holds it
/// for good (the pull-up keeps an ended waveform high).
pub open spec fn hold_time(segs: Seq<(bool, u32)>, pos: nat, offset: nat, high: bool) -> Option<nat>
    decreases segs.len() - pos,
{
    if pos >= segs.len() {
        if high {
            None
        } else {
            Some(0)
        }
    } else if segs[pos as int].0 != high {
        Some(0)
    } else {
        let here: nat = if segs[pos as int].1 > offset {
            (segs[pos as int].1 - offset) as nat
        } else {
            0
        };
        match hold_time(segs, pos + 1, 0, high) {
            None => None,
            Some(n) => Some(here + n),
        }
    }
}

/// A hold that begins `d` microseconds later.
pub open spec fn delayed(d: nat, hold: Option<nat>) -> Option<nat> {
    match hold {
        Some(n) => Some(d + n),
        None => None,
    }
}

/// What a measurement with bound `timeout_us` reports of a level held for `hold`.
pub open spec fn measured(hold: Option<nat>, timeout_us: u32) -> Option<u32> {
    match hold {
        Some(n) => if n < timeout_us {
            Some(n as u32)
        } else {
            None
        },
        None => None,
    }
}

impl SimLine {
    /// A released, idle line whose sensor will answer with `segments`.
    pub fn new(segments: Vec<(bool, u32)>) -> (r: SimLine)
        ensures
            r.segments_view() == segments@,
            r.start_count() == 0,
            r.is_idle(),
    {
        let n = segments.len();
        SimLine { segments, pos: n, offset: 0, host_low: false, starts: 0, last_start_us: 0 }
    }

    pub closed spec fn segments_view(&self) -> Seq<(bool, u32)> {
        self.segments@
    }

    pub closed spec fn start_count(&self) -> nat {
        self.starts as nat
    }

    /// The waveform has been played out (or never started) and the host is not driving.
    pub closed spec fn is_idle(&self) -> bool {
        self.pos >= self.segments@.len() && !self.host_low
    }

    /// The level a sample would read now.
    pub open spec fn level_spec(&self) -> bool {
        if self.host_low_spec() {
            false
        } else if self.pos_spec() < self.segments_view().len() {
            self.segments_view()[self.pos_spec() as int].0
        } else {
            true
        }
    }

    pub closed spec fn host_low_spec(&self) -> bool {
        self.host_low
    }

    pub closed spec fn pos_spec(&self) -> nat {
        self.pos as nat
    }

    /// How much longer the line holds level `high` if nobody drives it.
    pub closed spec fn hold_spec(&self, high: bool) -> Option<nat> {
        if self.host_low {
            if high {
                Some(0)
            } else {
                None
            }
        } else {
            hold_time(self.segments@, self.pos as nat, self.offset as nat, high)
        }
    }

    pub closed spec fn last_start_spec(&self) -> u32 {
        self.last_start_us
    }

    /// The level a sample would read now.
    pub fn level(&self) -> (r: bool)
        ensures
            r == self.level_spec(),
    {
        if self.host_low {
            false
        } else if self.pos < self.segments.len() {
            self.segments[self.pos].0
        } else {
            true
        }
    }

    /// How many start signals the sensor has seen.
    pub fn start_signals(&self) -> (r: u32)
        ensures
            r as nat == self.start_count(),
    {
        self.starts
    }

    /// How long the host held the line low in its most recent start signal.
    pub fn last_start_us(&self) -> (r: u32)
        ensures
            r == self.last_start_spec(),
    {
        self.last_start_us
    }

    /// Times the current pulse of level `high`, playing the waveform forward.
    /// `Some(d)` with `d < timeout_us` when the level changed after `d`
    /// microseconds; `None` when it held for `timeout_us`.
    pub fn measure(&mut self, high: bool, timeout_us: u32) -> (r: Option<u32>)
        ensures
            r == measured(old(self).hold_spec(high), timeout_us),
            r matches Some(d) ==> d < timeout_us,
            final(self).segments_view() == old(self).segments_view(),
            final(self).start_count() == old(self).start_count(),
    {
        let mut elapsed: u32 = 0;
        while elapsed < timeout_us
            invariant
                elapsed <= timeout_us,
                self.segments@ == old(self).segments@,
                self.starts == old(self).starts,
                self.host_low == old(self).host_low,
                old(self).hold_spec(high) == delayed(elapsed as nat, self.hold_spec(high)),
            decreases timeout_us - elapsed, self.segments@.len() - self.pos,
        {
            if self.level() != high {
                return Some(elapsed);
            }
            if self.host_low || self.pos >= self.segments.len() {
                elapsed = timeout_us;
            } else {
                let dur = self.segments[self.pos].1;
                let remaining: u32 = if dur > self.offset {
                    dur - self.offset
                } else {
                    0
                };
                let budget: u32 = timeout_us - elapsed;
                if remaining <= budget {
                    elapsed = elapsed + remaining;
                    self.pos = self.pos + 1;
                    self.offset = 0;
                } else {
                    self.offset = self.offset + budget;
                    elapsed = timeout_us;
                }
            }
        }
        None
    }
}

impl Line for SimLine {
    fn drive_low(&mut self) {
        self.host_low = true;
    }

    /// Ending a start signal makes the sensor play its waveform from the beginning.
    fn release(&mut self) {
        if self.host_low {
            self.pos = 0;
            self.offset = 0;
            if self.starts < u32::MAX {
                self.starts = self.starts + 1;
            }
        }
        self.host_low = false;
    }

    fn hold_us(&mut self, us: u32) {
        if self.host_low {
            self.last_start_us = us;
        }
    }

    fn measure_pulse(&mut self, high: bool, timeout_us: u32) -> Option<u32> {
        self.measure(high, timeout_us)
    }
}

} // verus!
