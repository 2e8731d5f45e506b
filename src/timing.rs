//! Timing parameters of a sensor family and the decisions taken on measured times.
use vstd::prelude::*;

verus! {

/// Protocol timings, in microseconds. Sibling sensor variants differ only here.
#[derive(Clone, Copy, Debug, PartialEq, Eq, Structural)]
pub struct Timings {
    /// How long the host holds the line low to wake the sensor.
    pub start_low_us: u32,
    /// How long the released line may stay high before the sensor answers.
    pub response_window_us: u32,
    /// Bound on each half of the sensor's acknowledgement preamble.
    pub ack_timeout_us: u32,
    /// Bound on the low marker that precedes every data bit.
    pub bit_start_timeout_us: u32,
    /// Bound on the high pulse that encodes a data bit.
    pub bit_high_timeout_us: u32,
    /// A high pulse longer than this encodes 1; this long or shorter encodes 0.
    pub bit_threshold_us: u32,
}

pub open spec fn timings_wf(t: Timings) -> bool {
    &&& t.response_window_us > 0
    &&& t.ack_timeout_us > 0
    &&& t.bit_start_timeout_us > 0
    &&& 0 < t.bit_threshold_us < t.bit_high_timeout_us
}

/// The bit that a high pulse of `high_us` encodes.
pub open spec fn bit_of(t: Timings, high_us: u32) -> bool {
    high_us > t.bit_threshold_us
}

impl Timings {
    /// Nominal timings of the 11-series sensor: 18 ms start signal, 80/80 us
    /// acknowledgement, 50 us bit marker, 26-28 us for a 0 and 70 us for a 1.
    pub fn dht11() -> (r: Timings)
        ensures
            timings_wf(r),
            r.start_low_us == 18000,
            r.response_window_us == 100,
            r.ack_timeout_us == 100,
            r.bit_start_timeout_us == 100,
            r.bit_high_timeout_us == 100,
            r.bit_threshold_us == 48,
    {
        Timings {
            start_low_us: 18000,
            response_window_us: 100,
            ack_timeout_us: 100,
            bit_start_timeout_us: 100,
            bit_high_timeout_us: 100,
            bit_threshold_us: 48,
        }
    }

    pub fn is_valid(&self) -> (r: bool)
        ensures
            r == timings_wf(*self),
    {
        self.response_window_us > 0 && self.ack_timeout_us > 0 && self.bit_start_timeout_us > 0
            && 0 < self.bit_threshold_us && self.bit_threshold_us < self.bit_high_timeout_us
    }

    /// Decodes a data bit from the width of its high pulse. A pulse exactly at
    /// the threshold decodes to 0.
    pub fn classify_bit(&self, high_us: u32) -> (r: bool)
        ensures
            r == bit_of(*self, high_us),
    {
        high_us > self.bit_threshold_us
    }
}

/// What one poll of the line tells about the pulse being timed.
#[derive(Clone, Copy, Debug, PartialEq, Eq, Structural)]
pub enum PulsePoll {
    /// The level is still the expected one and time remains.
    Running,
    /// The level changed after this many microseconds.
    Ended(u32),
    /// The bound elapsed before the level changed.
    TimedOut,
}

pub open spec fn poll_spec(expected_high: bool, high: bool, elapsed_us: u64, timeout_us: u32) -> PulsePoll {
    if elapsed_us >= timeout_us {
        PulsePoll::TimedOut
    } else if high != expected_high {
        PulsePoll::Ended(elapsed_us as u32)
    } else {
        PulsePoll::Running
    }
}

/// Decides, from one sample of the line taken `elapsed_us` after the pulse
/// began, whether the pulse of level `expected_high` has ended. A pulse that
/// has not ended before `timeout_us` times out exactly when that bound is reached.
pub fn poll_pulse(expected_high: bool, high: bool, elapsed_us: u64, timeout_us: u32) -> (r: PulsePoll)
    ensures
        r == poll_spec(expected_high, high, elapsed_us, timeout_us),
        r == PulsePoll::TimedOut <==> elapsed_us >= timeout_us,
        r matches PulsePoll::Ended(d) ==> d == elapsed_us && d < timeout_us,
{
    if elapsed_us >= timeout_us as u64 {
        PulsePoll::TimedOut
    } else if high != expected_high {
        PulsePoll::Ended(elapsed_us as u32)
    } else {
        PulsePoll::Running
    }
}

/// A high pulse exactly at the threshold decodes to 0, one a microsecond
/// longer to 1; any pulse from one microsecond up to the threshold is a 0, and
/// any pulse longer than the threshold but shorter than the bit bound is a 1
/// that polling reports as ended, not as a timeout.
pub proof fn lemma_bit_threshold(t: Timings, high_us: u32)
    requires
        timings_wf(t),
    ensures
        !bit_of(t, t.bit_threshold_us),
        bit_of(t, (t.bit_threshold_us + 1) as u32),
        0 < high_us <= t.bit_threshold_us ==> !bit_of(t, high_us),
        t.bit_threshold_us < high_us < t.bit_high_timeout_us ==> bit_of(t, high_us)
            && poll_spec(true, false, high_us as u64, t.bit_high_timeout_us) == PulsePoll::Ended(
            high_us,
        ),
{
}

/// Polling never reports a timeout before the bound and always reports it once
/// the bound is reached, whatever the sampled level.
pub proof fn lemma_timeout_exact(expected_high: bool, high: bool, elapsed_us: u64, timeout_us: u32)
    ensures
        elapsed_us < timeout_us ==> poll_spec(expected_high, high, elapsed_us, timeout_us)
            != PulsePoll::TimedOut,
        elapsed_us >= timeout_us ==> poll_spec(expected_high, high, elapsed_us, timeout_us)
            == PulsePoll::TimedOut,
        elapsed_us < timeout_us && high == expected_high ==> poll_spec(
            expected_high,
            high,
            elapsed_us,
            timeout_us,
        ) == PulsePoll::Running,
{
}

} // verus!
