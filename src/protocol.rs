//! The handshake and frame capture: which pulses are measured, in what order,
//! and how their outcomes decide the reading.
use vstd::prelude::*;
use crate::frame::{
    checksum_of, frame_of_bits, is_sane, reading_of, validate_spec, ProtocolError, RawFrame, SensorReading, FRAME_BITS,
};
use crate::timing::{bit_of, Timings};

verus! {

/// A single-wire line as the protocol uses it: the host can hold it low,
/// release it, wait, and time a pulse of a given level.
pub trait Line {
    /// Drives the line low.
    fn drive_low(&mut self);

    /// Releases the line so that the pull-up (or the sensor) sets its level.
    fn release(&mut self);

    /// Busy-waits for `us` microseconds.
    fn hold_us(&mut self, us: u32);

    /// Times how long the line stays at the given level. `None` when the
    /// level has not changed before `timeout_us` elapsed.
    fn measure_pulse(&mut self, high: bool, timeout_us: u32) -> Option<u32>;
}

/// Pulses measured per reading: the wait for the sensor's answer, the two
/// halves of its acknowledgement, then a marker and a high pulse per bit.
pub const PULSE_COUNT: usize = 83;

/// Position of the first data-bit high pulse.
pub const FIRST_BIT_PULSE: usize = 4;

/// The level of the i-th measured pulse.
pub open spec fn planned_level(i: int) -> bool {
    if i == 0 {
        true
    } else if i == 1 {
        false
    } else if i == 2 {
        true
    } else {
        (i - 3) % 2 == 1
    }
}

/// The bound on the i-th measured pulse.
pub open spec fn planned_timeout(t: Timings, i: int) -> u32 {
    if i == 0 {
        t.response_window_us
    } else if i <= 2 {
        t.ack_timeout_us
    } else if (i - 3) % 2 == 0 {
        t.bit_start_timeout_us
    } else {
        t.bit_high_timeout_us
    }
}

/// The i-th outcome; one that was never observed counts as a timeout.
pub open spec fn outcome_at(outs: Seq<Option<u32>>, i: int) -> Option<u32> {
    if 0 <= i < outs.len() {
        outs[i]
    } else {
        None
    }
}

/// The error that the i-th outcome alone makes: no answer to the start
/// signal, a pulse that timed out, or a pulse of zero width.
pub open spec fn pulse_error(i: int, o: Option<u32>) -> Option<ProtocolError> {
    match o {
        None => Some(if i == 0 { ProtocolError::NoResponse } else { ProtocolError::Timeout }),
        Some(d) => if i >= 1 && d == 0 { Some(ProtocolError::MalformedFrame) } else { None },
    }
}

/// The first error among the first n outcomes, in measurement order.
pub open spec fn first_error(outs: Seq<Option<u32>>, n: nat) -> Option<ProtocolError>
    decreases n,
{
    if n == 0 {
        None
    } else {
        match first_error(outs, (n - 1) as nat) {
            Some(e) => Some(e),
            None => pulse_error(n - 1, outcome_at(outs, n - 1)),
        }
    }
}

/// Once an error is found among the first m outcomes, later outcomes do not change it.
pub proof fn lemma_first_error_sticks(outs: Seq<Option<u32>>, m: nat, n: nat)
    requires
        m <= n,
        first_error(outs, m) is Some,
    ensures
        first_error(outs, n) == first_error(outs, m),
    decreases n - m,
{
    if m < n {
        lemma_first_error_sticks(outs, m, (n - 1) as nat);
    }
}

/// The width of the i-th pulse, where it was observed.
pub open spec fn width_at(outs: Seq<Option<u32>>, i: int) -> u32 {
    match outcome_at(outs, i) {
        Some(d) => d,
        None => 0,
    }
}

/// The 40 data bits that the high pulses encode, in transmission order.
pub open spec fn bits_of_outcomes(t: Timings, outs: Seq<Option<u32>>) -> Seq<bool> {
    Seq::new(FRAME_BITS as nat, |k: int| bit_of(t, width_at(outs, FIRST_BIT_PULSE + 2 * k)))
}

/// The result of a reading whose measured pulses came out as `outs`.
pub open spec fn reading_result(t: Timings, outs: Seq<Option<u32>>) -> Result<SensorReading, ProtocolError> {
    match first_error(outs, PULSE_COUNT as nat) {
        Some(e) => Err(e),
        None => validate_spec(frame_of_bits(bits_of_outcomes(t, outs))),
    }
}

/// The level of the i-th measured pulse.
pub fn pulse_level(i: usize) -> (r: bool)
    ensures
        r == planned_level(i as int),
{
    if i == 0 {
        true
    } else if i == 1 {
        false
    } else if i == 2 {
        true
    } else {
        (i - 3) % 2 == 1
    }
}

/// The bound on the i-th measured pulse.
pub fn pulse_timeout(t: &Timings, i: usize) -> (r: u32)
    ensures
        r == planned_timeout(*t, i as int),
{
    if i == 0 {
        t.response_window_us
    } else if i <= 2 {
        t.ack_timeout_us
    } else if (i - 3) % 2 == 0 {
        t.bit_start_timeout_us
    } else {
        t.bit_high_timeout_us
    }
}

/// Decides a reading from the measured pulse outcomes, in measurement order.
/// The first pulse that timed out or had zero width decides the error; when
/// all were observed, the high pulses are decoded into a frame and validated.
pub fn decode(t: &Timings, outs: &Vec<Option<u32>>) -> (r: Result<SensorReading, ProtocolError>)
    ensures
        r == reading_result(*t, outs@),
{
    let mut bits: Vec<bool> = Vec::new();
    let mut i: usize = 0;
    while i < PULSE_COUNT
        invariant
            i <= PULSE_COUNT,
            first_error(outs@, i as nat) is None,
            bits@.len() == if i < 4 { 0 } else { (i - 3) / 2 },
            forall|k: int|
                0 <= k < bits@.len() ==> bits@[k] == bit_of(
                    *t,
                    width_at(outs@, FIRST_BIT_PULSE + 2 * k),
                ),
        decreases PULSE_COUNT - i,
    {
        let o: Option<u32> = if i < outs.len() {
            outs[i]
        } else {
            None
        };
        assert(o == outcome_at(outs@, i as int));
        assert(first_error(outs@, (i + 1) as nat) == pulse_error(i as int, o));
        match o {
            None => {
                proof {
                    lemma_first_error_sticks(outs@, (i + 1) as nat, PULSE_COUNT as nat);
                }
                return Err(if i == 0 { ProtocolError::NoResponse } else { ProtocolError::Timeout });
            },
            Some(d) => {
                if i >= 1 && d == 0 {
                    proof {
                        lemma_first_error_sticks(outs@, (i + 1) as nat, PULSE_COUNT as nat);
                    }
                    return Err(ProtocolError::MalformedFrame);
                }
                if i >= FIRST_BIT_PULSE && (i - FIRST_BIT_PULSE) % 2 == 0 {
                    bits.push(t.classify_bit(d));
                }
            },
        }
        i = i + 1;
    }
    assert(bits@ =~= bits_of_outcomes(*t, outs@));
    let frame = RawFrame::from_bits(&bits);
    frame.validate()
}

/// Performs one full reading: start signal, the sensor's acknowledgement and
/// 40 data bits, then decoding. Every call begins with a fresh start signal
/// and keeps nothing from earlier calls; the result is what `decode` makes of
/// the pulses measured during this call.
pub fn read<L: Line>(line: &mut L, t: &Timings) -> (r: Result<SensorReading, ProtocolError>)
    ensures
        exists|outs: Seq<Option<u32>>|
            outs.len() <= PULSE_COUNT && #[trigger] reading_result(*t, outs) == r,
{
    line.drive_low();
    line.hold_us(t.start_low_us);
    line.release();
    let mut outs: Vec<Option<u32>> = Vec::new();
    let mut i: usize = 0;
    while i < PULSE_COUNT
        invariant_except_break
            outs@.len() == i,
        invariant
            i <= PULSE_COUNT,
            outs@.len() <= PULSE_COUNT,
        decreases PULSE_COUNT - i,
    {
        let o = line.measure_pulse(pulse_level(i), pulse_timeout(t, i));
        outs.push(o);
        if o.is_none() {
            break;
        }
        i = i + 1;
    }
    let r = decode(t, &outs);
    assert(reading_result(*t, outs@) == r);
    r
}

/// Outcomes of a full capture: every pulse observed, none of zero width but
/// possibly the wait for the sensor's answer.
pub open spec fn complete_capture(outs: Seq<Option<u32>>) -> bool {
    &&& outs.len() == PULSE_COUNT
    &&& forall|i: int| 0 <= i < PULSE_COUNT ==> (#[trigger] outs[i]) is Some
    &&& forall|i: int| 1 <= i < PULSE_COUNT ==> (#[trigger] outs[i]) != Some(0u32)
}

proof fn lemma_complete_capture_no_error(outs: Seq<Option<u32>>, n: nat)
    requires
        complete_capture(outs),
        n <= PULSE_COUNT,
    ensures
        first_error(outs, n) is None,
    decreases n,
{
    if n > 0 {
        lemma_complete_capture_no_error(outs, (n - 1) as nat);
        assert(outs[n - 1] is Some);
    }
}

/// A full capture whose 40 bits spell a frame with checksum equal to the sum
/// of its four data bytes modulo 256, and plausible values, is accepted as a
/// reading carrying exactly the frame's integer and fraction bytes.
pub proof fn lemma_capture_valid_frame_accepted(t: Timings, outs: Seq<Option<u32>>)
    requires
        complete_capture(outs),
        frame_of_bits(bits_of_outcomes(t, outs)).checksum as nat == checksum_of(
            frame_of_bits(bits_of_outcomes(t, outs)),
        ),
        is_sane(frame_of_bits(bits_of_outcomes(t, outs))),
    ensures
        reading_result(t, outs) == Ok::<SensorReading, ProtocolError>(
            reading_of(frame_of_bits(bits_of_outcomes(t, outs))),
        ),
{
    lemma_complete_capture_no_error(outs, PULSE_COUNT as nat);
}

/// A full capture whose frame's checksum differs from the sum of its four
/// data bytes modulo 256 is rejected as a checksum mismatch, never accepted.
pub proof fn lemma_capture_bad_checksum_rejected(t: Timings, outs: Seq<Option<u32>>)
    requires
        complete_capture(outs),
        frame_of_bits(bits_of_outcomes(t, outs)).checksum as nat != checksum_of(
            frame_of_bits(bits_of_outcomes(t, outs)),
        ),
    ensures
        reading_result(t, outs) == Err::<SensorReading, ProtocolError>(
            ProtocolError::ChecksumMismatch,
        ),
{
    lemma_complete_capture_no_error(outs, PULSE_COUNT as nat);
}

/// The result of a reading is decided by the pulses measured in that reading
/// alone: two readings that measure the same pulses give the same result,
/// whatever happened before them.
pub proof fn lemma_reading_independent(t: Timings, a: Seq<Option<u32>>, b: Seq<Option<u32>>)
    requires
        a =~= b,
    ensures
        reading_result(t, a) == reading_result(t, b),
{
}

/// When the sensor never pulls the line low after the start signal, the
/// reading fails with no response, whatever else was recorded.
pub proof fn lemma_silent_sensor(t: Timings, outs: Seq<Option<u32>>)
    requires
        outcome_at(outs, 0) is None,
    ensures
        reading_result(t, outs) == Err::<SensorReading, ProtocolError>(ProtocolError::NoResponse),
{
    assert(first_error(outs, 0) is None);
    assert(first_error(outs, 1) == Some(ProtocolError::NoResponse));
    lemma_first_error_sticks(outs, 1, PULSE_COUNT as nat);
}

} // verus!
