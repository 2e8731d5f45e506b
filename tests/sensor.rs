use awa_sensor::frame::{ProtocolError, RawFrame, SensorReading};
use awa_sensor::line::{LogicalDirection, OpenDrainState};
use awa_sensor::protocol::{decode, pulse_level, pulse_timeout, read, Line, PULSE_COUNT};
use awa_sensor::sim::SimLine;
use awa_sensor::timing::{poll_pulse, PulsePoll, Timings};

/// Sensor answer for five bytes: response delay, 80/80 acknowledgement, then
/// per bit a 50 us marker and a high pulse of `zero_us` or `one_us`, then the
/// closing marker.
fn waveform(bytes: [u8; 5], zero_us: u32, one_us: u32) -> Vec<(bool, u32)> {
    let mut w = vec![(true, 30), (false, 80), (true, 80)];
    for b in bytes.iter() {
        for k in (0..8).rev() {
            w.push((false, 50));
            let bit = (b >> k) & 1 == 1;
            w.push((true, if bit { one_us } else { zero_us }));
        }
    }
    w.push((false, 50));
    w
}

fn bits_of(bytes: [u8; 5]) -> Vec<bool> {
    let mut v = Vec::new();
    for b in bytes.iter() {
        for k in (0..8).rev() {
            v.push((b >> k) & 1 == 1);
        }
    }
    v
}

fn outcomes(bytes: [u8; 5], zero_us: u32, one_us: u32) -> Vec<Option<u32>> {
    let mut outs = vec![Some(30), Some(80), Some(80)];
    for bit in bits_of(bytes) {
        outs.push(Some(50));
        outs.push(Some(if bit { one_us } else { zero_us }));
    }
    outs
}

#[test]
fn end_to_end_valid_reading() {
    let mut line = SimLine::new(waveform([65, 0, 22, 0, 87], 27, 70));
    let r = read(&mut line, &Timings::dht11()).unwrap();
    assert_eq!(
        r,
        SensorReading {
            humidity_integer: 65,
            humidity_fraction: 0,
            temperature_integer: 22,
            temperature_fraction: 0
        }
    );
    assert_eq!(r.temperature_tenths() as f32 / 10.0, 22.0);
    assert_eq!(r.humidity_tenths() as f32 / 10.0, 65.0);
    assert_eq!(line.last_start_us(), 18000);
}

#[test]
fn end_to_end_no_response() {
    let mut line = SimLine::new(Vec::new());
    assert_eq!(read(&mut line, &Timings::dht11()), Err(ProtocolError::NoResponse));
}

#[test]
fn end_to_end_corrupted_checksum() {
    let mut line = SimLine::new(waveform([65, 0, 22, 0, 87 ^ 1], 27, 70));
    assert_eq!(read(&mut line, &Timings::dht11()), Err(ProtocolError::ChecksumMismatch));
}

#[test]
fn consecutive_reads_are_independent() {
    let mut line = SimLine::new(waveform([40, 0, 25, 0, 65], 27, 70));
    let t = Timings::dht11();
    let a = read(&mut line, &t);
    let b = read(&mut line, &t);
    assert_eq!(a, b);
    assert_eq!(a.unwrap().humidity_tenths(), 400);
    assert_eq!(line.start_signals(), 2);
}

#[test]
fn read_times_out_when_sensor_stops_mid_frame() {
    let mut w = waveform([65, 0, 22, 0, 87], 27, 70);
    w.truncate(20);
    // The truncated waveform ends on a high pulse, which the pull-up then holds.
    let mut line = SimLine::new(w);
    assert_eq!(read(&mut line, &Timings::dht11()), Err(ProtocolError::Timeout));
}

#[test]
fn read_times_out_on_missing_acknowledgement_high() {
    let mut line = SimLine::new(vec![(true, 30), (false, 80)]);
    assert_eq!(read(&mut line, &Timings::dht11()), Err(ProtocolError::Timeout));
}

#[test]
fn read_rejects_implausible_values() {
    // Humidity fraction 10 is not a decimal digit; the checksum is right.
    let mut line = SimLine::new(waveform([65, 10, 22, 0, 97], 27, 70));
    assert_eq!(read(&mut line, &Timings::dht11()), Err(ProtocolError::MalformedFrame));
}

#[test]
fn pulses_just_outside_nominal_widths_decode() {
    let mut line = SimLine::new(waveform([65, 0, 22, 0, 87], 26, 71));
    assert_eq!(
        read(&mut line, &Timings::dht11()).map(|r| (r.humidity_integer, r.temperature_integer)),
        Ok((65, 22))
    );
}

#[test]
fn pulse_at_threshold_decodes_as_zero() {
    let mut line = SimLine::new(waveform([65, 0, 22, 0, 87], 48, 49));
    let r = read(&mut line, &Timings::dht11()).unwrap();
    assert_eq!(r.humidity_integer, 65);
    assert_eq!(r.temperature_integer, 22);
}

#[test]
fn classify_bit_boundaries() {
    let t = Timings::dht11();
    assert!(!t.classify_bit(48));
    assert!(t.classify_bit(49));
    assert!(!t.classify_bit(26));
    assert!(t.classify_bit(71));
    assert_eq!(poll_pulse(true, false, 71, t.bit_high_timeout_us), PulsePoll::Ended(71));
}

#[test]
fn poll_times_out_exactly_at_bound() {
    assert_eq!(poll_pulse(true, true, 99, 100), PulsePoll::Running);
    assert_eq!(poll_pulse(true, true, 100, 100), PulsePoll::TimedOut);
    assert_eq!(poll_pulse(false, true, 100, 100), PulsePoll::TimedOut);
    assert_eq!(poll_pulse(false, true, 99, 100), PulsePoll::Ended(99));
    assert_eq!(poll_pulse(false, false, 0, 100), PulsePoll::Running);
}

#[test]
fn simulated_pulse_timeout_boundary() {
    let mut line = SimLine::new(vec![(true, 99), (false, 10), (true, 100), (false, 10)]);
    line.drive_low();
    line.release();
    assert_eq!(line.measure(true, 100), Some(99));
    assert_eq!(line.measure(false, 100), Some(10));
    assert_eq!(line.measure(true, 100), None);
    assert!(!line.level());
}

#[test]
fn decode_complete_capture() {
    let t = Timings::dht11();
    let r = decode(&t, &outcomes([65, 0, 22, 0, 87], 27, 70));
    assert_eq!(r.map(|x| x.temperature_tenths()), Ok(220));
    let r = decode(&t, &outcomes([65, 0, 22, 0, 88], 27, 70));
    assert_eq!(r, Err(ProtocolError::ChecksumMismatch));
}

#[test]
fn decode_errors_in_order() {
    let t = Timings::dht11();
    assert_eq!(decode(&t, &vec![None]), Err(ProtocolError::NoResponse));
    assert_eq!(decode(&t, &vec![]), Err(ProtocolError::NoResponse));
    assert_eq!(decode(&t, &vec![Some(30), None]), Err(ProtocolError::Timeout));
    assert_eq!(decode(&t, &vec![Some(30), Some(80), Some(80)]), Err(ProtocolError::Timeout));
    let mut outs = outcomes([65, 0, 22, 0, 87], 27, 70);
    outs[10] = Some(0);
    outs[20] = None;
    assert_eq!(decode(&t, &outs), Err(ProtocolError::MalformedFrame));
}

#[test]
fn measurement_plan() {
    let t = Timings::dht11();
    assert_eq!(PULSE_COUNT, 83);
    assert!(pulse_level(0));
    assert!(!pulse_level(1));
    assert!(pulse_level(2));
    assert!(!pulse_level(3));
    assert!(pulse_level(4));
    assert!(pulse_level(82));
    assert_eq!(pulse_timeout(&t, 0), 100);
    assert_eq!(pulse_timeout(&Timings { response_window_us: 7, ..t }, 0), 7);
    assert_eq!(pulse_timeout(&Timings { bit_start_timeout_us: 9, ..t }, 81), 9);
    assert_eq!(pulse_timeout(&Timings { bit_high_timeout_us: 11, ..t }, 82), 11);
}

#[test]
fn frame_from_bits_and_checksum() {
    let f = RawFrame::from_bits(&bits_of([200, 100, 3, 4, 51]));
    assert_eq!(
        f,
        RawFrame {
            humidity_integer: 200,
            humidity_fraction: 100,
            temperature_integer: 3,
            temperature_fraction: 4,
            checksum: 51
        }
    );
    assert_eq!(f.expected_checksum(), 51);
    assert!(f.checksum_ok());
    assert_eq!(f.validate(), Err(ProtocolError::MalformedFrame));
}

#[test]
fn validate_outcomes() {
    let ok = RawFrame {
        humidity_integer: 100,
        humidity_fraction: 0,
        temperature_integer: 30,
        temperature_fraction: 5,
        checksum: 135,
    };
    let r = ok.validate().unwrap();
    assert_eq!(r.humidity_tenths(), 1000);
    assert_eq!(r.temperature_tenths(), 305);
    let too_wet = RawFrame { humidity_fraction: 1, checksum: 136, ..ok };
    assert_eq!(too_wet.validate(), Err(ProtocolError::MalformedFrame));
    let bad = RawFrame { checksum: 0, ..ok };
    assert_eq!(bad.validate(), Err(ProtocolError::ChecksumMismatch));
}

#[test]
fn open_drain_switches_only_on_change() {
    let mut s = OpenDrainState::new();
    assert_eq!(s.direction, LogicalDirection::Input);
    assert!(s.can_sample());
    assert_eq!(s.release(), None);
    assert_eq!(s.drive_low(), Some(LogicalDirection::Output));
    assert!(!s.can_sample());
    assert_eq!(s.drive_low(), None);
    assert_eq!(s.release(), Some(LogicalDirection::Input));
    assert_eq!(s.direction, LogicalDirection::Input);
}

#[test]
fn timing_presets() {
    let t = Timings::dht11();
    assert!(t.is_valid());
    assert_eq!(t.start_low_us, 18000);
    assert!(!Timings { bit_threshold_us: 100, ..t }.is_valid());
}
