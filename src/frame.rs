//! The 40-bit data frame: bit packing, checksum and validation.
use vstd::prelude::*;

verus! {

/// Why a reading attempt failed. The whole handshake must be restarted on any of them.
#[derive(Clone, Copy, Debug, PartialEq, Eq, Structural)]
pub enum ProtocolError {
    NoResponse,
    Timeout,
    ChecksumMismatch,
    MalformedFrame,
}

/// The five bytes captured from the sensor, in transmission order.
#[derive(Clone, Copy, Debug, PartialEq, Eq, Structural)]
pub struct RawFrame {
    pub humidity_integer: u8,
    pub humidity_fraction: u8,
    pub temperature_integer: u8,
    pub temperature_fraction: u8,
    pub checksum: u8,
}

/// A validated reading. Humidity is in percent and temperature in degrees
/// Celsius, each as an integer part and a decimal digit.
#[derive(Clone, Copy, Debug, PartialEq, Eq, Structural)]
pub struct SensorReading {
    pub humidity_integer: u8,
    pub humidity_fraction: u8,
    pub temperature_integer: u8,
    pub temperature_fraction: u8,
}

/// Number of data bits in one frame.
pub const FRAME_BITS: usize = 40;

/// Largest humidity the sensor can report, in tenths of a percent.
pub const MAX_HUMIDITY_TENTHS: u16 = 1000;

/// Value of a bit string read most significant bit first.
pub open spec fn bits_value(s: Seq<bool>) -> nat
    decreases s.len(),
{
    if s.len() == 0 {
        0
    } else {
        2 * bits_value(s.drop_last()) + if s.last() { 1nat } else { 0nat }
    }
}

pub open spec fn pow2(n: nat) -> nat
    decreases n,
{
    if n == 0 {
        1
    } else {
        2 * pow2((n - 1) as nat)
    }
}

/// The k-th byte (0-based) of a bit string.
pub open spec fn byte_at(bits: Seq<bool>, k: int) -> nat {
    bits_value(bits.subrange(8 * k, 8 * k + 8))
}

/// The frame that 40 received bits spell out, bytes most significant bit first.
pub open spec fn frame_of_bits(bits: Seq<bool>) -> RawFrame {
    RawFrame {
        humidity_integer: byte_at(bits, 0) as u8,
        humidity_fraction: byte_at(bits, 1) as u8,
        temperature_integer: byte_at(bits, 2) as u8,
        temperature_fraction: byte_at(bits, 3) as u8,
        checksum: byte_at(bits, 4) as u8,
    }
}

/// The checksum a frame must carry: the sum of its four data bytes modulo 256.
pub open spec fn checksum_of(f: RawFrame) -> nat {
    ((f.humidity_integer + f.humidity_fraction + f.temperature_integer
        + f.temperature_fraction) as nat) % 256
}

/// The decoded values are plausible: each fraction is one decimal digit and
/// humidity is at most 100 percent.
pub open spec fn is_sane(f: RawFrame) -> bool {
    f.humidity_fraction <= 9 && f.temperature_fraction <= 9 && f.humidity_integer * 10
        + f.humidity_fraction <= MAX_HUMIDITY_TENTHS
}

pub open spec fn reading_of(f: RawFrame) -> SensorReading {
    SensorReading {
        humidity_integer: f.humidity_integer,
        humidity_fraction: f.humidity_fraction,
        temperature_integer: f.temperature_integer,
        temperature_fraction: f.temperature_fraction,
    }
}

/// Outcome of validating a frame: the checksum is checked first, then sanity.
pub open spec fn validate_spec(f: RawFrame) -> Result<SensorReading, ProtocolError> {
    if f.checksum as nat != checksum_of(f) {
        Err(ProtocolError::ChecksumMismatch)
    } else if !is_sane(f) {
        Err(ProtocolError::MalformedFrame)
    } else {
        Ok(reading_of(f))
    }
}

/// Packs eight bits starting at `start`, most significant first.
fn pack_byte(bits: &Vec<bool>, start: usize) -> (r: u8)
    requires
        start <= 32,
        start + 8 <= bits@.len(),
    ensures
        r as nat == bits_value(bits@.subrange(start as int, start + 8)),
{
    let mut acc: u16 = 0;
    let mut i: usize = 0;
    while i < 8
        invariant
            i <= 8,
            start <= 32,
            start + 8 <= bits@.len(),
            acc as nat == bits_value(bits@.subrange(start as int, start + i)),
            acc < pow2(i as nat),
        decreases 8 - i,
    {
        let ghost prev = bits@.subrange(start as int, start + i);
        let ghost next = bits@.subrange(start as int, start + i + 1);
        assert(next.drop_last() =~= prev);
        assert(next.last() == bits@[start + i]);
        let b: u16 = if bits[start + i] { 1 } else { 0 };
        proof {
            reveal_with_fuel(pow2, 9);
        }
        acc = acc * 2 + b;
        i = i + 1;
    }
    proof {
        reveal_with_fuel(pow2, 9);
    }
    acc as u8
}

impl RawFrame {
    /// Assembles a frame from the 40 bits in transmission order.
    pub fn from_bits(bits: &Vec<bool>) -> (r: RawFrame)
        requires
            bits@.len() == FRAME_BITS,
        ensures
            r == frame_of_bits(bits@),
    {
        RawFrame {
            humidity_integer: pack_byte(bits, 0),
            humidity_fraction: pack_byte(bits, 8),
            temperature_integer: pack_byte(bits, 16),
            temperature_fraction: pack_byte(bits, 24),
            checksum: pack_byte(bits, 32),
        }
    }

    /// The checksum this frame should carry.
    pub fn expected_checksum(&self) -> (r: u8)
        ensures
            r as nat == checksum_of(*self),
    {
        let sum: u16 = self.humidity_integer as u16 + self.humidity_fraction as u16
            + self.temperature_integer as u16 + self.temperature_fraction as u16;
        (sum % 256) as u8
    }

    /// Whether the carried checksum matches the data bytes.
    pub fn checksum_ok(&self) -> (r: bool)
        ensures
            r == (self.checksum as nat == checksum_of(*self)),
    {
        self.checksum == self.expected_checksum()
    }

    /// Checks the checksum, then the plausibility of the values, and yields the reading.
    pub fn validate(&self) -> (r: Result<SensorReading, ProtocolError>)
        ensures
            r == validate_spec(*self),
    {
        if !self.checksum_ok() {
            Err(ProtocolError::ChecksumMismatch)
        } else if self.humidity_fraction > 9 || self.temperature_fraction > 9
            || self.humidity_integer as u16 * 10 + self.humidity_fraction as u16
            > MAX_HUMIDITY_TENTHS {
            Err(ProtocolError::MalformedFrame)
        } else {
            Ok(
                SensorReading {
                    humidity_integer: self.humidity_integer,
                    humidity_fraction: self.humidity_fraction,
                    temperature_integer: self.temperature_integer,
                    temperature_fraction: self.temperature_fraction,
                },
            )
        }
    }
}

impl SensorReading {
    pub open spec fn humidity_tenths_spec(&self) -> nat {
        (self.humidity_integer * 10 + self.humidity_fraction) as nat
    }

    pub open spec fn temperature_tenths_spec(&self) -> nat {
        (self.temperature_integer * 10 + self.temperature_fraction) as nat
    }

    /// Relative humidity in tenths of a percent.
    pub fn humidity_tenths(&self) -> (r: u16)
        ensures
            r as nat == self.humidity_tenths_spec(),
    {
        self.humidity_integer as u16 * 10 + self.humidity_fraction as u16
    }

    /// Temperature in tenths of a degree Celsius.
    pub fn temperature_tenths(&self) -> (r: u16)
        ensures
            r as nat == self.temperature_tenths_spec(),
    {
        self.temperature_integer as u16 * 10 + self.temperature_fraction as u16
    }
}

/// A frame whose checksum equals the sum of its data bytes modulo 256, and
/// whose values are plausible, is accepted as a reading carrying exactly
/// those integer and fraction bytes.
pub proof fn lemma_valid_frame_accepted(f: RawFrame)
    requires
        f.checksum as nat == checksum_of(f),
        is_sane(f),
    ensures
        validate_spec(f) == Ok::<SensorReading, ProtocolError>(reading_of(f)),
        reading_of(f).humidity_integer == f.humidity_integer,
        reading_of(f).humidity_fraction == f.humidity_fraction,
        reading_of(f).temperature_integer == f.temperature_integer,
        reading_of(f).temperature_fraction == f.temperature_fraction,
{
}

/// A frame whose checksum differs from the sum of its data bytes modulo 256
/// is always rejected as a checksum mismatch, whatever its data bytes.
pub proof fn lemma_bad_checksum_rejected(f: RawFrame)
    requires
        f.checksum as nat != checksum_of(f),
    ensures
        validate_spec(f) == Err::<SensorReading, ProtocolError>(ProtocolError::ChecksumMismatch),
{
}

} // verus!
