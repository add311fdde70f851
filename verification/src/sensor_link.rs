//! Decoding of the single-wire sensor protocol.
//!
//! One transaction yields a 40-bit frame: 16 bits of raw humidity, 16 bits
//! of raw temperature (both big-endian, in tenths of a unit) and a mod-256
//! checksum byte.  On the wire each bit is a high pulse whose duration
//! decides its value.  The electrical side (driving the start signal,
//! waiting for edges, measuring pulse widths) happens outside the library;
//! the decisions — timeout bounds, pulse classification, bit and byte
//! assembly, checksum validation, unit conversion — are verified here.

use vstd::prelude::*;

use crate::errors::SensorError;
use crate::reading::SensorData;

verus! {

/// Upper bound, in milliseconds, on any single wait for a line edge.
pub const TIMEOUT_MS: u64 = 300;

/// Duration, in milliseconds, the line is held low to wake the sensor.
pub const START_SIGNAL_LOW_MS: u64 = 18;

/// Boundary, in microseconds, between a "short" high pulse (bit 0) and a
/// "long" one (bit 1).
pub const PULSE_THRESHOLD_US: u64 = 30;

/// Whether a wait that has lasted `elapsed_ms` milliseconds has exceeded
/// the protocol's timeout bound and the transaction must fail with
/// `SensorError::Timeout`.
pub fn is_timeout(elapsed_ms: u64) -> (r: bool)
    ensures
        r <==> elapsed_ms > TIMEOUT_MS,
{
    elapsed_ms > TIMEOUT_MS
}

/// The bit value of one high pulse of `high_us` microseconds: a pulse
/// longer than the threshold decodes as 1, else as 0.
pub fn classify_pulse(high_us: u64) -> (r: bool)
    ensures
        r <==> high_us > PULSE_THRESHOLD_US,
{
    high_us > PULSE_THRESHOLD_US
}

/// The bit decoded from pulse duration `d`, as 0 or 1.
pub open spec fn spec_bit_of(d: u64) -> int {
    if d > PULSE_THRESHOLD_US {
        1
    } else {
        0
    }
}

/// The byte assembled from eight pulse durations, most significant bit
/// first.
pub open spec fn spec_byte_of(p: Seq<u64>) -> int
    decreases p.len(),
{
    if p.len() == 0 {
        0
    } else {
        spec_byte_of(p.drop_last()) * 2 + spec_bit_of(p.last())
    }
}

proof fn lemma_spec_byte_of_bound(p: Seq<u64>)
    ensures
        0 <= spec_byte_of(p) < pow2_nat(p.len()),
    decreases p.len(),
{
    if p.len() > 0 {
        lemma_spec_byte_of_bound(p.drop_last());
    }
}

proof fn lemma_pow2_pos(n: nat)
    ensures
        pow2_nat(n) >= 1,
    decreases n,
{
    if n > 0 {
        lemma_pow2_pos((n - 1) as nat);
    }
}

proof fn lemma_pow2_mono(a: nat, b: nat)
    requires
        a <= b,
    ensures
        pow2_nat(a) <= pow2_nat(b),
    decreases b,
{
    if a < b {
        lemma_pow2_mono(a, (b - 1) as nat);
        lemma_pow2_pos((b - 1) as nat);
    }
}

/// 2 to the power `n`.
spec fn pow2_nat(n: nat) -> int
    decreases n,
{
    if n == 0 {
        1
    } else {
        2 * pow2_nat((n - 1) as nat)
    }
}

/// Assembles one byte from the eight measured high-pulse durations at
/// `pulses[start..start + 8]`, most significant bit first: each duration
/// above `PULSE_THRESHOLD_US` contributes a 1 bit.
pub fn decode_byte(pulses: &Vec<u64>, start: usize) -> (r: u8)
    requires
        start + 8 <= pulses@.len(),
    ensures
        r as int == spec_byte_of(pulses@.subrange(start as int, start as int + 8)),
{
    let ghost window = pulses@.subrange(start as int, start as int + 8);
    let n: usize = pulses.len();
    let mut value: u16 = 0;
    let mut i: usize = 0;
    while i < 8
        invariant
            i <= 8,
            start + 8 <= n == pulses@.len(),
            window == pulses@.subrange(start as int, start as int + 8),
            value as int == spec_byte_of(window.take(i as int)),
        decreases 8 - i,
    {
        proof {
            lemma_spec_byte_of_bound(window.take(i as int));
            lemma_pow2_mono(i as nat, 7nat);
            assert(pow2_nat(7nat) == 128) by {
                reveal_with_fuel(pow2_nat, 8);
            }
            assert(window.take(i as int + 1).drop_last() =~= window.take(i as int));
            assert(window.take(i as int + 1).last() == window[i as int]);
            assert(window[i as int] == pulses@[start as int + i as int]);
        }
        let bit: u16 = if classify_pulse(pulses[start + i]) {
            1
        } else {
            0
        };
        value = value * 2 + bit;
        i = i + 1;
    }
    proof {
        assert(window.take(8) =~= window);
        lemma_spec_byte_of_bound(window);
        assert(pow2_nat(8nat) == 256) by {
            reveal_with_fuel(pow2_nat, 9);
        }
    }
    value as u8
}

/// One 40-bit frame as read off the wire: two raw humidity bytes, two raw
/// temperature bytes (big-endian), and a checksum byte.
#[derive(Clone, Copy, Debug, PartialEq, Eq, Structural)]
pub struct Frame {
    pub b0: u8,
    pub b1: u8,
    pub b2: u8,
    pub b3: u8,
    pub b4: u8,
}

/// The checksum a valid frame must carry: the mod-256 sum of its first
/// four bytes.
pub open spec fn spec_checksum(f: Frame) -> int {
    (f.b0 + f.b1 + f.b2 + f.b3) % 256
}

/// Whether the frame's fifth byte matches the checksum of the first four.
pub open spec fn checksum_ok(f: Frame) -> bool {
    f.b4 as int == spec_checksum(f)
}

/// The raw humidity value of a frame: its first two bytes, big-endian.
pub open spec fn spec_hum_raw(f: Frame) -> int {
    f.b0 * 256 + f.b1
}

/// The raw temperature value of a frame: its third and fourth bytes,
/// big-endian.
pub open spec fn spec_temp_raw(f: Frame) -> int {
    f.b2 * 256 + f.b3
}

/// The reading a valid frame decodes to, in tenths of a unit.
pub open spec fn spec_reading_of(f: Frame) -> SensorData {
    SensorData { temp_tenths: spec_temp_raw(f) as i32, hum_tenths: spec_hum_raw(f) as i32 }
}

/// Checks the frame's checksum: succeeds exactly on the frames whose byte
/// 4 equals the mod-256 sum of bytes 0 to 3, and fails with
/// `ChecksumMismatch` on every other frame.
pub fn validate_frame(f: &Frame) -> (r: Result<(), SensorError>)
    ensures
        r is Ok <==> checksum_ok(*f),
        !checksum_ok(*f) ==> r == Err::<(), SensorError>(SensorError::ChecksumMismatch),
{
    let sum: u32 = f.b0 as u32 + f.b1 as u32 + f.b2 as u32 + f.b3 as u32;
    let expected: u8 = (sum % 256) as u8;
    if f.b4 == expected {
        Ok(())
    } else {
        Err(SensorError::ChecksumMismatch)
    }
}

/// Decodes one frame: a frame with a correct checksum yields exactly the
/// reading made of its raw big-endian values, unmodified; any other frame
/// fails with `ChecksumMismatch`.
pub fn decode_frame(f: &Frame) -> (r: Result<SensorData, SensorError>)
    ensures
        checksum_ok(*f) ==> r == Ok::<SensorData, SensorError>(spec_reading_of(*f)),
        !checksum_ok(*f) ==> r == Err::<SensorData, SensorError>(SensorError::ChecksumMismatch),
{
    match validate_frame(f) {
        Ok(_) => {
            let hum: u16 = (f.b0 as u16) * 256 + (f.b1 as u16);
            let temp: u16 = (f.b2 as u16) * 256 + (f.b3 as u16);
            Ok(SensorData { temp_tenths: temp as i32, hum_tenths: hum as i32 })
        },
        Err(e) => Err(e),
    }
}

/// The frame that a sequence of 40 pulse durations decodes to, one byte
/// per group of eight pulses, most significant bit first.
pub open spec fn spec_frame_of(p: Seq<u64>) -> Frame {
    Frame {
        b0: spec_byte_of(p.subrange(0, 8)) as u8,
        b1: spec_byte_of(p.subrange(8, 16)) as u8,
        b2: spec_byte_of(p.subrange(16, 24)) as u8,
        b3: spec_byte_of(p.subrange(24, 32)) as u8,
        b4: spec_byte_of(p.subrange(32, 40)) as u8,
    }
}

/// Assembles the 40 measured high-pulse durations of one transaction into
/// the frame they encode.
pub fn frame_from_pulses(pulses: &Vec<u64>) -> (f: Frame)
    requires
        pulses@.len() == 40,
    ensures
        f == spec_frame_of(pulses@),
{
    let f = Frame {
        b0: decode_byte(pulses, 0),
        b1: decode_byte(pulses, 8),
        b2: decode_byte(pulses, 16),
        b3: decode_byte(pulses, 24),
        b4: decode_byte(pulses, 32),
    };
    proof {
        lemma_spec_byte_of_bound(pulses@.subrange(0, 8));
        lemma_spec_byte_of_bound(pulses@.subrange(8, 16));
        lemma_spec_byte_of_bound(pulses@.subrange(16, 24));
        lemma_spec_byte_of_bound(pulses@.subrange(24, 32));
        lemma_spec_byte_of_bound(pulses@.subrange(32, 40));
        assert(pow2_nat(8nat) == 256) by {
            reveal_with_fuel(pow2_nat, 9);
        }
    }
    f
}

/// Decodes one full transaction: the 40 measured pulse durations are
/// assembled into a frame, the checksum is checked, and the raw values
/// are combined into a reading in tenths of a unit.
pub fn decode_transaction(pulses: &Vec<u64>) -> (r: Result<SensorData, SensorError>)
    requires
        pulses@.len() == 40,
    ensures
        checksum_ok(spec_frame_of(pulses@)) ==> r == Ok::<SensorData, SensorError>(
            spec_reading_of(spec_frame_of(pulses@)),
        ),
        !checksum_ok(spec_frame_of(pulses@)) ==> r == Err::<SensorData, SensorError>(
            SensorError::ChecksumMismatch,
        ),
{
    let f = frame_from_pulses(pulses);
    decode_frame(&f)
}

} // verus!
