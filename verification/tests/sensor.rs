//! Frame decoding, unit conversion and bounded-retry acquisition.

use fermentation_core::acquisition::AcquisitionState;
use fermentation_core::acquisition::AcquisitionStep;
use fermentation_core::acquisition::sanity_check_sensor_data;
use fermentation_core::errors::AcquisitionError;
use fermentation_core::errors::AttemptFailure;
use fermentation_core::errors::SensorError;
use fermentation_core::reading::SensorData;
use fermentation_core::reading::split_tenths;
use fermentation_core::sensor_link::Frame;
use fermentation_core::sensor_link::classify_pulse;
use fermentation_core::sensor_link::decode_byte;
use fermentation_core::sensor_link::decode_frame;
use fermentation_core::sensor_link::decode_transaction;
use fermentation_core::sensor_link::frame_from_pulses;
use fermentation_core::sensor_link::is_timeout;
use fermentation_core::sensor_link::validate_frame;

#[test]
fn valid_frame_decodes_to_its_raw_values() {
    let f = Frame { b0: 1, b1: 2, b2: 3, b3: 4, b4: 10 };
    assert!(validate_frame(&f).is_ok());
    let r = decode_frame(&f).unwrap();
    assert_eq!(r, SensorData { temp_tenths: 772, hum_tenths: 258 });
}

#[test]
fn checksum_wraps_modulo_256() {
    let f = Frame { b0: 200, b1: 100, b2: 50, b3: 25, b4: 119 };
    assert!(validate_frame(&f).is_ok());
    let r = decode_frame(&f).unwrap();
    assert_eq!(r.hum_tenths, 200 * 256 + 100);
    assert_eq!(r.temp_tenths, 50 * 256 + 25);
}

#[test]
fn corrupt_frame_fails_with_checksum_mismatch() {
    let f = Frame { b0: 1, b1: 2, b2: 3, b3: 4, b4: 11 };
    assert_eq!(validate_frame(&f), Err(SensorError::ChecksumMismatch));
    assert_eq!(decode_frame(&f), Err(SensorError::ChecksumMismatch));
}

#[test]
fn every_valid_checksum_round_trips_through_decode() {
    for b0 in [0u8, 1, 77, 255] {
        for b3 in [0u8, 9, 128, 255] {
            let b4 = ((b0 as u16 + 20 + 30 + b3 as u16) % 256) as u8;
            let f = Frame { b0, b1: 20, b2: 30, b3, b4 };
            let r = decode_frame(&f).unwrap();
            assert_eq!(r.hum_tenths, b0 as i32 * 256 + 20);
            assert_eq!(r.temp_tenths, 30 * 256 + b3 as i32);
        }
    }
}

#[test]
fn pulse_classification_uses_the_30_microsecond_boundary() {
    assert!(!classify_pulse(30));
    assert!(classify_pulse(31));
    assert!(!classify_pulse(0));
    assert!(classify_pulse(70));
}

#[test]
fn timeout_bound_is_300_milliseconds() {
    assert!(!is_timeout(300));
    assert!(is_timeout(301));
}

#[test]
fn bytes_assemble_most_significant_bit_first() {
    // 0b10000000: one long pulse, then seven short ones.
    let pulses = vec![50, 10, 10, 10, 10, 10, 10, 10];
    assert_eq!(decode_byte(&pulses, 0), 128);
    // 0b00001010
    let pulses = vec![10, 10, 10, 10, 50, 10, 50, 10];
    assert_eq!(decode_byte(&pulses, 0), 10);
}

#[test]
fn a_whole_transaction_decodes_from_pulses() {
    let mut pulses: Vec<u64> = Vec::new();
    // b0 = 1, b1 = 2, b2 = 3, b3 = 4, b4 = 10: a valid frame.
    for byte in [1u8, 2, 3, 4, 10] {
        for bit in (0..8).rev() {
            pulses.push(if byte & (1 << bit) != 0 { 50 } else { 10 });
        }
    }
    let f = frame_from_pulses(&pulses);
    assert_eq!(f, Frame { b0: 1, b1: 2, b2: 3, b3: 4, b4: 10 });
    let r = decode_transaction(&pulses).unwrap();
    assert_eq!(r, SensorData { temp_tenths: 772, hum_tenths: 258 });
}

#[test]
fn unit_conversion_divides_by_ten_exactly() {
    assert_eq!(split_tenths(384), (38, 4));
    assert_eq!(split_tenths(0), (0, 0));
    assert_eq!(split_tenths(1000), (100, 0));
    assert_eq!(split_tenths(7), (0, 7));
    // The floating rendering of raw 384 is exactly 38.4.
    let (whole, tenth) = split_tenths(384);
    let as_float = whole as f32 + tenth as f32 / 10.0;
    assert_eq!(as_float, 38.4);
}

#[test]
fn hot_reading_is_rejected_by_the_plausibility_check() {
    let r = SensorData { temp_tenths: 600, hum_tenths: 500 };
    assert_eq!(sanity_check_sensor_data(&r), Err(AttemptFailure::Implausible));
}

#[test]
fn negative_humidity_is_rejected_by_the_plausibility_check() {
    let r = SensorData { temp_tenths: 200, hum_tenths: -50 };
    assert_eq!(sanity_check_sensor_data(&r), Err(AttemptFailure::Implausible));
}

#[test]
fn boundary_readings_are_plausible() {
    assert!(sanity_check_sensor_data(&SensorData { temp_tenths: 0, hum_tenths: 0 }).is_ok());
    assert!(sanity_check_sensor_data(&SensorData { temp_tenths: 500, hum_tenths: 1000 }).is_ok());
}

#[test]
fn acquisition_fails_exactly_at_the_fifth_failure() {
    let mut state = AcquisitionState::new();
    for _ in 0..4 {
        let step = state.on_attempt(Err(SensorError::Timeout));
        assert_eq!(step, AcquisitionStep::Retry);
    }
    let step = state.on_attempt(Err(SensorError::Timeout));
    assert_eq!(
        step,
        AcquisitionStep::Failed(AcquisitionError::AcquisitionExhausted(AttemptFailure::Protocol(
            SensorError::Timeout
        )))
    );
}

#[test]
fn implausible_reading_consumes_a_retry_like_a_protocol_failure() {
    let hot = SensorData { temp_tenths: 600, hum_tenths: 500 };
    let mut with_reading = AcquisitionState::new();
    let mut with_error = AcquisitionState::new();
    let step_reading = with_reading.on_attempt(Ok(hot));
    let step_error = with_error.on_attempt(Err(SensorError::ChecksumMismatch));
    assert_eq!(step_reading, AcquisitionStep::Retry);
    assert_eq!(step_error, AcquisitionStep::Retry);
    assert_eq!(with_reading.retries, 1);
    assert_eq!(with_error.retries, 1);
}

#[test]
fn exhaustion_carries_the_last_cause() {
    let hot = SensorData { temp_tenths: 600, hum_tenths: 500 };
    let mut state = AcquisitionState::new();
    for _ in 0..4 {
        assert_eq!(state.on_attempt(Err(SensorError::Timeout)), AcquisitionStep::Retry);
    }
    let step = state.on_attempt(Ok(hot));
    assert_eq!(
        step,
        AcquisitionStep::Failed(AcquisitionError::AcquisitionExhausted(
            AttemptFailure::Implausible
        ))
    );
}

#[test]
fn plausible_reading_ends_the_acquisition() {
    let good = SensorData { temp_tenths: 250, hum_tenths: 700 };
    let mut state = AcquisitionState::new();
    assert_eq!(state.on_attempt(Err(SensorError::Timeout)), AcquisitionStep::Retry);
    assert_eq!(state.on_attempt(Ok(good)), AcquisitionStep::Done(good));
}
