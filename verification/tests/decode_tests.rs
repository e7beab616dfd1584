use sensor_core::decode::decode;
use sensor_core::pulse::{PulseSample, MAX_COUNT, PULSE_SLOTS};
use sensor_core::reading::{Reading, ReadingError};

/// Build the 82-slot pulse train that transmits the given five bytes: a
/// handshake pair, then per bit a 50-count low and a high of 70 (set) or
/// 26 (clear).
fn pulses_for_bytes(bytes: [u8; 5]) -> Vec<u32> {
    let mut v = vec![80u32, 80u32];
    for byte in bytes {
        for n in 0..8 {
            let bit = (byte >> (7 - n)) & 1 == 1;
            v.push(50);
            v.push(if bit { 70 } else { 26 });
        }
    }
    v
}

fn sample_for_bytes(bytes: [u8; 5]) -> PulseSample {
    PulseSample::from_durations(pulses_for_bytes(bytes)).expect("well-formed pulse train")
}

#[test]
fn reference_pulse_train_decodes_exactly() {
    // 65.3 % relative humidity, 22.8 °C, consistent checksum.
    let sample = sample_for_bytes([0x02, 0x8D, 0x00, 0xE4, 0x73]);
    let reading = decode(&sample).expect("consistent checksum");
    assert_eq!(
        reading,
        Reading { temperature_tenths: 228, humidity_tenths: 653 }
    );
}

#[test]
fn negative_temperature_decodes_exactly() {
    // Sign bit set in the temperature high byte: -10.5 °C, 45.2 %.
    let sample = sample_for_bytes([0x01, 0xC4, 0x80, 0x69, 0xAE]);
    let reading = decode(&sample).expect("consistent checksum");
    assert_eq!(
        reading,
        Reading { temperature_tenths: -105, humidity_tenths: 452 }
    );
}

#[test]
fn checksum_mismatch_yields_checksum_error() {
    // Same data bytes as the reference train, checksum off by one.
    let sample = sample_for_bytes([0x02, 0x8D, 0x00, 0xE4, 0x74]);
    assert_eq!(decode(&sample), Err(ReadingError::Checksum));
}

#[test]
fn corrupted_data_byte_yields_checksum_error() {
    let sample = sample_for_bytes([0x02, 0x8C, 0x00, 0xE4, 0x73]);
    assert_eq!(decode(&sample), Err(ReadingError::Checksum));
}

#[test]
fn wrong_length_is_rejected() {
    assert!(PulseSample::from_durations(vec![10u32; PULSE_SLOTS - 1]).is_none());
    assert!(PulseSample::from_durations(vec![10u32; PULSE_SLOTS + 1]).is_none());
    assert!(PulseSample::from_durations(Vec::new()).is_none());
}

#[test]
fn duration_over_ceiling_is_rejected() {
    let mut v = vec![10u32; PULSE_SLOTS];
    v[40] = MAX_COUNT + 1;
    assert!(PulseSample::from_durations(v).is_none());
}

#[test]
fn duration_at_ceiling_is_accepted() {
    let v = vec![MAX_COUNT; PULSE_SLOTS];
    let sample = PulseSample::from_durations(v).expect("at the ceiling is fine");
    assert_eq!(sample.len(), PULSE_SLOTS);
    assert_eq!(sample.get(40), MAX_COUNT);
}

#[test]
fn high_equal_to_threshold_counts_as_a_set_bit() {
    // Every high duration equals the mean, so every bit decodes as set;
    // forty set bits give data bytes of 0xFF whose checksum cannot match.
    let sample = PulseSample::from_durations(vec![30u32; PULSE_SLOTS]).expect("uniform train");
    assert_eq!(decode(&sample), Err(ReadingError::Checksum));
}
