use beamform::errors::PipelineError;
use beamform::layout::{
    bytes_to_words, config_to_bytes, records_to_words, sample_extent, word_to_bytes,
    words_to_bytes, words_to_records, BeamformingConfig, InputRecord, CONFIG_STRIDE,
    RECORD_STRIDE, SAMPLE_STRIDE,
};

#[test]
fn strides_match_the_layout_contract() {
    assert_eq!(SAMPLE_STRIDE, 4);
    assert_eq!(CONFIG_STRIDE, 4);
    assert_eq!(RECORD_STRIDE, 8);
}

#[test]
fn word_packs_least_significant_byte_first() {
    assert_eq!(word_to_bytes(0x0102_0304), vec![0x04, 0x03, 0x02, 0x01]);
    assert_eq!(word_to_bytes(0), vec![0, 0, 0, 0]);
    assert_eq!(word_to_bytes(u32::MAX), vec![0xff, 0xff, 0xff, 0xff]);
}

#[test]
fn words_round_trip_through_bytes() {
    let words: Vec<u32> = vec![0, 1, 0xdead_beef, u32::MAX, 42];
    let bytes = words_to_bytes(&words);
    assert_eq!(bytes.len(), 4 * words.len());
    let back = bytes_to_words(&bytes).unwrap();
    assert_eq!(back, words);
}

#[test]
fn float_bit_patterns_survive_the_byte_image() {
    let samples: Vec<f32> = vec![1.0, -2.5, 1540.0, 0.0, f32::MIN_POSITIVE];
    let words: Vec<u32> = samples.iter().map(|s| s.to_bits()).collect();
    let bytes = words_to_bytes(&words);
    let back = bytes_to_words(&bytes).unwrap();
    for (sample, word) in samples.iter().zip(back.iter()) {
        assert_eq!(sample.to_bits(), *word);
        assert_eq!(*sample, f32::from_bits(*word));
    }
}

#[test]
fn ragged_byte_image_is_invalid_size() {
    let bytes: Vec<u8> = vec![1, 2, 3];
    assert_eq!(bytes_to_words(&bytes), Err(PipelineError::InvalidSize));
    let bytes: Vec<u8> = vec![1, 2, 3, 4, 5];
    assert_eq!(bytes_to_words(&bytes), Err(PipelineError::InvalidSize));
}

#[test]
fn empty_image_is_no_words() {
    let bytes: Vec<u8> = Vec::new();
    assert_eq!(bytes_to_words(&bytes), Ok(Vec::new()));
}

#[test]
fn records_round_trip_in_field_order() {
    let records = vec![
        InputRecord { value_bits: 1f32.to_bits(), multiplier_bits: 2f32.to_bits() },
        InputRecord { value_bits: 3f32.to_bits(), multiplier_bits: 4f32.to_bits() },
    ];
    let words = records_to_words(&records);
    assert_eq!(
        words,
        vec![1f32.to_bits(), 2f32.to_bits(), 3f32.to_bits(), 4f32.to_bits()]
    );
    let back = words_to_records(&words).unwrap();
    assert_eq!(back, records);
}

#[test]
fn odd_word_image_is_no_record_list() {
    let words: Vec<u32> = vec![1, 2, 3];
    assert_eq!(words_to_records(&words), Err(PipelineError::InvalidSize));
}

#[test]
fn sample_extent_is_four_bytes_per_sample() {
    assert_eq!(sample_extent(0), Ok(0));
    assert_eq!(sample_extent(1), Ok(4));
    assert_eq!(sample_extent(256), Ok(1024));
    assert_eq!(sample_extent(usize::MAX), Err(PipelineError::InvalidSize));
}

#[test]
fn config_packs_its_one_scalar() {
    let config = BeamformingConfig { speed_of_sound_bits: 1540f32.to_bits() };
    let bytes = config_to_bytes(&config);
    assert_eq!(bytes.len(), CONFIG_STRIDE);
    assert_eq!(bytes, word_to_bytes(1540f32.to_bits()));
}
