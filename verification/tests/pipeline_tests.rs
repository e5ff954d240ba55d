use beamform::dispatch::{record_submission, Command};
use beamform::errors::PipelineError;
use beamform::group_count;
use beamform::layout::{records_to_words, words_to_bytes, BeamformingConfig, InputRecord};
use beamform::pipeline::{output_words, plan_compute};

#[test]
fn group_count_is_the_ceiling_of_the_channel_division() {
    assert_eq!(group_count(0), Ok(0));
    assert_eq!(group_count(1), Ok(1));
    assert_eq!(group_count(64), Ok(1));
    assert_eq!(group_count(65), Ok(2));
    assert_eq!(group_count(256), Ok(4));
    assert_eq!(group_count(usize::MAX), Err(PipelineError::InvalidSize));
}

#[test]
fn the_submission_is_recorded_in_strict_order() {
    let cmds = record_submission(4).unwrap();
    assert_eq!(
        cmds,
        vec![
            Command::WriteConfig,
            Command::Dispatch { groups: 4 },
            Command::CopyToStaging { bytes: 16 },
        ]
    );
}

#[test]
fn the_plan_fixes_shape_buffers_and_commands() {
    let config = BeamformingConfig { speed_of_sound_bits: 1540f32.to_bits() };
    let plan = plan_compute(256, config).unwrap();
    assert_eq!(plan.groups, 4);
    assert_eq!(plan.input_buffer.byte_size, 1024);
    assert_eq!(plan.bindings.output.byte_size, 16);
    assert_eq!(plan.staging_buffer.byte_size, 16);
    assert_eq!(plan.uniform_buffer.byte_size, 4);
    assert_eq!(plan.bindings.input, plan.input_buffer);
    assert_eq!(plan.commands, record_submission(4).unwrap());
    assert_eq!(plan.config, config);
}

#[test]
fn planning_twice_yields_the_same_plan() {
    let config = BeamformingConfig { speed_of_sound_bits: 1540f32.to_bits() };
    let first = plan_compute(100, config).unwrap();
    let second = plan_compute(100, config).unwrap();
    assert_eq!(first.groups, second.groups);
    assert_eq!(first.input_buffer, second.input_buffer);
    assert_eq!(first.bindings.output, second.bindings.output);
    assert_eq!(first.staging_buffer, second.staging_buffer);
    assert_eq!(first.uniform_buffer, second.uniform_buffer);
    assert_eq!(first.commands, second.commands);
}

#[test]
fn an_empty_input_cannot_be_planned() {
    let config = BeamformingConfig { speed_of_sound_bits: 0 };
    assert!(matches!(
        plan_compute(0, config),
        Err(PipelineError::InvalidSize)
    ));
}

#[test]
fn readback_bytes_unpack_to_the_staged_words() {
    let staged: Vec<u32> = vec![2f32.to_bits(), 6f32.to_bits(), 12f32.to_bits(), 20f32.to_bits()];
    let bytes = words_to_bytes(&staged);
    let words = output_words(4, &bytes).unwrap();
    assert_eq!(words, staged);
}

#[test]
fn a_readback_of_the_wrong_extent_is_invalid_size() {
    let bytes: Vec<u8> = vec![0; 12];
    assert_eq!(output_words(4, &bytes), Err(PipelineError::InvalidSize));
}

#[test]
fn four_records_multiply_elementwise() {
    // Four input records under elementwise-multiply semantics.
    let records = vec![
        InputRecord { value_bits: 1f32.to_bits(), multiplier_bits: 2f32.to_bits() },
        InputRecord { value_bits: 2f32.to_bits(), multiplier_bits: 3f32.to_bits() },
        InputRecord { value_bits: 3f32.to_bits(), multiplier_bits: 4f32.to_bits() },
        InputRecord { value_bits: 4f32.to_bits(), multiplier_bits: 5f32.to_bits() },
    ];
    let words = records_to_words(&records);
    let bytes = words_to_bytes(&words);
    assert_eq!(bytes.len(), records.len() * beamform::layout::RECORD_STRIDE);
    let results: Vec<f32> = records
        .iter()
        .map(|r| f32::from_bits(r.value_bits) * f32::from_bits(r.multiplier_bits))
        .collect();
    assert_eq!(results, vec![2.0, 6.0, 12.0, 20.0]);
}
