use compressor::curve::{
    gain_region, get_calculator, Coloration, CompressionCharacter, GainRegion, GainShaping,
    LevelPosition, ProcessorMode,
};
use compressor::detection::{detection_source, DetectionMode};

fn position(level: f32, threshold: f32, knee: f32) -> LevelPosition {
    LevelPosition {
        at_or_below: level <= threshold,
        at_or_above: level >= threshold,
        inside_knee: knee > 0.0 && level < threshold + knee,
    }
}

#[test]
fn compress_leaves_levels_at_or_below_threshold() {
    for level in [0.0f32, 0.1, 0.24, 0.25] {
        for knee in [0.0f32, 0.5, 1.0] {
            let r = gain_region(ProcessorMode::Compress, position(level, 0.25, knee));
            assert_eq!(r, GainRegion::Unity);
        }
    }
}

#[test]
fn compress_above_threshold_uses_knee_then_curve() {
    let knee = 0.5f32;
    assert_eq!(
        gain_region(ProcessorMode::Compress, position(0.3, 0.25, knee)),
        GainRegion::Knee
    );
    assert_eq!(
        gain_region(ProcessorMode::Compress, position(0.75, 0.25, knee)),
        GainRegion::Compressed
    );
    assert_eq!(
        gain_region(ProcessorMode::Compress, position(0.5, 0.25, 0.0)),
        GainRegion::Compressed
    );
}

#[test]
fn expand_and_gate_leave_levels_at_or_above_threshold() {
    for level in [0.25f32, 0.5, 1.0] {
        assert_eq!(
            gain_region(ProcessorMode::Expand, position(level, 0.25, 0.5)),
            GainRegion::Unity
        );
        assert_eq!(
            gain_region(ProcessorMode::Gate, position(level, 0.25, 0.5)),
            GainRegion::Unity
        );
    }
}

#[test]
fn expand_and_gate_below_threshold() {
    assert_eq!(
        gain_region(ProcessorMode::Expand, position(0.1, 0.25, 0.5)),
        GainRegion::Expanded
    );
    assert_eq!(
        gain_region(ProcessorMode::Gate, position(0.1, 0.25, 0.5)),
        GainRegion::Gated
    );
}

#[test]
fn unordered_level_takes_the_curve() {
    let p = position(f32::NAN, 0.25, 0.5);
    assert_eq!(gain_region(ProcessorMode::Compress, p), GainRegion::Compressed);
    assert_eq!(gain_region(ProcessorMode::Expand, p), GainRegion::Expanded);
}

#[test]
fn each_character_has_its_curve() {
    for c in [
        CompressionCharacter::Clean,
        CompressionCharacter::Smooth,
        CompressionCharacter::Punchy,
        CompressionCharacter::Vintage,
    ] {
        assert_eq!(get_calculator(&c).character(), c);
    }
}

#[test]
fn character_shaping_and_coloration() {
    let clean = get_calculator(&CompressionCharacter::Clean);
    let smooth = get_calculator(&CompressionCharacter::Smooth);
    let punchy = get_calculator(&CompressionCharacter::Punchy);
    let vintage = get_calculator(&CompressionCharacter::Vintage);

    assert_eq!(clean.shaping(ProcessorMode::Compress), GainShaping::Unchanged);
    assert_eq!(smooth.shaping(ProcessorMode::Gate), GainShaping::Softened);
    assert_eq!(punchy.shaping(ProcessorMode::Compress), GainShaping::Steepened);
    assert_eq!(punchy.shaping(ProcessorMode::Expand), GainShaping::Unchanged);
    assert_eq!(punchy.shaping(ProcessorMode::Gate), GainShaping::Unchanged);
    assert_eq!(vintage.shaping(ProcessorMode::Expand), GainShaping::Damped);

    assert_eq!(clean.coloration(), Coloration::Linear);
    assert_eq!(smooth.coloration(), Coloration::EvenHarmonic);
    assert_eq!(punchy.coloration(), Coloration::Linear);
    assert_eq!(vintage.coloration(), Coloration::EvenAndOddHarmonics);

    assert!(vintage.widens_knee());
    assert!(!clean.widens_knee());
    assert!(!smooth.widens_knee());
    assert!(!punchy.widens_knee());
}

#[test]
fn detection_uses_sidechain_only_when_enabled_and_given() {
    assert_eq!(detection_source(0.5f32, Some(0.9), true), 0.9);
    assert_eq!(detection_source(0.5f32, Some(0.9), false), 0.5);
    assert_eq!(detection_source(0.5f32, None, true), 0.5);
    assert_eq!(detection_source(0.5f32, None, false), 0.5);
}

#[test]
fn log_rms_is_measured_as_rms() {
    assert!(!DetectionMode::Peak.averages_window());
    assert!(DetectionMode::RMS.averages_window());
    assert!(DetectionMode::LogRMS.averages_window());
}
