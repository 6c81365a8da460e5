use drift::config::{MappingKind, VoiceKind};
use drift::engine::mixer::{
    default_ranges, layers_for_source, plan_pipeline, quantize_root_hz, quantize_scale,
    resolve_voice, StageKind,
};

#[test]
fn voice_resolution_table() {
    let choice = resolve_voice(VoiceKind::Drone);
    assert_eq!(choice.built, VoiceKind::Drone);
    assert!(!choice.substituted);
    for kind in [VoiceKind::Percussion, VoiceKind::Melody, VoiceKind::Texture] {
        let choice = resolve_voice(kind);
        assert_eq!(choice.built, VoiceKind::Drone);
        assert!(choice.substituted);
    }
}

#[test]
fn pipeline_plans() {
    assert_eq!(plan_pipeline(MappingKind::Linear), vec![StageKind::Linear]);
    assert_eq!(plan_pipeline(MappingKind::Logarithmic), vec![StageKind::Logarithmic]);
    assert_eq!(plan_pipeline(MappingKind::Exponential), vec![StageKind::Exponential]);
    assert_eq!(plan_pipeline(MappingKind::Threshold), vec![StageKind::Threshold]);
    assert_eq!(
        plan_pipeline(MappingKind::Quantize),
        vec![StageKind::Linear, StageKind::Quantize]
    );
}

#[test]
fn quantize_stage_defaults() {
    assert_eq!(quantize_root_hz(), 220);
    let scale = quantize_scale();
    assert_eq!(scale.name(), "minor_pentatonic");
    assert_eq!(scale.intervals(), &[0, 3, 5, 7, 10]);
    let ranges = default_ranges();
    assert_eq!((ranges.in_min, ranges.in_max, ranges.out_min, ranges.out_max), (0, 100, 0, 1));
}

#[test]
fn readings_reach_only_layers_of_their_source() {
    let layers = vec![
        "weather".to_string(),
        "system".to_string(),
        "weather".to_string(),
        "git".to_string(),
    ];
    assert_eq!(layers_for_source(&layers, "weather"), vec![0, 2]);
    assert_eq!(layers_for_source(&layers, "system"), vec![1]);
    assert_eq!(layers_for_source(&layers, "git"), vec![3]);
    assert!(layers_for_source(&layers, "price").is_empty());
    assert!(layers_for_source(&layers, "Weather").is_empty());
    assert!(layers_for_source(&Vec::new(), "weather").is_empty());
}
