use drift::synth::drone::{DroneParam, MilliRange};
use drift::synth::envelope::EnvelopeStage;
use drift::synth::lfo::initial_rng_state;
use drift::synth::oscillator::{next_state, seed_state, Waveform};

#[test]
fn envelope_trigger_enters_attack_from_any_stage() {
    for stage in [
        EnvelopeStage::Idle,
        EnvelopeStage::Attack,
        EnvelopeStage::Decay,
        EnvelopeStage::Sustain,
        EnvelopeStage::Release,
    ] {
        assert_eq!(stage.on_trigger(), EnvelopeStage::Attack);
    }
}

#[test]
fn envelope_walks_attack_decay_sustain() {
    let mut stage = EnvelopeStage::Idle;
    assert!(!stage.is_active());
    stage = stage.on_trigger();
    assert_eq!(stage, EnvelopeStage::Attack);
    stage = stage.on_sample(false);
    assert_eq!(stage, EnvelopeStage::Attack);
    stage = stage.on_sample(true);
    assert_eq!(stage, EnvelopeStage::Decay);
    stage = stage.on_sample(false);
    assert_eq!(stage, EnvelopeStage::Decay);
    stage = stage.on_sample(true);
    assert_eq!(stage, EnvelopeStage::Sustain);
    for reached in [false, true, true, false] {
        stage = stage.on_sample(reached);
        assert_eq!(stage, EnvelopeStage::Sustain);
    }
    assert!(stage.is_active());
}

#[test]
fn envelope_release_ends_idle() {
    let mut stage = EnvelopeStage::Sustain.on_release();
    assert_eq!(stage, EnvelopeStage::Release);
    stage = stage.on_sample(false);
    assert_eq!(stage, EnvelopeStage::Release);
    assert!(stage.is_active());
    stage = stage.on_sample(true);
    assert_eq!(stage, EnvelopeStage::Idle);
    assert!(!stage.is_active());
    assert_eq!(stage.on_sample(true), EnvelopeStage::Idle);
    assert_eq!(stage.on_trigger(), EnvelopeStage::Attack);
    assert!(stage.on_trigger().is_active());
}

#[test]
fn envelope_release_is_a_no_op_from_idle_and_release() {
    assert_eq!(EnvelopeStage::Idle.on_release(), EnvelopeStage::Idle);
    assert_eq!(EnvelopeStage::Release.on_release(), EnvelopeStage::Release);
    assert!(!EnvelopeStage::Idle.can_release());
    assert!(!EnvelopeStage::Release.can_release());
    assert_eq!(EnvelopeStage::Attack.on_release(), EnvelopeStage::Release);
    assert_eq!(EnvelopeStage::Decay.on_release(), EnvelopeStage::Release);
    assert!(EnvelopeStage::Sustain.can_release());
}

#[test]
fn xorshift_first_states() {
    assert_eq!(next_state(1), 1082269761);
    assert_eq!(next_state(1082269761), 1152992998833853505);
    let mut state = initial_rng_state();
    assert_eq!(state, 12345);
    for _ in 0..1000 {
        state = next_state(state);
        assert_ne!(state, 0);
    }
}

#[test]
fn xorshift_seed_is_never_zero() {
    assert_eq!(seed_state(0), 1);
    assert_eq!(seed_state(1), 1);
    assert_eq!(seed_state(220_000), 220_000);
    assert_eq!(seed_state(u64::MAX), u64::MAX);
    // Equal seeds give equal noise.
    assert_eq!(next_state(seed_state(220_000)), next_state(seed_state(220_000)));
}

#[test]
fn drone_parameter_names() {
    let table = [
        ("pitch", DroneParam::Pitch),
        ("frequency", DroneParam::Pitch),
        ("amplitude", DroneParam::Amplitude),
        ("volume", DroneParam::Amplitude),
        ("filter", DroneParam::FilterCutoff),
        ("filter_cutoff", DroneParam::FilterCutoff),
        ("cutoff", DroneParam::FilterCutoff),
        ("filter_resonance", DroneParam::FilterResonance),
        ("resonance", DroneParam::FilterResonance),
        ("q", DroneParam::FilterResonance),
        ("filter_lfo_rate", DroneParam::FilterLfoRate),
        ("filter_lfo_freq", DroneParam::FilterLfoRate),
        ("filter_lfo_depth", DroneParam::FilterLfoDepth),
        ("vibrato_rate", DroneParam::VibratoRate),
        ("pitch_lfo_rate", DroneParam::VibratoRate),
        ("vibrato_depth", DroneParam::VibratoDepth),
        ("pitch_lfo_depth", DroneParam::VibratoDepth),
        ("noise_mix", DroneParam::NoiseMix),
        ("noise", DroneParam::NoiseMix),
        ("sub_mix", DroneParam::SubMix),
        ("sub", DroneParam::SubMix),
        ("attack", DroneParam::Attack),
        ("decay", DroneParam::Decay),
        ("sustain", DroneParam::Sustain),
        ("release", DroneParam::Release),
    ];
    for (name, param) in table {
        assert_eq!(DroneParam::from_name(name), Some(param), "{}", name);
    }
}

#[test]
fn drone_unknown_names_resolve_to_nothing() {
    for name in ["", "Pitch", "pitch ", "nonexistent", "Q", "filter_lfo"] {
        assert_eq!(DroneParam::from_name(name), None, "{:?}", name);
    }
}

#[test]
fn drone_parameter_ranges() {
    assert_eq!(DroneParam::Pitch.clamp_range(), MilliRange { low: 20_000, high: 20_000_000 });
    assert_eq!(DroneParam::Amplitude.clamp_range(), MilliRange { low: 0, high: 1_000 });
    assert_eq!(DroneParam::FilterCutoff.clamp_range(), MilliRange { low: 20_000, high: 20_000_000 });
    assert_eq!(DroneParam::FilterResonance.clamp_range(), MilliRange { low: 100, high: 20_000 });
    assert_eq!(DroneParam::FilterLfoRate.clamp_range(), MilliRange { low: 10, high: 20_000 });
    assert_eq!(DroneParam::FilterLfoDepth.clamp_range(), MilliRange { low: 0, high: 5_000_000 });
    assert_eq!(DroneParam::VibratoRate.clamp_range(), MilliRange { low: 100, high: 20_000 });
    assert_eq!(DroneParam::VibratoDepth.clamp_range(), MilliRange { low: 0, high: 100_000 });
    assert_eq!(DroneParam::NoiseMix.clamp_range(), MilliRange { low: 0, high: 1_000 });
    assert_eq!(DroneParam::SubMix.clamp_range(), MilliRange { low: 0, high: 1_000 });
    assert_eq!(DroneParam::Attack.clamp_range(), MilliRange { low: 1, high: 10_000 });
    assert_eq!(DroneParam::Decay.clamp_range(), MilliRange { low: 1, high: 10_000 });
    assert_eq!(DroneParam::Sustain.clamp_range(), MilliRange { low: 0, high: 1_000 });
    assert_eq!(DroneParam::Release.clamp_range(), MilliRange { low: 1, high: 30_000 });
}

#[test]
fn drone_envelope_parameters_are_write_only() {
    assert!(DroneParam::Pitch.is_readable());
    assert!(DroneParam::SubMix.is_readable());
    assert!(!DroneParam::Attack.is_readable());
    assert!(!DroneParam::Decay.is_readable());
    assert!(!DroneParam::Sustain.is_readable());
    assert!(!DroneParam::Release.is_readable());
}

#[test]
fn noise_waveforms() {
    for waveform in [Waveform::WhiteNoise, Waveform::PinkNoise, Waveform::BrownNoise] {
        assert!(waveform.is_noise());
    }
    for waveform in [Waveform::Sine, Waveform::Triangle, Waveform::Saw, Waveform::Square] {
        assert!(!waveform.is_noise());
    }
}
