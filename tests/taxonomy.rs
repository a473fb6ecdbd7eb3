use imbolc_types::audio::ServerStatus;
use imbolc_types::effect::EffectType;
use imbolc_types::filter::{EqBandType, EqPreset, FilterType, EQ_BAND_COUNT};
use imbolc_types::session::MixerSelection;
use imbolc_types::source_type::SourceType;
use imbolc_types::vst::VstPluginKind;

fn assert_distinct_non_empty(names: &[&str]) {
    for (i, a) in names.iter().enumerate() {
        assert!(!a.is_empty());
        for b in &names[i + 1..] {
            assert_ne!(a, b);
        }
    }
}

#[test]
fn source_names_are_distinct_and_non_empty() {
    let all = SourceType::all();
    assert_eq!(all.len(), 26);
    let names: Vec<&str> = all.iter().map(|s| s.name()).collect();
    let slugs: Vec<&str> = all.iter().map(|s| s.short_name()).collect();
    let defs: Vec<&str> = all.iter().map(|s| s.synth_def_name()).collect();
    assert_distinct_non_empty(&names);
    assert_distinct_non_empty(&slugs);
    assert_distinct_non_empty(&defs);
}

#[test]
fn effect_names_are_distinct_and_non_empty() {
    let all = EffectType::all();
    assert_eq!(all.len(), 37);
    let names: Vec<&str> = all.iter().map(|e| e.name()).collect();
    let defs: Vec<&str> = all.iter().map(|e| e.synth_def_name()).collect();
    assert_distinct_non_empty(&names);
    assert_distinct_non_empty(&defs);
}

#[test]
fn filter_and_band_names_are_distinct_and_non_empty() {
    let all = FilterType::all();
    assert_eq!(all.len(), 8);
    let names: Vec<&str> = all.iter().map(|f| f.name()).collect();
    let defs: Vec<&str> = all.iter().map(|f| f.synth_def_name()).collect();
    assert_distinct_non_empty(&names);
    assert_distinct_non_empty(&defs);
    let bands = [EqBandType::LowShelf, EqBandType::Peaking, EqBandType::HighShelf];
    let band_names: Vec<&str> = bands.iter().map(|b| b.name()).collect();
    assert_eq!(band_names, vec!["LS", "PK", "HS"]);
}

#[test]
fn source_projections_exact_values() {
    assert_eq!(SourceType::Sin.name(), "Sine");
    assert_eq!(SourceType::Sin.short_name(), "sin");
    assert_eq!(SourceType::Sin.synth_def_name(), "imbolc_sin");
    assert_eq!(SourceType::Ring.name(), "Ring Mod");
    assert_eq!(SourceType::PitchedSampler.name(), "Pitched Sampler");
    assert_eq!(SourceType::PitchedSampler.short_name(), "sample");
    assert_eq!(SourceType::PitchedSampler.synth_def_name(), "imbolc_sampler");
    assert_eq!(SourceType::Kit.synth_def_name(), "imbolc_sampler_oneshot");
    assert_eq!(SourceType::AudioIn.short_name(), "audio_in");
    assert_eq!(SourceType::Custom(42).name(), "Custom");
    assert_eq!(SourceType::Custom(42).short_name(), "custom");
    assert_eq!(SourceType::Vst(7).name(), "VST");
    assert_eq!(SourceType::Vst(7).short_name(), "vst");
    assert_eq!(SourceType::Vst(7).synth_def_name(), "imbolc_vst_instrument");
}

#[test]
fn effect_and_filter_projections_exact_values() {
    assert_eq!(EffectType::SidechainComp.name(), "SC Comp");
    assert_eq!(EffectType::SidechainComp.synth_def_name(), "imbolc_sc_comp");
    assert_eq!(EffectType::MidSide.name(), "Mid/Side");
    assert_eq!(EffectType::RingMod.synth_def_name(), "imbolc_ringmod");
    assert_eq!(EffectType::Vst(7).name(), "VST");
    assert_eq!(EffectType::Vst(7).synth_def_name(), "imbolc_vst_effect");
    assert_eq!(FilterType::Lpf.name(), "Low-Pass");
    assert_eq!(FilterType::ResDrive.synth_def_name(), "imbolc_resdrive");
}

#[test]
fn catalogs_hold_no_open_variant_and_keep_their_order() {
    let first = SourceType::all();
    assert_eq!(first, SourceType::all());
    assert!(first.iter().all(|s| !s.is_custom() && !s.is_vst()));
    assert_eq!(first[0], SourceType::Saw);
    assert_eq!(first[1], SourceType::Sin);
    assert_eq!(first[25], SourceType::Kit);
    let effects = EffectType::all();
    assert_eq!(effects, EffectType::all());
    assert!(effects.iter().all(|e| !e.is_vst()));
    assert_eq!(effects[0], EffectType::Delay);
    assert_eq!(effects[36], EffectType::Denoise);
    let filters = FilterType::all();
    assert_eq!(filters[0], FilterType::Lpf);
    assert_eq!(filters[7], FilterType::ResDrive);
}

#[test]
fn default_eq_has_the_fixed_band_layout() {
    let eq = EqPreset::default();
    assert_eq!(eq.bands.len(), EQ_BAND_COUNT);
    assert_eq!(eq.bands.len(), 12);
    assert!(eq.enabled);
    assert_eq!(eq.bands[0].band_type, EqBandType::LowShelf);
    assert_eq!(eq.bands[0].freq_hz, 40);
    assert_eq!(eq.bands[0].q_centi, 70);
    assert_eq!(eq.bands[11].band_type, EqBandType::HighShelf);
    assert_eq!(eq.bands[11].freq_hz, 18000);
    assert_eq!(eq.bands[11].q_centi, 70);
    let peaking = [80, 160, 320, 640, 1200, 2500, 5000, 8000, 12000, 16000];
    for (i, f) in peaking.iter().enumerate() {
        let band = eq.bands[i + 1];
        assert_eq!(band.band_type, EqBandType::Peaking);
        assert_eq!(band.freq_hz, *f);
        assert_eq!(band.q_centi, 100);
    }
    for band in eq.bands.iter() {
        assert_eq!(band.gain_cdb, 0);
        assert!(band.enabled);
    }
}

#[test]
fn mixer_selection_defaults_to_first_instrument() {
    assert_eq!(MixerSelection::default(), MixerSelection::Instrument(0));
    assert_ne!(MixerSelection::default(), MixerSelection::Master);
    assert_ne!(MixerSelection::default(), MixerSelection::Bus(1));
}

#[test]
fn server_status_defaults_to_stopped() {
    assert_eq!(ServerStatus::default(), ServerStatus::Stopped);
    assert_ne!(ServerStatus::Running, ServerStatus::Connected);
    assert_ne!(VstPluginKind::Instrument, VstPluginKind::Effect);
}

#[test]
fn effect_vst_predicate_and_id() {
    assert!(EffectType::Vst(7).is_vst());
    assert_eq!(EffectType::Vst(7).vst_id(), Some(7));
    for e in EffectType::all() {
        assert!(!e.is_vst());
        assert_eq!(e.vst_id(), None);
    }
}

#[test]
fn source_predicates_pick_their_variant() {
    assert!(SourceType::Custom(42).is_custom());
    assert_eq!(SourceType::Custom(42).custom_id(), Some(42));
    assert_eq!(SourceType::Custom(42).vst_id(), None);
    assert!(!SourceType::Custom(42).is_vst());
    assert!(SourceType::Vst(7).is_vst());
    assert_eq!(SourceType::Vst(7).vst_id(), Some(7));
    assert_eq!(SourceType::Vst(7).custom_id(), None);
    assert!(!SourceType::Vst(7).is_custom());
    for s in SourceType::all() {
        assert_eq!(s.is_sample(), s == SourceType::PitchedSampler);
        assert_eq!(s.is_kit(), s == SourceType::Kit);
        assert_eq!(s.is_bus_in(), s == SourceType::BusIn);
        assert_eq!(s.is_audio_input(), s == SourceType::AudioIn);
        assert!(!s.is_custom() && !s.is_vst());
        assert_eq!(s.custom_id(), None);
    }
    for s in [SourceType::Custom(42), SourceType::Vst(7)] {
        assert!(!s.is_sample() && !s.is_kit() && !s.is_bus_in() && !s.is_audio_input());
    }
}
