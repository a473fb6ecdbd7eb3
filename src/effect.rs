//! Effect kinds and the effect slots of a processing chain.
use vstd::prelude::*;

use crate::VstPluginId;

verus! {

/// The kind of signal processor an effect slot runs. `Vst` carries the key
/// of a hosted plugin.
#[derive(Debug, Clone, Copy, PartialEq, Eq, Structural)]
pub enum EffectType {
    Delay,
    Reverb,
    Gate,
    TapeComp,
    SidechainComp,
    Chorus,
    Flanger,
    Phaser,
    Tremolo,
    Distortion,
    Bitcrusher,
    Wavefolder,
    Saturator,
    TiltEq,
    StereoWidener,
    FreqShifter,
    Limiter,
    PitchShifter,
    Vinyl,
    Cabinet,
    GranularDelay,
    GranularFreeze,
    ConvolutionReverb,
    Vocoder,
    RingMod,
    Autopan,
    Resonator,
    MultibandComp,
    ParaEq,
    SpectralFreeze,
    Glitch,
    Leslie,
    SpringReverb,
    EnvFollower,
    MidSide,
    Crossfader,
    Denoise,
    Vst(VstPluginId),
}

/// Human-readable label of each effect kind.
pub open spec fn effect_name(e: EffectType) -> Seq<char> {
    match e {
        EffectType::Delay => "Delay"@,
        EffectType::Reverb => "Reverb"@,
        EffectType::Gate => "Gate"@,
        EffectType::TapeComp => "Tape Comp"@,
        EffectType::SidechainComp => "SC Comp"@,
        EffectType::Chorus => "Chorus"@,
        EffectType::Flanger => "Flanger"@,
        EffectType::Phaser => "Phaser"@,
        EffectType::Tremolo => "Tremolo"@,
        EffectType::Distortion => "Distortion"@,
        EffectType::Bitcrusher => "Bitcrusher"@,
        EffectType::Wavefolder => "Wavefolder"@,
        EffectType::Saturator => "Saturator"@,
        EffectType::TiltEq => "Tilt EQ"@,
        EffectType::StereoWidener => "Stereo Widener"@,
        EffectType::FreqShifter => "Freq Shifter"@,
        EffectType::Limiter => "Limiter"@,
        EffectType::PitchShifter => "Pitch Shifter"@,
        EffectType::Vinyl => "Vinyl"@,
        EffectType::Cabinet => "Cabinet"@,
        EffectType::GranularDelay => "Granular Delay"@,
        EffectType::GranularFreeze => "Granular Freeze"@,
        EffectType::ConvolutionReverb => "Conv Reverb"@,
        EffectType::Vocoder => "Vocoder"@,
        EffectType::RingMod => "Ring Mod"@,
        EffectType::Autopan => "Autopan"@,
        EffectType::Resonator => "Resonator"@,
        EffectType::MultibandComp => "MB Comp"@,
        EffectType::ParaEq => "Para EQ"@,
        EffectType::SpectralFreeze => "Spectral Freeze"@,
        EffectType::Glitch => "Glitch"@,
        EffectType::Leslie => "Leslie"@,
        EffectType::SpringReverb => "Spring Reverb"@,
        EffectType::EnvFollower => "Env Follower"@,
        EffectType::MidSide => "Mid/Side"@,
        EffectType::Crossfader => "Crossfader"@,
        EffectType::Denoise => "Denoise"@,
        EffectType::Vst(_) => "VST"@,
    }
}

/// Synthesis-engine definition of each effect kind.
pub open spec fn effect_synth_def_name(e: EffectType) -> Seq<char> {
    match e {
        EffectType::Delay => "imbolc_delay"@,
        EffectType::Reverb => "imbolc_reverb"@,
        EffectType::Gate => "imbolc_gate"@,
        EffectType::TapeComp => "imbolc_tape_comp"@,
        EffectType::SidechainComp => "imbolc_sc_comp"@,
        EffectType::Chorus => "imbolc_chorus"@,
        EffectType::Flanger => "imbolc_flanger"@,
        EffectType::Phaser => "imbolc_phaser"@,
        EffectType::Tremolo => "imbolc_tremolo"@,
        EffectType::Distortion => "imbolc_distortion"@,
        EffectType::Bitcrusher => "imbolc_bitcrusher"@,
        EffectType::Wavefolder => "imbolc_wavefolder"@,
        EffectType::Saturator => "imbolc_saturator"@,
        EffectType::TiltEq => "imbolc_tilt_eq"@,
        EffectType::StereoWidener => "imbolc_stereo_widener"@,
        EffectType::FreqShifter => "imbolc_freq_shifter"@,
        EffectType::Limiter => "imbolc_limiter"@,
        EffectType::PitchShifter => "imbolc_pitch_shifter"@,
        EffectType::Vinyl => "imbolc_vinyl"@,
        EffectType::Cabinet => "imbolc_cabinet"@,
        EffectType::GranularDelay => "imbolc_granular_delay"@,
        EffectType::GranularFreeze => "imbolc_granular_freeze"@,
        EffectType::ConvolutionReverb => "imbolc_convolution_reverb"@,
        EffectType::Vocoder => "imbolc_vocoder"@,
        EffectType::RingMod => "imbolc_ringmod"@,
        EffectType::Autopan => "imbolc_autopan"@,
        EffectType::Resonator => "imbolc_resonator"@,
        EffectType::MultibandComp => "imbolc_multiband_comp"@,
        EffectType::ParaEq => "imbolc_para_eq"@,
        EffectType::SpectralFreeze => "imbolc_spectral_freeze"@,
        EffectType::Glitch => "imbolc_glitch"@,
        EffectType::Leslie => "imbolc_leslie"@,
        EffectType::SpringReverb => "imbolc_spring_reverb"@,
        EffectType::EnvFollower => "imbolc_env_follower"@,
        EffectType::MidSide => "imbolc_midside"@,
        EffectType::Crossfader => "imbolc_crossfader"@,
        EffectType::Denoise => "imbolc_denoise"@,
        EffectType::Vst(_) => "imbolc_vst_effect"@,
    }
}

/// Whether an effect kind is one of the built-in, registry-free ones.
pub open spec fn is_builtin_effect(e: EffectType) -> bool {
    !(e is Vst)
}

/// The built-in effect kinds, in the order that pickers list them.
pub open spec fn builtin_effects() -> Seq<EffectType> {
    seq![
        EffectType::Delay,
        EffectType::Reverb,
        EffectType::Gate,
        EffectType::TapeComp,
        EffectType::SidechainComp,
        EffectType::Chorus,
        EffectType::Flanger,
        EffectType::Phaser,
        EffectType::Tremolo,
        EffectType::Distortion,
        EffectType::Bitcrusher,
        EffectType::Wavefolder,
        EffectType::Saturator,
        EffectType::TiltEq,
        EffectType::StereoWidener,
        EffectType::FreqShifter,
        EffectType::Limiter,
        EffectType::PitchShifter,
        EffectType::Vinyl,
        EffectType::Cabinet,
        EffectType::GranularDelay,
        EffectType::GranularFreeze,
        EffectType::ConvolutionReverb,
        EffectType::Vocoder,
        EffectType::RingMod,
        EffectType::Autopan,
        EffectType::Resonator,
        EffectType::MultibandComp,
        EffectType::ParaEq,
        EffectType::SpectralFreeze,
        EffectType::Glitch,
        EffectType::Leslie,
        EffectType::SpringReverb,
        EffectType::EnvFollower,
        EffectType::MidSide,
        EffectType::Crossfader,
        EffectType::Denoise,
    ]
}

/// Every built-in effect kind has a non-empty label and engine definition
/// name, and no two built-in kinds share either.
pub proof fn lemma_effect_names_distinct(a: EffectType, b: EffectType)
    requires
        is_builtin_effect(a),
        is_builtin_effect(b),
        a != b,
    ensures
        effect_name(a).len() > 0,
        effect_synth_def_name(a).len() > 0,
        effect_name(a) != effect_name(b),
        effect_synth_def_name(a) != effect_synth_def_name(b),
{
// Two literals differ by their lengths, or at a position given below.
    reveal_strlit("Delay");
    assert("Delay"@.len() == 5);
    reveal_strlit("Reverb");
    assert("Reverb"@.len() == 6);
    reveal_strlit("Gate");
    assert("Gate"@.len() == 4);
    reveal_strlit("Tape Comp");
    assert("Tape Comp"@.len() == 9);
    reveal_strlit("SC Comp");
    assert("SC Comp"@.len() == 7);
    reveal_strlit("Chorus");
    assert("Chorus"@.len() == 6);
    reveal_strlit("Flanger");
    assert("Flanger"@.len() == 7);
    reveal_strlit("Phaser");
    assert("Phaser"@.len() == 6);
    reveal_strlit("Tremolo");
    assert("Tremolo"@.len() == 7);
    reveal_strlit("Distortion");
    assert("Distortion"@.len() == 10);
    reveal_strlit("Bitcrusher");
    assert("Bitcrusher"@.len() == 10);
    reveal_strlit("Wavefolder");
    assert("Wavefolder"@.len() == 10);
    reveal_strlit("Saturator");
    assert("Saturator"@.len() == 9);
    reveal_strlit("Tilt EQ");
    assert("Tilt EQ"@.len() == 7);
    reveal_strlit("Stereo Widener");
    assert("Stereo Widener"@.len() == 14);
    reveal_strlit("Freq Shifter");
    assert("Freq Shifter"@.len() == 12);
    reveal_strlit("Limiter");
    assert("Limiter"@.len() == 7);
    reveal_strlit("Pitch Shifter");
    assert("Pitch Shifter"@.len() == 13);
    reveal_strlit("Vinyl");
    assert("Vinyl"@.len() == 5);
    reveal_strlit("Cabinet");
    assert("Cabinet"@.len() == 7);
    reveal_strlit("Granular Delay");
    assert("Granular Delay"@.len() == 14);
    reveal_strlit("Granular Freeze");
    assert("Granular Freeze"@.len() == 15);
    reveal_strlit("Conv Reverb");
    assert("Conv Reverb"@.len() == 11);
    reveal_strlit("Vocoder");
    assert("Vocoder"@.len() == 7);
    reveal_strlit("Ring Mod");
    assert("Ring Mod"@.len() == 8);
    reveal_strlit("Autopan");
    assert("Autopan"@.len() == 7);
    reveal_strlit("Resonator");
    assert("Resonator"@.len() == 9);
    reveal_strlit("MB Comp");
    assert("MB Comp"@.len() == 7);
    reveal_strlit("Para EQ");
    assert("Para EQ"@.len() == 7);
    reveal_strlit("Spectral Freeze");
    assert("Spectral Freeze"@.len() == 15);
    reveal_strlit("Glitch");
    assert("Glitch"@.len() == 6);
    reveal_strlit("Leslie");
    assert("Leslie"@.len() == 6);
    reveal_strlit("Spring Reverb");
    assert("Spring Reverb"@.len() == 13);
    reveal_strlit("Env Follower");
    assert("Env Follower"@.len() == 12);
    reveal_strlit("Mid/Side");
    assert("Mid/Side"@.len() == 8);
    reveal_strlit("Crossfader");
    assert("Crossfader"@.len() == 10);
    reveal_strlit("Denoise");
    assert("Denoise"@.len() == 7);
    reveal_strlit("imbolc_delay");
    assert("imbolc_delay"@.len() == 12);
    reveal_strlit("imbolc_reverb");
    assert("imbolc_reverb"@.len() == 13);
    reveal_strlit("imbolc_gate");
    assert("imbolc_gate"@.len() == 11);
    reveal_strlit("imbolc_tape_comp");
    assert("imbolc_tape_comp"@.len() == 16);
    reveal_strlit("imbolc_sc_comp");
    assert("imbolc_sc_comp"@.len() == 14);
    reveal_strlit("imbolc_chorus");
    assert("imbolc_chorus"@.len() == 13);
    reveal_strlit("imbolc_flanger");
    assert("imbolc_flanger"@.len() == 14);
    reveal_strlit("imbolc_phaser");
    assert("imbolc_phaser"@.len() == 13);
    reveal_strlit("imbolc_tremolo");
    assert("imbolc_tremolo"@.len() == 14);
    reveal_strlit("imbolc_distortion");
    assert("imbolc_distortion"@.len() == 17);
    reveal_strlit("imbolc_bitcrusher");
    assert("imbolc_bitcrusher"@.len() == 17);
    reveal_strlit("imbolc_wavefolder");
    assert("imbolc_wavefolder"@.len() == 17);
    reveal_strlit("imbolc_saturator");
    assert("imbolc_saturator"@.len() == 16);
    reveal_strlit("imbolc_tilt_eq");
    assert("imbolc_tilt_eq"@.len() == 14);
    reveal_strlit("imbolc_stereo_widener");
    assert("imbolc_stereo_widener"@.len() == 21);
    reveal_strlit("imbolc_freq_shifter");
    assert("imbolc_freq_shifter"@.len() == 19);
    reveal_strlit("imbolc_limiter");
    assert("imbolc_limiter"@.len() == 14);
    reveal_strlit("imbolc_pitch_shifter");
    assert("imbolc_pitch_shifter"@.len() == 20);
    reveal_strlit("imbolc_vinyl");
    assert("imbolc_vinyl"@.len() == 12);
    reveal_strlit("imbolc_cabinet");
    assert("imbolc_cabinet"@.len() == 14);
    reveal_strlit("imbolc_granular_delay");
    assert("imbolc_granular_delay"@.len() == 21);
    reveal_strlit("imbolc_granular_freeze");
    assert("imbolc_granular_freeze"@.len() == 22);
    reveal_strlit("imbolc_convolution_reverb");
    assert("imbolc_convolution_reverb"@.len() == 25);
    reveal_strlit("imbolc_vocoder");
    assert("imbolc_vocoder"@.len() == 14);
    reveal_strlit("imbolc_ringmod");
    assert("imbolc_ringmod"@.len() == 14);
    reveal_strlit("imbolc_autopan");
    assert("imbolc_autopan"@.len() == 14);
    reveal_strlit("imbolc_resonator");
    assert("imbolc_resonator"@.len() == 16);
    reveal_strlit("imbolc_multiband_comp");
    assert("imbolc_multiband_comp"@.len() == 21);
    reveal_strlit("imbolc_para_eq");
    assert("imbolc_para_eq"@.len() == 14);
    reveal_strlit("imbolc_spectral_freeze");
    assert("imbolc_spectral_freeze"@.len() == 22);
    reveal_strlit("imbolc_glitch");
    assert("imbolc_glitch"@.len() == 13);
    reveal_strlit("imbolc_leslie");
    assert("imbolc_leslie"@.len() == 13);
    reveal_strlit("imbolc_spring_reverb");
    assert("imbolc_spring_reverb"@.len() == 20);
    reveal_strlit("imbolc_env_follower");
    assert("imbolc_env_follower"@.len() == 19);
    reveal_strlit("imbolc_midside");
    assert("imbolc_midside"@.len() == 14);
    reveal_strlit("imbolc_crossfader");
    assert("imbolc_crossfader"@.len() == 17);
    reveal_strlit("imbolc_denoise");
    assert("imbolc_denoise"@.len() == 14);
    assert("Delay"@[0] != "Vinyl"@[0]);
    assert("Reverb"@[0] != "Chorus"@[0]);
    assert("Reverb"@[0] != "Phaser"@[0]);
    assert("Reverb"@[0] != "Glitch"@[0]);
    assert("Reverb"@[0] != "Leslie"@[0]);
    assert("Tape Comp"@[0] != "Saturator"@[0]);
    assert("Tape Comp"@[0] != "Resonator"@[0]);
    assert("SC Comp"@[0] != "Flanger"@[0]);
    assert("SC Comp"@[0] != "Tremolo"@[0]);
    assert("SC Comp"@[0] != "Tilt EQ"@[0]);
    assert("SC Comp"@[0] != "Limiter"@[0]);
    assert("SC Comp"@[0] != "Cabinet"@[0]);
    assert("SC Comp"@[0] != "Vocoder"@[0]);
    assert("SC Comp"@[0] != "Autopan"@[0]);
    assert("SC Comp"@[0] != "MB Comp"@[0]);
    assert("SC Comp"@[0] != "Para EQ"@[0]);
    assert("SC Comp"@[0] != "Denoise"@[0]);
    assert("Chorus"@[0] != "Phaser"@[0]);
    assert("Chorus"@[0] != "Glitch"@[0]);
    assert("Chorus"@[0] != "Leslie"@[0]);
    assert("Flanger"@[0] != "Tremolo"@[0]);
    assert("Flanger"@[0] != "Tilt EQ"@[0]);
    assert("Flanger"@[0] != "Limiter"@[0]);
    assert("Flanger"@[0] != "Cabinet"@[0]);
    assert("Flanger"@[0] != "Vocoder"@[0]);
    assert("Flanger"@[0] != "Autopan"@[0]);
    assert("Flanger"@[0] != "MB Comp"@[0]);
    assert("Flanger"@[0] != "Para EQ"@[0]);
    assert("Flanger"@[0] != "Denoise"@[0]);
    assert("Phaser"@[0] != "Glitch"@[0]);
    assert("Phaser"@[0] != "Leslie"@[0]);
    assert("Tremolo"@[1] != "Tilt EQ"@[1]);
    assert("Tremolo"@[0] != "Limiter"@[0]);
    assert("Tremolo"@[0] != "Cabinet"@[0]);
    assert("Tremolo"@[0] != "Vocoder"@[0]);
    assert("Tremolo"@[0] != "Autopan"@[0]);
    assert("Tremolo"@[0] != "MB Comp"@[0]);
    assert("Tremolo"@[0] != "Para EQ"@[0]);
    assert("Tremolo"@[0] != "Denoise"@[0]);
    assert("Distortion"@[0] != "Bitcrusher"@[0]);
    assert("Distortion"@[0] != "Wavefolder"@[0]);
    assert("Distortion"@[0] != "Crossfader"@[0]);
    assert("Bitcrusher"@[0] != "Wavefolder"@[0]);
    assert("Bitcrusher"@[0] != "Crossfader"@[0]);
    assert("Wavefolder"@[0] != "Crossfader"@[0]);
    assert("Saturator"@[0] != "Resonator"@[0]);
    assert("Tilt EQ"@[0] != "Limiter"@[0]);
    assert("Tilt EQ"@[0] != "Cabinet"@[0]);
    assert("Tilt EQ"@[0] != "Vocoder"@[0]);
    assert("Tilt EQ"@[0] != "Autopan"@[0]);
    assert("Tilt EQ"@[0] != "MB Comp"@[0]);
    assert("Tilt EQ"@[0] != "Para EQ"@[0]);
    assert("Tilt EQ"@[0] != "Denoise"@[0]);
    assert("Stereo Widener"@[0] != "Granular Delay"@[0]);
    assert("Freq Shifter"@[0] != "Env Follower"@[0]);
    assert("Limiter"@[0] != "Cabinet"@[0]);
    assert("Limiter"@[0] != "Vocoder"@[0]);
    assert("Limiter"@[0] != "Autopan"@[0]);
    assert("Limiter"@[0] != "MB Comp"@[0]);
    assert("Limiter"@[0] != "Para EQ"@[0]);
    assert("Limiter"@[0] != "Denoise"@[0]);
    assert("Pitch Shifter"@[0] != "Spring Reverb"@[0]);
    assert("Cabinet"@[0] != "Vocoder"@[0]);
    assert("Cabinet"@[0] != "Autopan"@[0]);
    assert("Cabinet"@[0] != "MB Comp"@[0]);
    assert("Cabinet"@[0] != "Para EQ"@[0]);
    assert("Cabinet"@[0] != "Denoise"@[0]);
    assert("Granular Freeze"@[0] != "Spectral Freeze"@[0]);
    assert("Vocoder"@[0] != "Autopan"@[0]);
    assert("Vocoder"@[0] != "MB Comp"@[0]);
    assert("Vocoder"@[0] != "Para EQ"@[0]);
    assert("Vocoder"@[0] != "Denoise"@[0]);
    assert("Ring Mod"@[0] != "Mid/Side"@[0]);
    assert("Autopan"@[0] != "MB Comp"@[0]);
    assert("Autopan"@[0] != "Para EQ"@[0]);
    assert("Autopan"@[0] != "Denoise"@[0]);
    assert("MB Comp"@[0] != "Para EQ"@[0]);
    assert("MB Comp"@[0] != "Denoise"@[0]);
    assert("Para EQ"@[0] != "Denoise"@[0]);
    assert("Glitch"@[0] != "Leslie"@[0]);
    assert("imbolc_delay"@[7] != "imbolc_vinyl"@[7]);
    assert("imbolc_reverb"@[7] != "imbolc_chorus"@[7]);
    assert("imbolc_reverb"@[7] != "imbolc_phaser"@[7]);
    assert("imbolc_reverb"@[7] != "imbolc_glitch"@[7]);
    assert("imbolc_reverb"@[7] != "imbolc_leslie"@[7]);
    assert("imbolc_tape_comp"@[7] != "imbolc_saturator"@[7]);
    assert("imbolc_tape_comp"@[7] != "imbolc_resonator"@[7]);
    assert("imbolc_sc_comp"@[7] != "imbolc_flanger"@[7]);
    assert("imbolc_sc_comp"@[7] != "imbolc_tremolo"@[7]);
    assert("imbolc_sc_comp"@[7] != "imbolc_tilt_eq"@[7]);
    assert("imbolc_sc_comp"@[7] != "imbolc_limiter"@[7]);
    assert("imbolc_sc_comp"@[7] != "imbolc_cabinet"@[7]);
    assert("imbolc_sc_comp"@[7] != "imbolc_vocoder"@[7]);
    assert("imbolc_sc_comp"@[7] != "imbolc_ringmod"@[7]);
    assert("imbolc_sc_comp"@[7] != "imbolc_autopan"@[7]);
    assert("imbolc_sc_comp"@[7] != "imbolc_para_eq"@[7]);
    assert("imbolc_sc_comp"@[7] != "imbolc_midside"@[7]);
    assert("imbolc_sc_comp"@[7] != "imbolc_denoise"@[7]);
    assert("imbolc_chorus"@[7] != "imbolc_phaser"@[7]);
    assert("imbolc_chorus"@[7] != "imbolc_glitch"@[7]);
    assert("imbolc_chorus"@[7] != "imbolc_leslie"@[7]);
    assert("imbolc_flanger"@[7] != "imbolc_tremolo"@[7]);
    assert("imbolc_flanger"@[7] != "imbolc_tilt_eq"@[7]);
    assert("imbolc_flanger"@[7] != "imbolc_limiter"@[7]);
    assert("imbolc_flanger"@[7] != "imbolc_cabinet"@[7]);
    assert("imbolc_flanger"@[7] != "imbolc_vocoder"@[7]);
    assert("imbolc_flanger"@[7] != "imbolc_ringmod"@[7]);
    assert("imbolc_flanger"@[7] != "imbolc_autopan"@[7]);
    assert("imbolc_flanger"@[7] != "imbolc_para_eq"@[7]);
    assert("imbolc_flanger"@[7] != "imbolc_midside"@[7]);
    assert("imbolc_flanger"@[7] != "imbolc_denoise"@[7]);
    assert("imbolc_phaser"@[7] != "imbolc_glitch"@[7]);
    assert("imbolc_phaser"@[7] != "imbolc_leslie"@[7]);
    assert("imbolc_tremolo"@[8] != "imbolc_tilt_eq"@[8]);
    assert("imbolc_tremolo"@[7] != "imbolc_limiter"@[7]);
    assert("imbolc_tremolo"@[7] != "imbolc_cabinet"@[7]);
    assert("imbolc_tremolo"@[7] != "imbolc_vocoder"@[7]);
    assert("imbolc_tremolo"@[7] != "imbolc_ringmod"@[7]);
    assert("imbolc_tremolo"@[7] != "imbolc_autopan"@[7]);
    assert("imbolc_tremolo"@[7] != "imbolc_para_eq"@[7]);
    assert("imbolc_tremolo"@[7] != "imbolc_midside"@[7]);
    assert("imbolc_tremolo"@[7] != "imbolc_denoise"@[7]);
    assert("imbolc_distortion"@[7] != "imbolc_bitcrusher"@[7]);
    assert("imbolc_distortion"@[7] != "imbolc_wavefolder"@[7]);
    assert("imbolc_distortion"@[7] != "imbolc_crossfader"@[7]);
    assert("imbolc_bitcrusher"@[7] != "imbolc_wavefolder"@[7]);
    assert("imbolc_bitcrusher"@[7] != "imbolc_crossfader"@[7]);
    assert("imbolc_wavefolder"@[7] != "imbolc_crossfader"@[7]);
    assert("imbolc_saturator"@[7] != "imbolc_resonator"@[7]);
    assert("imbolc_tilt_eq"@[7] != "imbolc_limiter"@[7]);
    assert("imbolc_tilt_eq"@[7] != "imbolc_cabinet"@[7]);
    assert("imbolc_tilt_eq"@[7] != "imbolc_vocoder"@[7]);
    assert("imbolc_tilt_eq"@[7] != "imbolc_ringmod"@[7]);
    assert("imbolc_tilt_eq"@[7] != "imbolc_autopan"@[7]);
    assert("imbolc_tilt_eq"@[7] != "imbolc_para_eq"@[7]);
    assert("imbolc_tilt_eq"@[7] != "imbolc_midside"@[7]);
    assert("imbolc_tilt_eq"@[7] != "imbolc_denoise"@[7]);
    assert("imbolc_stereo_widener"@[7] != "imbolc_granular_delay"@[7]);
    assert("imbolc_stereo_widener"@[7] != "imbolc_multiband_comp"@[7]);
    assert("imbolc_freq_shifter"@[7] != "imbolc_env_follower"@[7]);
    assert("imbolc_limiter"@[7] != "imbolc_cabinet"@[7]);
    assert("imbolc_limiter"@[7] != "imbolc_vocoder"@[7]);
    assert("imbolc_limiter"@[7] != "imbolc_ringmod"@[7]);
    assert("imbolc_limiter"@[7] != "imbolc_autopan"@[7]);
    assert("imbolc_limiter"@[7] != "imbolc_para_eq"@[7]);
    assert("imbolc_limiter"@[7] != "imbolc_midside"@[7]);
    assert("imbolc_limiter"@[7] != "imbolc_denoise"@[7]);
    assert("imbolc_pitch_shifter"@[7] != "imbolc_spring_reverb"@[7]);
    assert("imbolc_cabinet"@[7] != "imbolc_vocoder"@[7]);
    assert("imbolc_cabinet"@[7] != "imbolc_ringmod"@[7]);
    assert("imbolc_cabinet"@[7] != "imbolc_autopan"@[7]);
    assert("imbolc_cabinet"@[7] != "imbolc_para_eq"@[7]);
    assert("imbolc_cabinet"@[7] != "imbolc_midside"@[7]);
    assert("imbolc_cabinet"@[7] != "imbolc_denoise"@[7]);
    assert("imbolc_granular_delay"@[7] != "imbolc_multiband_comp"@[7]);
    assert("imbolc_granular_freeze"@[7] != "imbolc_spectral_freeze"@[7]);
    assert("imbolc_vocoder"@[7] != "imbolc_ringmod"@[7]);
    assert("imbolc_vocoder"@[7] != "imbolc_autopan"@[7]);
    assert("imbolc_vocoder"@[7] != "imbolc_para_eq"@[7]);
    assert("imbolc_vocoder"@[7] != "imbolc_midside"@[7]);
    assert("imbolc_vocoder"@[7] != "imbolc_denoise"@[7]);
    assert("imbolc_ringmod"@[7] != "imbolc_autopan"@[7]);
    assert("imbolc_ringmod"@[7] != "imbolc_para_eq"@[7]);
    assert("imbolc_ringmod"@[7] != "imbolc_midside"@[7]);
    assert("imbolc_ringmod"@[7] != "imbolc_denoise"@[7]);
    assert("imbolc_autopan"@[7] != "imbolc_para_eq"@[7]);
    assert("imbolc_autopan"@[7] != "imbolc_midside"@[7]);
    assert("imbolc_autopan"@[7] != "imbolc_denoise"@[7]);
    assert("imbolc_para_eq"@[7] != "imbolc_midside"@[7]);
    assert("imbolc_para_eq"@[7] != "imbolc_denoise"@[7]);
    assert("imbolc_glitch"@[7] != "imbolc_leslie"@[7]);
    assert("imbolc_midside"@[7] != "imbolc_denoise"@[7]);
}

/// The effect list holds each built-in effect kind exactly once, and nothing
/// else: no hosted plugin.
pub proof fn lemma_builtin_effects_catalog()
    ensures
        builtin_effects().len() == 37,
        forall|i: int| 0 <= i < builtin_effects().len() ==> is_builtin_effect(#[trigger] builtin_effects()[i]),
        forall|e: EffectType| is_builtin_effect(e) ==> builtin_effects().contains(e),
        builtin_effects().no_duplicates(),
{
    assert forall|e: EffectType| is_builtin_effect(e) implies builtin_effects().contains(e) by {
        match e {
            EffectType::Delay => { assert(builtin_effects()[0] == e); },
            EffectType::Reverb => { assert(builtin_effects()[1] == e); },
            EffectType::Gate => { assert(builtin_effects()[2] == e); },
            EffectType::TapeComp => { assert(builtin_effects()[3] == e); },
            EffectType::SidechainComp => { assert(builtin_effects()[4] == e); },
            EffectType::Chorus => { assert(builtin_effects()[5] == e); },
            EffectType::Flanger => { assert(builtin_effects()[6] == e); },
            EffectType::Phaser => { assert(builtin_effects()[7] == e); },
            EffectType::Tremolo => { assert(builtin_effects()[8] == e); },
            EffectType::Distortion => { assert(builtin_effects()[9] == e); },
            EffectType::Bitcrusher => { assert(builtin_effects()[10] == e); },
            EffectType::Wavefolder => { assert(builtin_effects()[11] == e); },
            EffectType::Saturator => { assert(builtin_effects()[12] == e); },
            EffectType::TiltEq => { assert(builtin_effects()[13] == e); },
            EffectType::StereoWidener => { assert(builtin_effects()[14] == e); },
            EffectType::FreqShifter => { assert(builtin_effects()[15] == e); },
            EffectType::Limiter => { assert(builtin_effects()[16] == e); },
            EffectType::PitchShifter => { assert(builtin_effects()[17] == e); },
            EffectType::Vinyl => { assert(builtin_effects()[18] == e); },
            EffectType::Cabinet => { assert(builtin_effects()[19] == e); },
            EffectType::GranularDelay => { assert(builtin_effects()[20] == e); },
            EffectType::GranularFreeze => { assert(builtin_effects()[21] == e); },
            EffectType::ConvolutionReverb => { assert(builtin_effects()[22] == e); },
            EffectType::Vocoder => { assert(builtin_effects()[23] == e); },
            EffectType::RingMod => { assert(builtin_effects()[24] == e); },
            EffectType::Autopan => { assert(builtin_effects()[25] == e); },
            EffectType::Resonator => { assert(builtin_effects()[26] == e); },
            EffectType::MultibandComp => { assert(builtin_effects()[27] == e); },
            EffectType::ParaEq => { assert(builtin_effects()[28] == e); },
            EffectType::SpectralFreeze => { assert(builtin_effects()[29] == e); },
            EffectType::Glitch => { assert(builtin_effects()[30] == e); },
            EffectType::Leslie => { assert(builtin_effects()[31] == e); },
            EffectType::SpringReverb => { assert(builtin_effects()[32] == e); },
            EffectType::EnvFollower => { assert(builtin_effects()[33] == e); },
            EffectType::MidSide => { assert(builtin_effects()[34] == e); },
            EffectType::Crossfader => { assert(builtin_effects()[35] == e); },
            EffectType::Denoise => { assert(builtin_effects()[36] == e); },
            _ => {},
        }
    }
}

impl EffectType {
    pub fn name(&self) -> (r: &'static str)
        ensures
            r@ == effect_name(*self),
    {
        match self {
            EffectType::Delay => "Delay",
            EffectType::Reverb => "Reverb",
            EffectType::Gate => "Gate",
            EffectType::TapeComp => "Tape Comp",
            EffectType::SidechainComp => "SC Comp",
            EffectType::Chorus => "Chorus",
            EffectType::Flanger => "Flanger",
            EffectType::Phaser => "Phaser",
            EffectType::Tremolo => "Tremolo",
            EffectType::Distortion => "Distortion",
            EffectType::Bitcrusher => "Bitcrusher",
            EffectType::Wavefolder => "Wavefolder",
            EffectType::Saturator => "Saturator",
            EffectType::TiltEq => "Tilt EQ",
            EffectType::StereoWidener => "Stereo Widener",
            EffectType::FreqShifter => "Freq Shifter",
            EffectType::Limiter => "Limiter",
            EffectType::PitchShifter => "Pitch Shifter",
            EffectType::Vinyl => "Vinyl",
            EffectType::Cabinet => "Cabinet",
            EffectType::GranularDelay => "Granular Delay",
            EffectType::GranularFreeze => "Granular Freeze",
            EffectType::ConvolutionReverb => "Conv Reverb",
            EffectType::Vocoder => "Vocoder",
            EffectType::RingMod => "Ring Mod",
            EffectType::Autopan => "Autopan",
            EffectType::Resonator => "Resonator",
            EffectType::MultibandComp => "MB Comp",
            EffectType::ParaEq => "Para EQ",
            EffectType::SpectralFreeze => "Spectral Freeze",
            EffectType::Glitch => "Glitch",
            EffectType::Leslie => "Leslie",
            EffectType::SpringReverb => "Spring Reverb",
            EffectType::EnvFollower => "Env Follower",
            EffectType::MidSide => "Mid/Side",
            EffectType::Crossfader => "Crossfader",
            EffectType::Denoise => "Denoise",
            EffectType::Vst(_) => "VST",
        }
    }

    pub fn synth_def_name(&self) -> (r: &'static str)
        ensures
            r@ == effect_synth_def_name(*self),
    {
        match self {
            EffectType::Delay => "imbolc_delay",
            EffectType::Reverb => "imbolc_reverb",
            EffectType::Gate => "imbolc_gate",
            EffectType::TapeComp => "imbolc_tape_comp",
            EffectType::SidechainComp => "imbolc_sc_comp",
            EffectType::Chorus => "imbolc_chorus",
            EffectType::Flanger => "imbolc_flanger",
            EffectType::Phaser => "imbolc_phaser",
            EffectType::Tremolo => "imbolc_tremolo",
            EffectType::Distortion => "imbolc_distortion",
            EffectType::Bitcrusher => "imbolc_bitcrusher",
            EffectType::Wavefolder => "imbolc_wavefolder",
            EffectType::Saturator => "imbolc_saturator",
            EffectType::TiltEq => "imbolc_tilt_eq",
            EffectType::StereoWidener => "imbolc_stereo_widener",
            EffectType::FreqShifter => "imbolc_freq_shifter",
            EffectType::Limiter => "imbolc_limiter",
            EffectType::PitchShifter => "imbolc_pitch_shifter",
            EffectType::Vinyl => "imbolc_vinyl",
            EffectType::Cabinet => "imbolc_cabinet",
            EffectType::GranularDelay => "imbolc_granular_delay",
            EffectType::GranularFreeze => "imbolc_granular_freeze",
            EffectType::ConvolutionReverb => "imbolc_convolution_reverb",
            EffectType::Vocoder => "imbolc_vocoder",
            EffectType::RingMod => "imbolc_ringmod",
            EffectType::Autopan => "imbolc_autopan",
            EffectType::Resonator => "imbolc_resonator",
            EffectType::MultibandComp => "imbolc_multiband_comp",
            EffectType::ParaEq => "imbolc_para_eq",
            EffectType::SpectralFreeze => "imbolc_spectral_freeze",
            EffectType::Glitch => "imbolc_glitch",
            EffectType::Leslie => "imbolc_leslie",
            EffectType::SpringReverb => "imbolc_spring_reverb",
            EffectType::EnvFollower => "imbolc_env_follower",
            EffectType::MidSide => "imbolc_midside",
            EffectType::Crossfader => "imbolc_crossfader",
            EffectType::Denoise => "imbolc_denoise",
            EffectType::Vst(_) => "imbolc_vst_effect",
        }
    }

    pub fn is_vst(&self) -> (r: bool)
        ensures
            r == (*self is Vst),
    {
        matches!(self, EffectType::Vst(_))
    }

    pub fn vst_id(&self) -> (r: Option<VstPluginId>)
        ensures
            r == (match *self {
                EffectType::Vst(id) => Some(id),
                _ => None,
            }),
    {
        match self {
            EffectType::Vst(id) => Some(*id),
            _ => None,
        }
    }

    /// The built-in effect kinds, without hosted plugins.
    pub fn all() -> (r: Vec<EffectType>)
        ensures
            r@ == builtin_effects(),
    {
        let r = vec![
            EffectType::Delay,
            EffectType::Reverb,
            EffectType::Gate,
            EffectType::TapeComp,
            EffectType::SidechainComp,
            EffectType::Chorus,
            EffectType::Flanger,
            EffectType::Phaser,
            EffectType::Tremolo,
            EffectType::Distortion,
            EffectType::Bitcrusher,
            EffectType::Wavefolder,
            EffectType::Saturator,
            EffectType::TiltEq,
            EffectType::StereoWidener,
            EffectType::FreqShifter,
            EffectType::Limiter,
            EffectType::PitchShifter,
            EffectType::Vinyl,
            EffectType::Cabinet,
            EffectType::GranularDelay,
            EffectType::GranularFreeze,
            EffectType::ConvolutionReverb,
            EffectType::Vocoder,
            EffectType::RingMod,
            EffectType::Autopan,
            EffectType::Resonator,
            EffectType::MultibandComp,
            EffectType::ParaEq,
            EffectType::SpectralFreeze,
            EffectType::Glitch,
            EffectType::Leslie,
            EffectType::SpringReverb,
            EffectType::EnvFollower,
            EffectType::MidSide,
            EffectType::Crossfader,
            EffectType::Denoise,
        ];
        proof {
            assert(r@ =~= builtin_effects());
        }
        r
    }
}

} // verus!
