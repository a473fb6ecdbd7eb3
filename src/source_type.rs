//! Instrument sound sources: built-in generators plus registry-backed
//! custom definitions and hosted plugins.
use vstd::prelude::*;

use crate::{CustomSynthDefId, VstPluginId};

verus! {

/// The kind of generator an instrument plays through.
///
/// `Custom` and `Vst` carry a registry key; what they stand for is resolved
/// through the registry that holds them, not from the variant alone.
#[derive(Debug, Clone, Copy, PartialEq, Eq, Structural)]
pub enum SourceType {
    Saw,
    Sin,
    Sqr,
    Tri,
    Noise,
    Pulse,
    SuperSaw,
    Sync,
    Ring,
    FBSin,
    FM,
    PhaseMod,
    Pluck,
    Formant,
    Gendy,
    Chaos,
    Additive,
    Wavetable,
    Granular,
    Bowed,
    Blown,
    Membrane,
    AudioIn,
    BusIn,
    PitchedSampler,
    Kit,
    Custom(CustomSynthDefId),
    Vst(VstPluginId),
}

/// Human-readable label of each source kind.
pub open spec fn source_name(s: SourceType) -> Seq<char> {
    match s {
        SourceType::Saw => "Saw"@,
        SourceType::Sin => "Sine"@,
        SourceType::Sqr => "Square"@,
        SourceType::Tri => "Triangle"@,
        SourceType::Noise => "Noise"@,
        SourceType::Pulse => "Pulse"@,
        SourceType::SuperSaw => "SuperSaw"@,
        SourceType::Sync => "Sync"@,
        SourceType::Ring => "Ring Mod"@,
        SourceType::FBSin => "FB Sine"@,
        SourceType::FM => "FM"@,
        SourceType::PhaseMod => "Phase Mod"@,
        SourceType::Pluck => "Pluck"@,
        SourceType::Formant => "Formant"@,
        SourceType::Gendy => "Gendy"@,
        SourceType::Chaos => "Chaos"@,
        SourceType::Additive => "Additive"@,
        SourceType::Wavetable => "Wavetable"@,
        SourceType::Granular => "Granular"@,
        SourceType::Bowed => "Bowed"@,
        SourceType::Blown => "Blown"@,
        SourceType::Membrane => "Membrane"@,
        SourceType::AudioIn => "Audio In"@,
        SourceType::BusIn => "Bus In"@,
        SourceType::PitchedSampler => "Pitched Sampler"@,
        SourceType::Kit => "Kit"@,
        SourceType::Custom(_) => "Custom"@,
        SourceType::Vst(_) => "VST"@,
    }
}

/// Short lowercase slug of each source kind, used in generated identifiers.
pub open spec fn source_short_name(s: SourceType) -> Seq<char> {
    match s {
        SourceType::Saw => "saw"@,
        SourceType::Sin => "sin"@,
        SourceType::Sqr => "sqr"@,
        SourceType::Tri => "tri"@,
        SourceType::Noise => "noise"@,
        SourceType::Pulse => "pulse"@,
        SourceType::SuperSaw => "supersaw"@,
        SourceType::Sync => "sync"@,
        SourceType::Ring => "ring"@,
        SourceType::FBSin => "fbsin"@,
        SourceType::FM => "fm"@,
        SourceType::PhaseMod => "phasemod"@,
        SourceType::Pluck => "pluck"@,
        SourceType::Formant => "formant"@,
        SourceType::Gendy => "gendy"@,
        SourceType::Chaos => "chaos"@,
        SourceType::Additive => "additive"@,
        SourceType::Wavetable => "wavetable"@,
        SourceType::Granular => "granular"@,
        SourceType::Bowed => "bowed"@,
        SourceType::Blown => "blown"@,
        SourceType::Membrane => "membrane"@,
        SourceType::AudioIn => "audio_in"@,
        SourceType::BusIn => "bus_in"@,
        SourceType::PitchedSampler => "sample"@,
        SourceType::Kit => "kit"@,
        SourceType::Custom(_) => "custom"@,
        SourceType::Vst(_) => "vst"@,
    }
}

/// Synthesis-engine definition of each source kind that names one without a
/// registry; a custom definition has its own name in its registry.
pub open spec fn source_synth_def_name(s: SourceType) -> Seq<char>
    recommends
        !(s is Custom),
{
    match s {
        SourceType::Saw => "imbolc_saw"@,
        SourceType::Sin => "imbolc_sin"@,
        SourceType::Sqr => "imbolc_sqr"@,
        SourceType::Tri => "imbolc_tri"@,
        SourceType::Noise => "imbolc_noise"@,
        SourceType::Pulse => "imbolc_pulse"@,
        SourceType::SuperSaw => "imbolc_supersaw"@,
        SourceType::Sync => "imbolc_sync"@,
        SourceType::Ring => "imbolc_ring"@,
        SourceType::FBSin => "imbolc_fbsin"@,
        SourceType::FM => "imbolc_fm"@,
        SourceType::PhaseMod => "imbolc_phasemod"@,
        SourceType::Pluck => "imbolc_pluck"@,
        SourceType::Formant => "imbolc_formant"@,
        SourceType::Gendy => "imbolc_gendy"@,
        SourceType::Chaos => "imbolc_chaos"@,
        SourceType::Additive => "imbolc_additive"@,
        SourceType::Wavetable => "imbolc_wavetable"@,
        SourceType::Granular => "imbolc_granular"@,
        SourceType::Bowed => "imbolc_bowed"@,
        SourceType::Blown => "imbolc_blown"@,
        SourceType::Membrane => "imbolc_membrane"@,
        SourceType::AudioIn => "imbolc_audio_in"@,
        SourceType::BusIn => "imbolc_bus_in"@,
        SourceType::PitchedSampler => "imbolc_sampler"@,
        SourceType::Kit => "imbolc_sampler_oneshot"@,
        SourceType::Vst(_) => "imbolc_vst_instrument"@,
        SourceType::Custom(_) => ""@,
    }
}

/// Whether a source kind is one of the built-in, registry-free ones.
pub open spec fn is_builtin_source(s: SourceType) -> bool {
    !(s is Custom) && !(s is Vst)
}

/// The built-in source kinds, in the order that pickers list them.
pub open spec fn builtin_sources() -> Seq<SourceType> {
    seq![
            SourceType::Saw,
            SourceType::Sin,
            SourceType::Sqr,
            SourceType::Tri,
            SourceType::Noise,
            SourceType::Pulse,
            SourceType::SuperSaw,
            SourceType::Sync,
            SourceType::Ring,
            SourceType::FBSin,
            SourceType::FM,
            SourceType::PhaseMod,
            SourceType::Pluck,
            SourceType::Formant,
            SourceType::Gendy,
            SourceType::Chaos,
            SourceType::Additive,
            SourceType::Wavetable,
            SourceType::Granular,
            SourceType::Bowed,
            SourceType::Blown,
            SourceType::Membrane,
            SourceType::AudioIn,
            SourceType::BusIn,
            SourceType::PitchedSampler,
            SourceType::Kit,
    ]
}

/// Every built-in source kind has a non-empty label, slug and engine
/// definition name, and no two built-in kinds share any of the three.
pub proof fn lemma_source_names_distinct(a: SourceType, b: SourceType)
    requires
        is_builtin_source(a),
        is_builtin_source(b),
        a != b,
    ensures
        source_name(a).len() > 0,
        source_short_name(a).len() > 0,
        source_synth_def_name(a).len() > 0,
        source_name(a) != source_name(b),
        source_short_name(a) != source_short_name(b),
        source_synth_def_name(a) != source_synth_def_name(b),
{
// Two literals differ by their lengths, or at a position given below.
    reveal_strlit("Saw");
    assert("Saw"@.len() == 3);
    reveal_strlit("Sine");
    assert("Sine"@.len() == 4);
    reveal_strlit("Square");
    assert("Square"@.len() == 6);
    reveal_strlit("Triangle");
    assert("Triangle"@.len() == 8);
    reveal_strlit("Noise");
    assert("Noise"@.len() == 5);
    reveal_strlit("Pulse");
    assert("Pulse"@.len() == 5);
    reveal_strlit("SuperSaw");
    assert("SuperSaw"@.len() == 8);
    reveal_strlit("Sync");
    assert("Sync"@.len() == 4);
    reveal_strlit("Ring Mod");
    assert("Ring Mod"@.len() == 8);
    reveal_strlit("FB Sine");
    assert("FB Sine"@.len() == 7);
    reveal_strlit("FM");
    assert("FM"@.len() == 2);
    reveal_strlit("Phase Mod");
    assert("Phase Mod"@.len() == 9);
    reveal_strlit("Pluck");
    assert("Pluck"@.len() == 5);
    reveal_strlit("Formant");
    assert("Formant"@.len() == 7);
    reveal_strlit("Gendy");
    assert("Gendy"@.len() == 5);
    reveal_strlit("Chaos");
    assert("Chaos"@.len() == 5);
    reveal_strlit("Additive");
    assert("Additive"@.len() == 8);
    reveal_strlit("Wavetable");
    assert("Wavetable"@.len() == 9);
    reveal_strlit("Granular");
    assert("Granular"@.len() == 8);
    reveal_strlit("Bowed");
    assert("Bowed"@.len() == 5);
    reveal_strlit("Blown");
    assert("Blown"@.len() == 5);
    reveal_strlit("Membrane");
    assert("Membrane"@.len() == 8);
    reveal_strlit("Audio In");
    assert("Audio In"@.len() == 8);
    reveal_strlit("Bus In");
    assert("Bus In"@.len() == 6);
    reveal_strlit("Pitched Sampler");
    assert("Pitched Sampler"@.len() == 15);
    reveal_strlit("Kit");
    assert("Kit"@.len() == 3);
    reveal_strlit("saw");
    assert("saw"@.len() == 3);
    reveal_strlit("sin");
    assert("sin"@.len() == 3);
    reveal_strlit("sqr");
    assert("sqr"@.len() == 3);
    reveal_strlit("tri");
    assert("tri"@.len() == 3);
    reveal_strlit("noise");
    assert("noise"@.len() == 5);
    reveal_strlit("pulse");
    assert("pulse"@.len() == 5);
    reveal_strlit("supersaw");
    assert("supersaw"@.len() == 8);
    reveal_strlit("sync");
    assert("sync"@.len() == 4);
    reveal_strlit("ring");
    assert("ring"@.len() == 4);
    reveal_strlit("fbsin");
    assert("fbsin"@.len() == 5);
    reveal_strlit("fm");
    assert("fm"@.len() == 2);
    reveal_strlit("phasemod");
    assert("phasemod"@.len() == 8);
    reveal_strlit("pluck");
    assert("pluck"@.len() == 5);
    reveal_strlit("formant");
    assert("formant"@.len() == 7);
    reveal_strlit("gendy");
    assert("gendy"@.len() == 5);
    reveal_strlit("chaos");
    assert("chaos"@.len() == 5);
    reveal_strlit("additive");
    assert("additive"@.len() == 8);
    reveal_strlit("wavetable");
    assert("wavetable"@.len() == 9);
    reveal_strlit("granular");
    assert("granular"@.len() == 8);
    reveal_strlit("bowed");
    assert("bowed"@.len() == 5);
    reveal_strlit("blown");
    assert("blown"@.len() == 5);
    reveal_strlit("membrane");
    assert("membrane"@.len() == 8);
    reveal_strlit("audio_in");
    assert("audio_in"@.len() == 8);
    reveal_strlit("bus_in");
    assert("bus_in"@.len() == 6);
    reveal_strlit("sample");
    assert("sample"@.len() == 6);
    reveal_strlit("kit");
    assert("kit"@.len() == 3);
    reveal_strlit("imbolc_saw");
    assert("imbolc_saw"@.len() == 10);
    reveal_strlit("imbolc_sin");
    assert("imbolc_sin"@.len() == 10);
    reveal_strlit("imbolc_sqr");
    assert("imbolc_sqr"@.len() == 10);
    reveal_strlit("imbolc_tri");
    assert("imbolc_tri"@.len() == 10);
    reveal_strlit("imbolc_noise");
    assert("imbolc_noise"@.len() == 12);
    reveal_strlit("imbolc_pulse");
    assert("imbolc_pulse"@.len() == 12);
    reveal_strlit("imbolc_supersaw");
    assert("imbolc_supersaw"@.len() == 15);
    reveal_strlit("imbolc_sync");
    assert("imbolc_sync"@.len() == 11);
    reveal_strlit("imbolc_ring");
    assert("imbolc_ring"@.len() == 11);
    reveal_strlit("imbolc_fbsin");
    assert("imbolc_fbsin"@.len() == 12);
    reveal_strlit("imbolc_fm");
    assert("imbolc_fm"@.len() == 9);
    reveal_strlit("imbolc_phasemod");
    assert("imbolc_phasemod"@.len() == 15);
    reveal_strlit("imbolc_pluck");
    assert("imbolc_pluck"@.len() == 12);
    reveal_strlit("imbolc_formant");
    assert("imbolc_formant"@.len() == 14);
    reveal_strlit("imbolc_gendy");
    assert("imbolc_gendy"@.len() == 12);
    reveal_strlit("imbolc_chaos");
    assert("imbolc_chaos"@.len() == 12);
    reveal_strlit("imbolc_additive");
    assert("imbolc_additive"@.len() == 15);
    reveal_strlit("imbolc_wavetable");
    assert("imbolc_wavetable"@.len() == 16);
    reveal_strlit("imbolc_granular");
    assert("imbolc_granular"@.len() == 15);
    reveal_strlit("imbolc_bowed");
    assert("imbolc_bowed"@.len() == 12);
    reveal_strlit("imbolc_blown");
    assert("imbolc_blown"@.len() == 12);
    reveal_strlit("imbolc_membrane");
    assert("imbolc_membrane"@.len() == 15);
    reveal_strlit("imbolc_audio_in");
    assert("imbolc_audio_in"@.len() == 15);
    reveal_strlit("imbolc_bus_in");
    assert("imbolc_bus_in"@.len() == 13);
    reveal_strlit("imbolc_sampler");
    assert("imbolc_sampler"@.len() == 14);
    reveal_strlit("imbolc_sampler_oneshot");
    assert("imbolc_sampler_oneshot"@.len() == 22);
    assert("Saw"@[0] != "Kit"@[0]);
    assert("Sine"@[1] != "Sync"@[1]);
    assert("Square"@[0] != "Bus In"@[0]);
    assert("Triangle"@[0] != "SuperSaw"@[0]);
    assert("Triangle"@[0] != "Ring Mod"@[0]);
    assert("Triangle"@[0] != "Additive"@[0]);
    assert("Triangle"@[0] != "Granular"@[0]);
    assert("Triangle"@[0] != "Membrane"@[0]);
    assert("Triangle"@[0] != "Audio In"@[0]);
    assert("Noise"@[0] != "Pulse"@[0]);
    assert("Noise"@[0] != "Pluck"@[0]);
    assert("Noise"@[0] != "Gendy"@[0]);
    assert("Noise"@[0] != "Chaos"@[0]);
    assert("Noise"@[0] != "Bowed"@[0]);
    assert("Noise"@[0] != "Blown"@[0]);
    assert("Pulse"@[1] != "Pluck"@[1]);
    assert("Pulse"@[0] != "Gendy"@[0]);
    assert("Pulse"@[0] != "Chaos"@[0]);
    assert("Pulse"@[0] != "Bowed"@[0]);
    assert("Pulse"@[0] != "Blown"@[0]);
    assert("SuperSaw"@[0] != "Ring Mod"@[0]);
    assert("SuperSaw"@[0] != "Additive"@[0]);
    assert("SuperSaw"@[0] != "Granular"@[0]);
    assert("SuperSaw"@[0] != "Membrane"@[0]);
    assert("SuperSaw"@[0] != "Audio In"@[0]);
    assert("Ring Mod"@[0] != "Additive"@[0]);
    assert("Ring Mod"@[0] != "Granular"@[0]);
    assert("Ring Mod"@[0] != "Membrane"@[0]);
    assert("Ring Mod"@[0] != "Audio In"@[0]);
    assert("FB Sine"@[1] != "Formant"@[1]);
    assert("Phase Mod"@[0] != "Wavetable"@[0]);
    assert("Pluck"@[0] != "Gendy"@[0]);
    assert("Pluck"@[0] != "Chaos"@[0]);
    assert("Pluck"@[0] != "Bowed"@[0]);
    assert("Pluck"@[0] != "Blown"@[0]);
    assert("Gendy"@[0] != "Chaos"@[0]);
    assert("Gendy"@[0] != "Bowed"@[0]);
    assert("Gendy"@[0] != "Blown"@[0]);
    assert("Chaos"@[0] != "Bowed"@[0]);
    assert("Chaos"@[0] != "Blown"@[0]);
    assert("Additive"@[0] != "Granular"@[0]);
    assert("Additive"@[0] != "Membrane"@[0]);
    assert("Additive"@[1] != "Audio In"@[1]);
    assert("Granular"@[0] != "Membrane"@[0]);
    assert("Granular"@[0] != "Audio In"@[0]);
    assert("Bowed"@[1] != "Blown"@[1]);
    assert("Membrane"@[0] != "Audio In"@[0]);
    assert("saw"@[1] != "sin"@[1]);
    assert("saw"@[1] != "sqr"@[1]);
    assert("saw"@[0] != "tri"@[0]);
    assert("saw"@[0] != "kit"@[0]);
    assert("sin"@[1] != "sqr"@[1]);
    assert("sin"@[0] != "tri"@[0]);
    assert("sin"@[0] != "kit"@[0]);
    assert("sqr"@[0] != "tri"@[0]);
    assert("sqr"@[0] != "kit"@[0]);
    assert("tri"@[0] != "kit"@[0]);
    assert("noise"@[0] != "pulse"@[0]);
    assert("noise"@[0] != "fbsin"@[0]);
    assert("noise"@[0] != "pluck"@[0]);
    assert("noise"@[0] != "gendy"@[0]);
    assert("noise"@[0] != "chaos"@[0]);
    assert("noise"@[0] != "bowed"@[0]);
    assert("noise"@[0] != "blown"@[0]);
    assert("pulse"@[0] != "fbsin"@[0]);
    assert("pulse"@[1] != "pluck"@[1]);
    assert("pulse"@[0] != "gendy"@[0]);
    assert("pulse"@[0] != "chaos"@[0]);
    assert("pulse"@[0] != "bowed"@[0]);
    assert("pulse"@[0] != "blown"@[0]);
    assert("supersaw"@[0] != "phasemod"@[0]);
    assert("supersaw"@[0] != "additive"@[0]);
    assert("supersaw"@[0] != "granular"@[0]);
    assert("supersaw"@[0] != "membrane"@[0]);
    assert("supersaw"@[0] != "audio_in"@[0]);
    assert("sync"@[0] != "ring"@[0]);
    assert("fbsin"@[0] != "pluck"@[0]);
    assert("fbsin"@[0] != "gendy"@[0]);
    assert("fbsin"@[0] != "chaos"@[0]);
    assert("fbsin"@[0] != "bowed"@[0]);
    assert("fbsin"@[0] != "blown"@[0]);
    assert("phasemod"@[0] != "additive"@[0]);
    assert("phasemod"@[0] != "granular"@[0]);
    assert("phasemod"@[0] != "membrane"@[0]);
    assert("phasemod"@[0] != "audio_in"@[0]);
    assert("pluck"@[0] != "gendy"@[0]);
    assert("pluck"@[0] != "chaos"@[0]);
    assert("pluck"@[0] != "bowed"@[0]);
    assert("pluck"@[0] != "blown"@[0]);
    assert("gendy"@[0] != "chaos"@[0]);
    assert("gendy"@[0] != "bowed"@[0]);
    assert("gendy"@[0] != "blown"@[0]);
    assert("chaos"@[0] != "bowed"@[0]);
    assert("chaos"@[0] != "blown"@[0]);
    assert("additive"@[0] != "granular"@[0]);
    assert("additive"@[0] != "membrane"@[0]);
    assert("additive"@[1] != "audio_in"@[1]);
    assert("granular"@[0] != "membrane"@[0]);
    assert("granular"@[0] != "audio_in"@[0]);
    assert("bowed"@[1] != "blown"@[1]);
    assert("membrane"@[0] != "audio_in"@[0]);
    assert("bus_in"@[0] != "sample"@[0]);
    assert("imbolc_saw"@[8] != "imbolc_sin"@[8]);
    assert("imbolc_saw"@[8] != "imbolc_sqr"@[8]);
    assert("imbolc_saw"@[7] != "imbolc_tri"@[7]);
    assert("imbolc_sin"@[8] != "imbolc_sqr"@[8]);
    assert("imbolc_sin"@[7] != "imbolc_tri"@[7]);
    assert("imbolc_sqr"@[7] != "imbolc_tri"@[7]);
    assert("imbolc_noise"@[7] != "imbolc_pulse"@[7]);
    assert("imbolc_noise"@[7] != "imbolc_fbsin"@[7]);
    assert("imbolc_noise"@[7] != "imbolc_pluck"@[7]);
    assert("imbolc_noise"@[7] != "imbolc_gendy"@[7]);
    assert("imbolc_noise"@[7] != "imbolc_chaos"@[7]);
    assert("imbolc_noise"@[7] != "imbolc_bowed"@[7]);
    assert("imbolc_noise"@[7] != "imbolc_blown"@[7]);
    assert("imbolc_pulse"@[7] != "imbolc_fbsin"@[7]);
    assert("imbolc_pulse"@[8] != "imbolc_pluck"@[8]);
    assert("imbolc_pulse"@[7] != "imbolc_gendy"@[7]);
    assert("imbolc_pulse"@[7] != "imbolc_chaos"@[7]);
    assert("imbolc_pulse"@[7] != "imbolc_bowed"@[7]);
    assert("imbolc_pulse"@[7] != "imbolc_blown"@[7]);
    assert("imbolc_supersaw"@[7] != "imbolc_phasemod"@[7]);
    assert("imbolc_supersaw"@[7] != "imbolc_additive"@[7]);
    assert("imbolc_supersaw"@[7] != "imbolc_granular"@[7]);
    assert("imbolc_supersaw"@[7] != "imbolc_membrane"@[7]);
    assert("imbolc_supersaw"@[7] != "imbolc_audio_in"@[7]);
    assert("imbolc_sync"@[7] != "imbolc_ring"@[7]);
    assert("imbolc_fbsin"@[7] != "imbolc_pluck"@[7]);
    assert("imbolc_fbsin"@[7] != "imbolc_gendy"@[7]);
    assert("imbolc_fbsin"@[7] != "imbolc_chaos"@[7]);
    assert("imbolc_fbsin"@[7] != "imbolc_bowed"@[7]);
    assert("imbolc_fbsin"@[7] != "imbolc_blown"@[7]);
    assert("imbolc_phasemod"@[7] != "imbolc_additive"@[7]);
    assert("imbolc_phasemod"@[7] != "imbolc_granular"@[7]);
    assert("imbolc_phasemod"@[7] != "imbolc_membrane"@[7]);
    assert("imbolc_phasemod"@[7] != "imbolc_audio_in"@[7]);
    assert("imbolc_pluck"@[7] != "imbolc_gendy"@[7]);
    assert("imbolc_pluck"@[7] != "imbolc_chaos"@[7]);
    assert("imbolc_pluck"@[7] != "imbolc_bowed"@[7]);
    assert("imbolc_pluck"@[7] != "imbolc_blown"@[7]);
    assert("imbolc_formant"@[7] != "imbolc_sampler"@[7]);
    assert("imbolc_gendy"@[7] != "imbolc_chaos"@[7]);
    assert("imbolc_gendy"@[7] != "imbolc_bowed"@[7]);
    assert("imbolc_gendy"@[7] != "imbolc_blown"@[7]);
    assert("imbolc_chaos"@[7] != "imbolc_bowed"@[7]);
    assert("imbolc_chaos"@[7] != "imbolc_blown"@[7]);
    assert("imbolc_additive"@[7] != "imbolc_granular"@[7]);
    assert("imbolc_additive"@[7] != "imbolc_membrane"@[7]);
    assert("imbolc_additive"@[8] != "imbolc_audio_in"@[8]);
    assert("imbolc_granular"@[7] != "imbolc_membrane"@[7]);
    assert("imbolc_granular"@[7] != "imbolc_audio_in"@[7]);
    assert("imbolc_bowed"@[8] != "imbolc_blown"@[8]);
    assert("imbolc_membrane"@[7] != "imbolc_audio_in"@[7]);
}

/// The source list holds each built-in source kind exactly once, and nothing
/// else: no custom definition, no hosted plugin.
pub proof fn lemma_builtin_sources_catalog()
    ensures
        builtin_sources().len() == 26,
        forall|i: int| 0 <= i < builtin_sources().len() ==> is_builtin_source(#[trigger] builtin_sources()[i]),
        forall|s: SourceType| is_builtin_source(s) ==> builtin_sources().contains(s),
        builtin_sources().no_duplicates(),
{
    assert forall|s: SourceType| is_builtin_source(s) implies builtin_sources().contains(s) by {
        match s {
            SourceType::Saw => { assert(builtin_sources()[0] == s); },
            SourceType::Sin => { assert(builtin_sources()[1] == s); },
            SourceType::Sqr => { assert(builtin_sources()[2] == s); },
            SourceType::Tri => { assert(builtin_sources()[3] == s); },
            SourceType::Noise => { assert(builtin_sources()[4] == s); },
            SourceType::Pulse => { assert(builtin_sources()[5] == s); },
            SourceType::SuperSaw => { assert(builtin_sources()[6] == s); },
            SourceType::Sync => { assert(builtin_sources()[7] == s); },
            SourceType::Ring => { assert(builtin_sources()[8] == s); },
            SourceType::FBSin => { assert(builtin_sources()[9] == s); },
            SourceType::FM => { assert(builtin_sources()[10] == s); },
            SourceType::PhaseMod => { assert(builtin_sources()[11] == s); },
            SourceType::Pluck => { assert(builtin_sources()[12] == s); },
            SourceType::Formant => { assert(builtin_sources()[13] == s); },
            SourceType::Gendy => { assert(builtin_sources()[14] == s); },
            SourceType::Chaos => { assert(builtin_sources()[15] == s); },
            SourceType::Additive => { assert(builtin_sources()[16] == s); },
            SourceType::Wavetable => { assert(builtin_sources()[17] == s); },
            SourceType::Granular => { assert(builtin_sources()[18] == s); },
            SourceType::Bowed => { assert(builtin_sources()[19] == s); },
            SourceType::Blown => { assert(builtin_sources()[20] == s); },
            SourceType::Membrane => { assert(builtin_sources()[21] == s); },
            SourceType::AudioIn => { assert(builtin_sources()[22] == s); },
            SourceType::BusIn => { assert(builtin_sources()[23] == s); },
            SourceType::PitchedSampler => { assert(builtin_sources()[24] == s); },
            SourceType::Kit => { assert(builtin_sources()[25] == s); },
            _ => {},
        }
    }
}

impl SourceType {
    pub fn name(&self) -> (r: &'static str)
        ensures
            r@ == source_name(*self),
    {
        match self {
            SourceType::Saw => "Saw",
            SourceType::Sin => "Sine",
            SourceType::Sqr => "Square",
            SourceType::Tri => "Triangle",
            SourceType::Noise => "Noise",
            SourceType::Pulse => "Pulse",
            SourceType::SuperSaw => "SuperSaw",
            SourceType::Sync => "Sync",
            SourceType::Ring => "Ring Mod",
            SourceType::FBSin => "FB Sine",
            SourceType::FM => "FM",
            SourceType::PhaseMod => "Phase Mod",
            SourceType::Pluck => "Pluck",
            SourceType::Formant => "Formant",
            SourceType::Gendy => "Gendy",
            SourceType::Chaos => "Chaos",
            SourceType::Additive => "Additive",
            SourceType::Wavetable => "Wavetable",
            SourceType::Granular => "Granular",
            SourceType::Bowed => "Bowed",
            SourceType::Blown => "Blown",
            SourceType::Membrane => "Membrane",
            SourceType::AudioIn => "Audio In",
            SourceType::BusIn => "Bus In",
            SourceType::PitchedSampler => "Pitched Sampler",
            SourceType::Kit => "Kit",
            SourceType::Custom(_) => "Custom",
            SourceType::Vst(_) => "VST",
        }
    }

    pub fn short_name(&self) -> (r: &'static str)
        ensures
            r@ == source_short_name(*self),
    {
        match self {
            SourceType::Saw => "saw",
            SourceType::Sin => "sin",
            SourceType::Sqr => "sqr",
            SourceType::Tri => "tri",
            SourceType::Noise => "noise",
            SourceType::Pulse => "pulse",
            SourceType::SuperSaw => "supersaw",
            SourceType::Sync => "sync",
            SourceType::Ring => "ring",
            SourceType::FBSin => "fbsin",
            SourceType::FM => "fm",
            SourceType::PhaseMod => "phasemod",
            SourceType::Pluck => "pluck",
            SourceType::Formant => "formant",
            SourceType::Gendy => "gendy",
            SourceType::Chaos => "chaos",
            SourceType::Additive => "additive",
            SourceType::Wavetable => "wavetable",
            SourceType::Granular => "granular",
            SourceType::Bowed => "bowed",
            SourceType::Blown => "blown",
            SourceType::Membrane => "membrane",
            SourceType::AudioIn => "audio_in",
            SourceType::BusIn => "bus_in",
            SourceType::PitchedSampler => "sample",
            SourceType::Kit => "kit",
            SourceType::Custom(_) => "custom",
            SourceType::Vst(_) => "vst",
        }
    }

    /// The synthesis-engine definition name. A custom source has none that
    /// can be told without its registry, so it is not accepted here.
    pub fn synth_def_name(&self) -> (r: &'static str)
        requires
            !(*self is Custom),
        ensures
            r@ == source_synth_def_name(*self),
    {
        match self {
            SourceType::Saw => "imbolc_saw",
            SourceType::Sin => "imbolc_sin",
            SourceType::Sqr => "imbolc_sqr",
            SourceType::Tri => "imbolc_tri",
            SourceType::Noise => "imbolc_noise",
            SourceType::Pulse => "imbolc_pulse",
            SourceType::SuperSaw => "imbolc_supersaw",
            SourceType::Sync => "imbolc_sync",
            SourceType::Ring => "imbolc_ring",
            SourceType::FBSin => "imbolc_fbsin",
            SourceType::FM => "imbolc_fm",
            SourceType::PhaseMod => "imbolc_phasemod",
            SourceType::Pluck => "imbolc_pluck",
            SourceType::Formant => "imbolc_formant",
            SourceType::Gendy => "imbolc_gendy",
            SourceType::Chaos => "imbolc_chaos",
            SourceType::Additive => "imbolc_additive",
            SourceType::Wavetable => "imbolc_wavetable",
            SourceType::Granular => "imbolc_granular",
            SourceType::Bowed => "imbolc_bowed",
            SourceType::Blown => "imbolc_blown",
            SourceType::Membrane => "imbolc_membrane",
            SourceType::AudioIn => "imbolc_audio_in",
            SourceType::BusIn => "imbolc_bus_in",
            SourceType::PitchedSampler => "imbolc_sampler",
            SourceType::Kit => "imbolc_sampler_oneshot",
            SourceType::Vst(_) => "imbolc_vst_instrument",
            SourceType::Custom(_) => "",
        }
    }

    pub fn is_audio_input(&self) -> (r: bool)
        ensures
            r == (*self is AudioIn),
    {
        matches!(self, SourceType::AudioIn)
    }

    pub fn is_sample(&self) -> (r: bool)
        ensures
            r == (*self is PitchedSampler),
    {
        matches!(self, SourceType::PitchedSampler)
    }

    pub fn is_kit(&self) -> (r: bool)
        ensures
            r == (*self is Kit),
    {
        matches!(self, SourceType::Kit)
    }

    pub fn is_bus_in(&self) -> (r: bool)
        ensures
            r == (*self is BusIn),
    {
        matches!(self, SourceType::BusIn)
    }

    pub fn is_custom(&self) -> (r: bool)
        ensures
            r == (*self is Custom),
    {
        matches!(self, SourceType::Custom(_))
    }

    pub fn custom_id(&self) -> (r: Option<CustomSynthDefId>)
        ensures
            r == (match *self {
                SourceType::Custom(id) => Some(id),
                _ => None,
            }),
    {
        match self {
            SourceType::Custom(id) => Some(*id),
            _ => None,
        }
    }

    pub fn is_vst(&self) -> (r: bool)
        ensures
            r == (*self is Vst),
    {
        matches!(self, SourceType::Vst(_))
    }

    pub fn vst_id(&self) -> (r: Option<VstPluginId>)
        ensures
            r == (match *self {
                SourceType::Vst(id) => Some(id),
                _ => None,
            }),
    {
        match self {
            SourceType::Vst(id) => Some(*id),
            _ => None,
        }
    }

    /// The built-in source kinds, without the registry-backed ones.
    pub fn all() -> (r: Vec<SourceType>)
        ensures
            r@ == builtin_sources(),
    {
        let r = vec![
            SourceType::Saw,
            SourceType::Sin,
            SourceType::Sqr,
            SourceType::Tri,
            SourceType::Noise,
            SourceType::Pulse,
            SourceType::SuperSaw,
            SourceType::Sync,
            SourceType::Ring,
            SourceType::FBSin,
            SourceType::FM,
            SourceType::PhaseMod,
            SourceType::Pluck,
            SourceType::Formant,
            SourceType::Gendy,
            SourceType::Chaos,
            SourceType::Additive,
            SourceType::Wavetable,
            SourceType::Granular,
            SourceType::Bowed,
            SourceType::Blown,
            SourceType::Membrane,
            SourceType::AudioIn,
            SourceType::BusIn,
            SourceType::PitchedSampler,
            SourceType::Kit,
        ];
        proof {
            assert(r@ =~= builtin_sources());
        }
        r
    }
}

} // verus!
