//! Filter topologies and the parametric EQ.
use vstd::prelude::*;

verus! {

/// The topology of an instrument's filter.
#[derive(Debug, Clone, Copy, PartialEq, Eq, Structural)]
pub enum FilterType {
    Lpf,
    Hpf,
    Bpf,
    Notch,
    Comb,
    Allpass,
    Vowel,
    ResDrive,
}

/// Human-readable label of each filter topology.
pub open spec fn filter_name(f: FilterType) -> Seq<char> {
    match f {
        FilterType::Lpf => "Low-Pass"@,
        FilterType::Hpf => "High-Pass"@,
        FilterType::Bpf => "Band-Pass"@,
        FilterType::Notch => "Notch"@,
        FilterType::Comb => "Comb"@,
        FilterType::Allpass => "Allpass"@,
        FilterType::Vowel => "Vowel"@,
        FilterType::ResDrive => "ResDrive"@,
    }
}

/// Synthesis-engine definition of each filter topology.
pub open spec fn filter_synth_def_name(f: FilterType) -> Seq<char> {
    match f {
        FilterType::Lpf => "imbolc_lpf"@,
        FilterType::Hpf => "imbolc_hpf"@,
        FilterType::Bpf => "imbolc_bpf"@,
        FilterType::Notch => "imbolc_notch"@,
        FilterType::Comb => "imbolc_comb"@,
        FilterType::Allpass => "imbolc_allpass"@,
        FilterType::Vowel => "imbolc_vowel"@,
        FilterType::ResDrive => "imbolc_resdrive"@,
    }
}

/// The filter topologies, in the order that pickers list them.
pub open spec fn all_filters() -> Seq<FilterType> {
    seq![
        FilterType::Lpf,
        FilterType::Hpf,
        FilterType::Bpf,
        FilterType::Notch,
        FilterType::Comb,
        FilterType::Allpass,
        FilterType::Vowel,
        FilterType::ResDrive,
    ]
}

/// Every filter topology has a non-empty label and engine definition name,
/// and no two topologies share either.
pub proof fn lemma_filter_names_distinct(a: FilterType, b: FilterType)
    requires
        a != b,
    ensures
        filter_name(a).len() > 0,
        filter_synth_def_name(a).len() > 0,
        filter_name(a) != filter_name(b),
        filter_synth_def_name(a) != filter_synth_def_name(b),
{
// Two literals differ by their lengths, or at a position given below.
    reveal_strlit("Low-Pass");
    assert("Low-Pass"@.len() == 8);
    reveal_strlit("High-Pass");
    assert("High-Pass"@.len() == 9);
    reveal_strlit("Band-Pass");
    assert("Band-Pass"@.len() == 9);
    reveal_strlit("Notch");
    assert("Notch"@.len() == 5);
    reveal_strlit("Comb");
    assert("Comb"@.len() == 4);
    reveal_strlit("Allpass");
    assert("Allpass"@.len() == 7);
    reveal_strlit("Vowel");
    assert("Vowel"@.len() == 5);
    reveal_strlit("ResDrive");
    assert("ResDrive"@.len() == 8);
    reveal_strlit("imbolc_lpf");
    assert("imbolc_lpf"@.len() == 10);
    reveal_strlit("imbolc_hpf");
    assert("imbolc_hpf"@.len() == 10);
    reveal_strlit("imbolc_bpf");
    assert("imbolc_bpf"@.len() == 10);
    reveal_strlit("imbolc_notch");
    assert("imbolc_notch"@.len() == 12);
    reveal_strlit("imbolc_comb");
    assert("imbolc_comb"@.len() == 11);
    reveal_strlit("imbolc_allpass");
    assert("imbolc_allpass"@.len() == 14);
    reveal_strlit("imbolc_vowel");
    assert("imbolc_vowel"@.len() == 12);
    reveal_strlit("imbolc_resdrive");
    assert("imbolc_resdrive"@.len() == 15);
    assert("Low-Pass"@[0] != "ResDrive"@[0]);
    assert("High-Pass"@[0] != "Band-Pass"@[0]);
    assert("Notch"@[0] != "Vowel"@[0]);
    assert("imbolc_lpf"@[7] != "imbolc_hpf"@[7]);
    assert("imbolc_lpf"@[7] != "imbolc_bpf"@[7]);
    assert("imbolc_hpf"@[7] != "imbolc_bpf"@[7]);
    assert("imbolc_notch"@[7] != "imbolc_vowel"@[7]);
}

/// The filter list holds each topology exactly once.
pub proof fn lemma_all_filters_catalog()
    ensures
        all_filters().len() == 8,
        forall|f: FilterType| all_filters().contains(f),
        all_filters().no_duplicates(),
{
    assert forall|f: FilterType| all_filters().contains(f) by {
        match f {
            FilterType::Lpf => { assert(all_filters()[0] == f); },
            FilterType::Hpf => { assert(all_filters()[1] == f); },
            FilterType::Bpf => { assert(all_filters()[2] == f); },
            FilterType::Notch => { assert(all_filters()[3] == f); },
            FilterType::Comb => { assert(all_filters()[4] == f); },
            FilterType::Allpass => { assert(all_filters()[5] == f); },
            FilterType::Vowel => { assert(all_filters()[6] == f); },
            FilterType::ResDrive => { assert(all_filters()[7] == f); },
        }
    }
}

impl FilterType {
    pub fn name(&self) -> (r: &'static str)
        ensures
            r@ == filter_name(*self),
    {
        match self {
            FilterType::Lpf => "Low-Pass",
            FilterType::Hpf => "High-Pass",
            FilterType::Bpf => "Band-Pass",
            FilterType::Notch => "Notch",
            FilterType::Comb => "Comb",
            FilterType::Allpass => "Allpass",
            FilterType::Vowel => "Vowel",
            FilterType::ResDrive => "ResDrive",
        }
    }

    pub fn synth_def_name(&self) -> (r: &'static str)
        ensures
            r@ == filter_synth_def_name(*self),
    {
        match self {
            FilterType::Lpf => "imbolc_lpf",
            FilterType::Hpf => "imbolc_hpf",
            FilterType::Bpf => "imbolc_bpf",
            FilterType::Notch => "imbolc_notch",
            FilterType::Comb => "imbolc_comb",
            FilterType::Allpass => "imbolc_allpass",
            FilterType::Vowel => "imbolc_vowel",
            FilterType::ResDrive => "imbolc_resdrive",
        }
    }

    pub fn all() -> (r: Vec<FilterType>)
        ensures
            r@ == all_filters(),
    {
        let r = vec![
            FilterType::Lpf,
            FilterType::Hpf,
            FilterType::Bpf,
            FilterType::Notch,
            FilterType::Comb,
            FilterType::Allpass,
            FilterType::Vowel,
            FilterType::ResDrive,
        ];
        proof {
            assert(r@ =~= all_filters());
        }
        r
    }
}

/// The response shape of one parametric EQ band.
#[derive(Debug, Clone, Copy, PartialEq, Eq, Structural)]
pub enum EqBandType {
    LowShelf,
    Peaking,
    HighShelf,
}

/// Short label of each EQ band kind.
pub open spec fn eq_band_name(b: EqBandType) -> Seq<char> {
    match b {
        EqBandType::LowShelf => "LS"@,
        EqBandType::Peaking => "PK"@,
        EqBandType::HighShelf => "HS"@,
    }
}


/// Every EQ band kind has a non-empty label, and no two kinds share one.
pub proof fn lemma_eq_band_names_distinct(a: EqBandType, b: EqBandType)
    requires
        a != b,
    ensures
        eq_band_name(a).len() > 0,
        eq_band_name(a) != eq_band_name(b),
{
// Two literals differ by their lengths, or at a position given below.
    reveal_strlit("LS");
    assert("LS"@.len() == 2);
    reveal_strlit("PK");
    assert("PK"@.len() == 2);
    reveal_strlit("HS");
    assert("HS"@.len() == 2);
    assert("LS"@[0] != "PK"@[0]);
    assert("LS"@[0] != "HS"@[0]);
    assert("PK"@[0] != "HS"@[0]);
}

impl EqBandType {
    pub fn name(&self) -> (r: &'static str)
        ensures
            r@ == eq_band_name(*self),
    {
        match self {
            EqBandType::LowShelf => "LS",
            EqBandType::Peaking => "PK",
            EqBandType::HighShelf => "HS",
        }
    }
}

/// Number of bands of the parametric EQ; band positions are fixed.
pub const EQ_BAND_COUNT: usize = 12;

/// Settings of one EQ band in exact units: centre frequency in hertz, gain in
/// hundredths of a decibel, Q in hundredths.
#[derive(Debug, Clone, Copy, PartialEq, Eq, Structural)]
pub struct EqBandPreset {
    pub band_type: EqBandType,
    pub freq_hz: u32,
    pub gain_cdb: i32,
    pub q_centi: u32,
    pub enabled: bool,
}

/// The parametric EQ: a fixed row of bands, where the position of a band
/// decides its role, and a master switch.
#[derive(Debug, Clone, Copy, PartialEq, Eq)]
pub struct EqPreset {
    pub bands: [EqBandPreset; EQ_BAND_COUNT],
    pub enabled: bool,
}

/// The default band table: a low shelf, ten peaking bands and a high shelf on
/// a roughly logarithmic ladder from 40 Hz to 18 kHz, all flat and enabled.
pub open spec fn default_eq_bands() -> Seq<EqBandPreset> {
    seq![
        EqBandPreset { band_type: EqBandType::LowShelf, freq_hz: 40, gain_cdb: 0, q_centi: 70, enabled: true },
        EqBandPreset { band_type: EqBandType::Peaking, freq_hz: 80, gain_cdb: 0, q_centi: 100, enabled: true },
        EqBandPreset { band_type: EqBandType::Peaking, freq_hz: 160, gain_cdb: 0, q_centi: 100, enabled: true },
        EqBandPreset { band_type: EqBandType::Peaking, freq_hz: 320, gain_cdb: 0, q_centi: 100, enabled: true },
        EqBandPreset { band_type: EqBandType::Peaking, freq_hz: 640, gain_cdb: 0, q_centi: 100, enabled: true },
        EqBandPreset { band_type: EqBandType::Peaking, freq_hz: 1200, gain_cdb: 0, q_centi: 100, enabled: true },
        EqBandPreset { band_type: EqBandType::Peaking, freq_hz: 2500, gain_cdb: 0, q_centi: 100, enabled: true },
        EqBandPreset { band_type: EqBandType::Peaking, freq_hz: 5000, gain_cdb: 0, q_centi: 100, enabled: true },
        EqBandPreset { band_type: EqBandType::Peaking, freq_hz: 8000, gain_cdb: 0, q_centi: 100, enabled: true },
        EqBandPreset { band_type: EqBandType::Peaking, freq_hz: 12000, gain_cdb: 0, q_centi: 100, enabled: true },
        EqBandPreset { band_type: EqBandType::Peaking, freq_hz: 16000, gain_cdb: 0, q_centi: 100, enabled: true },
        EqBandPreset { band_type: EqBandType::HighShelf, freq_hz: 18000, gain_cdb: 0, q_centi: 70, enabled: true },
    ]
}

/// Centre frequencies of the peaking bands of the default table, low to high.
pub open spec fn default_peaking_freqs() -> Seq<u32> {
    seq![80, 160, 320, 640, 1200, 2500, 5000, 8000, 12000, 16000]
}

/// The default EQ has twelve bands: a low shelf at 40 Hz first, a high shelf
/// at 18 kHz last, peaking bands between them on the listed ladder, every
/// band flat and enabled.
pub proof fn lemma_default_eq_layout()
    ensures
        default_eq_bands().len() == EQ_BAND_COUNT,
        default_eq_bands()[0].band_type == EqBandType::LowShelf,
        default_eq_bands()[0].freq_hz == 40,
        default_eq_bands()[11].band_type == EqBandType::HighShelf,
        default_eq_bands()[11].freq_hz == 18000,
        forall|i: int| 1 <= i <= 10 ==> (#[trigger] default_eq_bands()[i]).band_type == EqBandType::Peaking
            && default_eq_bands()[i].freq_hz == default_peaking_freqs()[i - 1],
        forall|i: int| 0 <= i < EQ_BAND_COUNT ==> (#[trigger] default_eq_bands()[i]).gain_cdb == 0
            && default_eq_bands()[i].enabled,
{
}

impl Default for EqPreset {
    fn default() -> (r: EqPreset)
        ensures
            r.bands@ == default_eq_bands(),
            r.enabled,
    {
        let r = EqPreset {
            bands: [
                EqBandPreset { band_type: EqBandType::LowShelf, freq_hz: 40, gain_cdb: 0, q_centi: 70, enabled: true },
                EqBandPreset { band_type: EqBandType::Peaking, freq_hz: 80, gain_cdb: 0, q_centi: 100, enabled: true },
                EqBandPreset { band_type: EqBandType::Peaking, freq_hz: 160, gain_cdb: 0, q_centi: 100, enabled: true },
                EqBandPreset { band_type: EqBandType::Peaking, freq_hz: 320, gain_cdb: 0, q_centi: 100, enabled: true },
                EqBandPreset { band_type: EqBandType::Peaking, freq_hz: 640, gain_cdb: 0, q_centi: 100, enabled: true },
                EqBandPreset { band_type: EqBandType::Peaking, freq_hz: 1200, gain_cdb: 0, q_centi: 100, enabled: true },
                EqBandPreset { band_type: EqBandType::Peaking, freq_hz: 2500, gain_cdb: 0, q_centi: 100, enabled: true },
                EqBandPreset { band_type: EqBandType::Peaking, freq_hz: 5000, gain_cdb: 0, q_centi: 100, enabled: true },
                EqBandPreset { band_type: EqBandType::Peaking, freq_hz: 8000, gain_cdb: 0, q_centi: 100, enabled: true },
                EqBandPreset { band_type: EqBandType::Peaking, freq_hz: 12000, gain_cdb: 0, q_centi: 100, enabled: true },
                EqBandPreset { band_type: EqBandType::Peaking, freq_hz: 16000, gain_cdb: 0, q_centi: 100, enabled: true },
                EqBandPreset { band_type: EqBandType::HighShelf, freq_hz: 18000, gain_cdb: 0, q_centi: 70, enabled: true },
            ],
            enabled: true,
        };
        proof {
            assert(r.bands@ =~= default_eq_bands());
        }
        r
    }
}

} // verus!
