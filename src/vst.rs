//! Hosted plugin classification.
use vstd::prelude::*;

verus! {

/// Whether a hosted plugin is an instrument or an effect; decides whether it
/// becomes a `SourceType::Vst` or an `EffectType::Vst`.
#[derive(Debug, Clone, Copy, PartialEq, Eq, Structural)]
pub enum VstPluginKind {
    Instrument,
    Effect,
}

} // verus!
