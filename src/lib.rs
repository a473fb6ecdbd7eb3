//! Shared vocabulary of a digital audio workstation: instrument sources,
//! effects, filters, EQ bands, plugin kinds and session-level settings.
use vstd::prelude::*;

pub mod arrangement;
pub mod audio;
pub mod effect;
pub mod filter;
pub mod session;
pub mod source_type;
pub mod vst;

verus! {

/// Key of a hosted plugin in the plugin registry.
pub type VstPluginId = u32;

/// Key of a user-defined synthesis definition in its registry.
pub type CustomSynthDefId = u32;

/// Identity of an effect placed in a processing chain.
pub type EffectId = u32;

} // verus!
