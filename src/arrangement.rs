//! Identifiers for timeline-based composition.
use vstd::prelude::*;

verus! {

/// Unique identifier for a clip in the arrangement.
pub type ClipId = u32;

/// Unique identifier for a clip placement on the timeline.
pub type PlacementId = u32;

} // verus!
