//! State of the audio rendering backend.
use vstd::prelude::*;

verus! {

/// Lifecycle state of the audio server process. A label only: whoever
/// supervises the server drives its transitions.
#[derive(Debug, Clone, Copy, PartialEq, Eq, Structural)]
pub enum ServerStatus {
    Stopped,
    Starting,
    Running,
    Connected,
    Error,
}

impl Default for ServerStatus {
    fn default() -> (r: ServerStatus)
        ensures
            r == ServerStatus::Stopped,
    {
        ServerStatus::Stopped
    }
}

} // verus!
