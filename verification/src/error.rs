use vstd::prelude::*;

verus! {

/// Failures surfaced by the playback side of the pipeline.
#[derive(Debug)]
pub enum PlayerError {
    /// A required decode/output capability is missing on the host; the
    /// payload names the missing element.
    ElementUnavailable(String),
    /// The source path could not be bound to the graph.
    PropertyError,
    /// The engine rejected a requested state transition.
    PlaybackError,
    /// A delivered buffer could not be read in the expected sample format.
    BufferFormatError,
}

} // verus!
