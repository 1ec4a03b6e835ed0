use vstd::prelude::*;

verus! {

/// Every way an analysis step can fail; each one ends the step that raised it.
#[derive(Debug, Clone, Copy, PartialEq, Eq, Structural)]
pub enum AudioError {
    /// The source file or stream could not be opened.
    UnreadableSource,
    /// No container or codec probe recognised the stream.
    UnrecognizedFormat,
    /// The container holds no decodable audio track.
    NoAudioTrack,
    /// A packet failed to decode; no partial buffer is returned.
    DecodeError,
    /// The analysis window is not a power of two of at least two samples.
    InvalidWindowSize,
    /// The buffer is shorter than one analysis window.
    InsufficientSamples,
}

} // verus!
