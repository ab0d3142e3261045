//! The error taxonomy of the pipeline: configuration errors detected before
//! any I/O, upstream source failures, format-writer failures, and
//! destination-sink failures.

use vstd::prelude::*;

verus! {

/// Every way a run of the pipeline can fail.
///
/// Configuration problems (an unknown codec name, a level outside the
/// codec's range) are detected before any I/O. The remaining variants
/// classify failures by the stage that raised them: the upstream batch
/// source, the format writer, or the destination sink. No error is retried
/// or recovered locally; the first one aborts the whole run.
#[derive(Debug, Clone, PartialEq, Eq)]
pub enum PipelineError {
    /// The supplied codec name matches no supported codec; carries the
    /// offending name.
    UnsupportedCompression(String),
    /// The supplied numeric level is outside the chosen codec's valid
    /// range; carries the offending level.
    InvalidCompressionLevel(u8),
    /// The upstream batch sequence yielded a failure.
    SourceError,
    /// The format writer rejected a batch or a configuration value, or
    /// failed during finalization.
    EncodingError,
    /// The destination file could not be created, or a flush or sync
    /// operation failed.
    SinkError,
}

} // verus!
