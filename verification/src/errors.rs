use vstd::prelude::*;

verus! {

/// A fatal error of the loading pipeline.
///
/// Nothing is retried: any of these aborts the run. `InvalidLevelToken` is a
/// configuration error raised before any task starts; `Generation` carries the
/// (root, level) pair the grid algorithm rejected; `Persistence` is fatal to
/// the worker that hit it; `Transport` marks a send on a closed channel, a
/// logic error.
#[derive(Debug)]
pub enum PipelineError {
    /// A level token of the configuration is neither a known numeric tag nor
    /// a known symbolic name.
    InvalidLevelToken(String),
    /// The grid expansion algorithm rejected this (root, level) pair.
    Generation { root: u64, level_tag: u64, detail: String },
    /// A database statement failed, or a value did not fit its column.
    Persistence { detail: String },
    /// A grid code does not fit the signed 64-bit identifier column.
    CodeOutOfRange(u64),
    /// A row or progress event was sent on a closed channel.
    Transport,
    /// The `level` column holds a value that is no tier's tag.
    UnknownStoredLevel(i64),
}

impl PipelineError {
    /// True of the errors the inserter pool can raise: the fail-fast law
    /// (the coordinator aborting on the first worker failure) is stated
    /// over these.
    pub open spec fn is_persistence(self) -> bool {
        self matches PipelineError::Persistence { .. } || self matches PipelineError::CodeOutOfRange(_)
    }
}

} // verus!
