use crate::errors::PipelineError;
use crate::grid::default_root_meshes;
use crate::level::{Level, parse_levels, spec_token_level};
use vstd::prelude::*;

verus! {

/// Rows queued at most between the producer and the pool.
pub const DEFAULT_CHANNEL_CAPACITY: usize = 10_000;

/// Rows per committed transaction.
pub const DEFAULT_BATCH_SIZE: u64 = 5_000;

/// The command-line surface: a connection string, a flag to skip the
/// metadata phase, and the optional comma-separated level and root-code
/// lists, already split into their elements.
pub struct Cli {
    pub postgres_url: String,
    pub skip_metadata: bool,
    pub levels: Option<Vec<String>>,
    pub root_meshes: Option<Vec<u64>>,
}

/// The immutable configuration record the pipeline's entry point takes:
/// every choice resolved, every token validated.
pub struct Config {
    pub root_meshes: Vec<u64>,
    pub levels: Vec<Level>,
    pub skip_metadata: bool,
    pub workers: usize,
    pub channel_capacity: usize,
    pub batch_size: u64,
}

/// Relies on num_cpus::get, documented to return at least 1: the number of
/// processors of this machine. Machine-dependent, so nothing more is
/// assumed of it.
#[verifier::external_body]
fn available_cpus() -> (n: usize)
    ensures
        n >= 1,
{
    num_cpus::get()
}

/// The pool size for a machine with `cpus` processors: four workers per
/// processor, since each worker spends its time waiting on a database
/// round trip, not computing. The processor count is capped at 1024 so the
/// multiplication stays within `usize` on every machine; past that width a
/// wider pool would only contend for the database.
pub fn worker_count_from(cpus: usize) -> (n: usize)
    ensures
        n == 4 * (if cpus > 1024 {
            1024int
        } else {
            cpus as int
        }),
{
    let capped = if cpus > 1024 {
        1024
    } else {
        cpus
    };
    capped * 4
}

/// The default pool size: `worker_count_from` applied to this machine's
/// processor count. Only the bounds can be promised of it, since the count
/// is the machine's.
pub fn default_worker_count() -> (n: usize)
    ensures
        4 <= n <= 4096,
        n % 4 == 0,
{
    worker_count_from(available_cpus())
}

/// Resolve the command line into the pipeline's configuration.
///
/// Level tokens are validated up front: the first invalid one is reported
/// and nothing runs. An absent or empty level list means every level; an
/// absent root list means the built-in roots covering the target territory.
pub fn resolve_config(cli: Cli) -> (r: Result<Config, PipelineError>)
    ensures
        r is Ok <==> (cli.levels matches Some(ts) ==> forall|i: int|
            0 <= i < ts@.len() ==> spec_token_level(ts@[i]@) is Some),
        r matches Ok(cfg) ==> {
            &&& cfg.skip_metadata == cli.skip_metadata
            &&& (cli.root_meshes matches Some(rs) ==> cfg.root_meshes@ == rs@)
            &&& (cli.root_meshes is None ==> cfg.root_meshes@.len() == 176)
            &&& (match cli.levels {
                Some(ts) => {
                    if ts@.len() == 0 {
                        cfg.levels@ == Level::all_spec()
                    } else {
                        cfg.levels@.len() == ts@.len() && forall|i: int|
                            0 <= i < ts@.len() ==> Some(cfg.levels@[i]) == spec_token_level(
                                ts@[i]@,
                            )
                    }
                },
                None => cfg.levels@ == Level::all_spec(),
            })
            &&& cfg.workers >= 1
            &&& cfg.channel_capacity == DEFAULT_CHANNEL_CAPACITY
            &&& cfg.batch_size == DEFAULT_BATCH_SIZE
        },
        r matches Err(e) ==> (e matches PipelineError::InvalidLevelToken(t)
            && cli.levels matches Some(ts) && exists|i: int|
            0 <= i < ts@.len() && spec_token_level(ts@[i]@) is None && t@ == ts@[i]@),
{
    let levels: Vec<Level> = match &cli.levels {
        Some(tokens) => {
            if tokens.len() == 0 {
                Level::all()
            } else {
                match parse_levels(tokens) {
                    Ok(ls) => ls,
                    Err(e) => {
                        return Err(e);
                    },
                }
            }
        },
        None => Level::all(),
    };
    let root_meshes: Vec<u64> = match cli.root_meshes {
        Some(rs) => rs,
        None => default_root_meshes(),
    };
    Ok(
        Config {
            root_meshes,
            levels,
            skip_metadata: cli.skip_metadata,
            workers: default_worker_count(),
            channel_capacity: DEFAULT_CHANNEL_CAPACITY,
            batch_size: DEFAULT_BATCH_SIZE,
        },
    )
}

} // verus!
