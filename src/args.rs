use vstd::prelude::*;

verus! {

/// The fuzzer's options, as the command line gives them.
#[derive(Clone, Debug)]
pub struct Args {
    /// Percent of chaotic mutations, which may introduce syntax errors.
    pub chaos: u8,
    /// Percent of deletion mutations; the rest are splices.
    pub deletions: u8,
    /// Approximate maximum size of a generated candidate, in bytes.
    pub max_size: usize,
    /// Number of mutations per candidate.
    pub mutations: usize,
    /// Use the external byte-level mutator instead of splicing.
    pub radamsa: bool,
    /// Run a single worker and show the target's stdout and stderr.
    pub debug: bool,
    /// Exit codes that make a run interesting.
    pub interesting_exit_code: Vec<i32>,
    /// Pattern that makes a run interesting when it matches stdout.
    pub interesting_stdout: Option<String>,
    /// Pattern that makes a run interesting when it matches stderr.
    pub interesting_stderr: Option<String>,
    /// Pattern on stdout that makes a run uninteresting, whatever else matched.
    pub uninteresting_stdout: Option<String>,
    /// Pattern on stderr that makes a run uninteresting, whatever else matched.
    pub uninteresting_stderr: Option<String>,
    /// Number of workers.
    pub jobs: usize,
    /// Directory where artifacts are written.
    pub output: String,
    /// Base seed of the workers' random streams.
    pub seed: u64,
    /// Timeout of one run of the target, in milliseconds.
    pub timeout: u64,
    /// Number of `-v` flags.
    pub verbose: u8,
    /// Directory that holds the seed files.
    pub files: String,
    /// Target command and its arguments; an argument starting with `@@`
    /// is replaced by the path of a file holding the candidate.
    pub check: Vec<String>,
}

impl Args {
    /// Number of workers to start: one in debug mode or with the external
    /// mutator, which cannot run on several threads; `jobs` otherwise.
    pub fn worker_count(&self) -> (r: usize)
        ensures
            r == (if self.debug || self.radamsa { 1 } else { self.jobs }),
    {
        if self.debug || self.radamsa {
            1
        } else {
            self.jobs
        }
    }

    /// Whether more than one worker was asked for together with the external
    /// mutator, which then runs on one thread only.
    pub fn radamsa_jobs_ignored(&self) -> (r: bool)
        ensures
            r == (self.radamsa && self.jobs != 1),
    {
        self.radamsa && self.jobs != 1
    }
}

/// How much the fuzzer reports while it runs, from quietest to loudest.
#[derive(Clone, Copy, Debug, PartialEq, Eq, Structural)]
pub enum LogLevel {
    Warn,
    Info,
    Debug,
    Trace,
}

/// The level that a count of `-v` flags asks for.
pub open spec fn level_of_verbosity(verbosity: u8) -> LogLevel {
    if verbosity == 0 {
        LogLevel::Warn
    } else if verbosity == 1 {
        LogLevel::Info
    } else if verbosity == 2 {
        LogLevel::Debug
    } else {
        LogLevel::Trace
    }
}

/// Maps the number of `-v` flags to a log level: none shows warnings only,
/// each further flag shows more, and three or more show everything.
pub fn verbosity_to_log_level(verbosity: u8) -> (r: LogLevel)
    ensures
        r == level_of_verbosity(verbosity),
{
    match verbosity {
        0 => LogLevel::Warn,
        1 => LogLevel::Info,
        2 => LogLevel::Debug,
        _ => LogLevel::Trace,
    }
}

/// Whether log lines carry a timestamp: only at the debug and trace
/// levels, where they are dense enough for the time to matter.
pub fn log_shows_time(level: LogLevel) -> (r: bool)
    ensures
        r == (level == LogLevel::Debug || level == LogLevel::Trace),
{
    match level {
        LogLevel::Warn | LogLevel::Info => false,
        LogLevel::Debug | LogLevel::Trace => true,
    }
}

} // verus!
