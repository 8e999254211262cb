//! A grammar-aware black-box fuzzer: seeds are parsed, spliced into new
//! candidates, run against a target command, and interesting runs are kept.
mod args;
mod oracle;
mod corpus;
mod worker;
mod artifact;

pub use args::{log_shows_time, verbosity_to_log_level, Args, LogLevel};
pub use oracle::{
    make_check, recorded, regex_accepts, should_record, signal_exit_codes, with_signal_exit_codes,
    OracleConfigError, OracleTemplate, PatternOption, ABORT_SIGNAL,
};
pub use corpus::{
    distinct_names, language_accepted, lemma_corpus_size, load_corpus, parse, readable_count,
    readable_seeds, LanguageParser,
    CorpusError, ParseError, SeedCorpus, SeedEntry, SeedFile,
};
pub use worker::{
    lemma_worker_seeds_distinct, reports_rate, should_report_rate, some_seed_fits,
    worker_rng_seed, worker_seed, SpliceConfig, Worker, WorkerView, BATCH, REPARSE,
};
pub use artifact::{
    artifact_file_name, artifact_name, choose_bucket, decimal, lemma_artifact_names_distinct,
    ArtifactKind, BUCKETS, MIN_REDUCTION, REDUCTION_JOBS, REDUCTION_PASSES,
};
