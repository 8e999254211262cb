use rand::rngs::StdRng;
use tree_sitter::Language;
use tree_splicer::node_types::NodeTypes;
use tree_splicer::splice::{Config, Splicer};
use crate::args::Args;
use crate::corpus::SeedCorpus;
use vstd::prelude::*;

verus! {

#[verifier::external_type_specification]
#[verifier::external_body]
pub struct ExStdRng(rand::rngs::StdRng);

#[verifier::external_type_specification]
#[verifier::external_body]
pub struct ExSpliceNodeTypes(tree_splicer::node_types::NodeTypes);

#[verifier::external_type_specification]
#[verifier::external_body]
pub struct ExSplicer<'a>(tree_splicer::splice::Splicer<'a>);

/// Relies on `rand::SeedableRng::seed_from_u64` for `StdRng`: a generator
/// whose stream is fixed by the seed.
#[verifier::external_body]
fn seeded_rng(seed: u64) -> StdRng {
    <StdRng as rand::SeedableRng>::seed_from_u64(seed)
}

/// Relies on `rand::RngCore::next_u64` for `StdRng`: the next number of the
/// stream.
#[verifier::external_body]
fn next_seed(rng: &mut StdRng) -> u64 {
    rand::RngCore::next_u64(rng)
}

/// Relies on `Clone` for `tree_sitter::Language`.
#[verifier::external_body]
fn clone_language(language: &Language) -> Language {
    language.clone()
}

/// Relies on `Clone` for `tree_splicer::node_types::NodeTypes`.
#[verifier::external_body]
fn clone_node_types(node_types: &NodeTypes) -> NodeTypes {
    node_types.clone()
}

/// What a batch hands the splicer: the worker's mutation options and the
/// seed drawn for the batch.
#[derive(Clone, Copy, Debug, PartialEq, Eq, Structural)]
pub struct SpliceConfig {
    pub chaos: u8,
    pub deletions: u8,
    pub mutations: usize,
    pub max_size: usize,
    pub reparse: usize,
    pub seed: u64,
}

/// Relies on `tree_splicer::splice::Splicer::new`: a splicer over the
/// corpus's seeds with this configuration, `None` exactly when no seed's
/// tree has a root with a child. The map it reads holds the corpus's
/// entries, each tree a clone of the entry's.
#[verifier::external_body]
fn new_splicer<'a>(
    config: &SpliceConfig,
    language: Language,
    node_types: NodeTypes,
    corpus: &'a SeedCorpus,
) -> (r: Option<Splicer<'a>>)
    ensures
        r is Some <==> corpus.spliceable(),
{
    let config = Config {
        chaos: config.chaos,
        deletions: config.deletions,
        language,
        inter_splices: config.mutations,
        node_types,
        max_size: config.max_size,
        reparse: config.reparse,
        seed: config.seed,
    };
    Splicer::new(config, corpus.files())
}

/// Candidates drawn from one splicer before it is rebuilt with a new seed,
/// which keeps the work of one batch bounded.
pub const BATCH: usize = 100_000;

/// The splicer re-parses a candidate after this many mutations: never.
pub const REPARSE: usize = usize::MAX;

/// The seed of the random stream of worker `thread_index`: the base seed
/// advanced by the index, wrapping around.
pub open spec fn worker_rng_seed(seed: u64, thread_index: usize) -> u64 {
    ((seed as int + thread_index as int) % 0x1_0000_0000_0000_0000) as u64
}

/// Distinct workers of a run seed their random streams with distinct
/// seeds.
pub proof fn lemma_worker_seeds_distinct(seed: u64, i: usize, j: usize)
    requires
        i != j,
    ensures
        worker_rng_seed(seed, i) != worker_rng_seed(seed, j),
{
}

/// The seed of the random stream of worker `thread_index`.
pub fn worker_seed(seed: u64, thread_index: usize) -> (r: u64)
    ensures
        r == worker_rng_seed(seed, thread_index),
{
    seed.wrapping_add(thread_index as u64)
}

/// Whether a worker reports its rate of executions: once a second has
/// passed in the batch, at every 500th execution of its second batch and
/// every 10,000th of any batch.
pub open spec fn reports_rate(iteration: usize, execs: u64, secs: u64) -> bool {
    secs > 0 && ((iteration == 1 && execs % 500 == 0) || execs % 10_000 == 0)
}

/// Decides whether a worker reports its rate of executions, from the index
/// of its batch, the executions in the batch and the whole seconds since
/// the batch began.
pub fn should_report_rate(iteration: usize, execs: u64, secs: u64) -> (r: bool)
    ensures
        r == reports_rate(iteration, execs, secs),
{
    secs > 0 && ((iteration == 1 && execs % 500 == 0) || execs % 10_000 == 0)
}

/// A worker of the fuzzing loop. Each batch draws a seed from the worker's
/// random stream and builds a splicer over the corpus with it; the caller
/// draws candidates from the splicer while `wants_candidate` holds and
/// reports each draw with `on_candidate`, so a batch runs exactly the first
/// `BATCH` candidates of its splicer, or all of them if there are fewer.
pub struct Worker<'a> {
    thread_index: usize,
    rng_seed: u64,
    corpus: &'a SeedCorpus,
    chaos: u8,
    deletions: u8,
    mutations: usize,
    max_size: usize,
    language: Language,
    node_types: NodeTypes,
    rng: StdRng,
    batches: usize,
    produced: usize,
    exhausted: bool,
}

/// A worker's visible state.
pub struct WorkerView {
    pub thread_index: usize,
    pub rng_seed: u64,
    pub chaos: u8,
    pub deletions: u8,
    pub mutations: usize,
    pub max_size: usize,
    /// Whether the splicer can work on the worker's corpus.
    pub spliceable: bool,
    /// Batches begun so far.
    pub batches: usize,
    /// Candidates drawn in the current batch.
    pub produced: usize,
    /// Whether the current batch's splicer is missing or ran out.
    pub exhausted: bool,
}

/// Whether some seed of the corpus is within the size bound.
pub open spec fn some_seed_fits(corpus: Seq<(Seq<char>, Seq<u8>)>, max_size: usize) -> bool {
    exists|i: int| 0 <= i < corpus.len() && #[trigger] corpus[i].1.len() <= max_size
}

impl<'a> Worker<'a> {
    pub closed spec fn view(&self) -> WorkerView {
        WorkerView {
            thread_index: self.thread_index,
            rng_seed: self.rng_seed,
            chaos: self.chaos,
            deletions: self.deletions,
            mutations: self.mutations,
            max_size: self.max_size,
            spliceable: self.corpus.spliceable(),
            batches: self.batches,
            produced: self.produced,
            exhausted: self.exhausted,
        }
    }

    /// Whether the current batch wants another candidate: one was begun,
    /// its splicer has not run out, and it is below its bound.
    pub open spec fn wants(v: WorkerView) -> bool {
        v.batches > 0 && !v.exhausted && v.produced < BATCH
    }

    /// Starts worker `thread_index` over the corpus with the options of
    /// `args`. Its random stream is seeded from the base seed and its index.
    /// There is no worker, `None`, over an empty corpus, with exactly one
    /// mutation per candidate (the splicer draws from `1..mutations`, which
    /// is then empty) or when no seed is within the size bound (the splicer
    /// would draw seeds forever).
    pub fn new(
        thread_index: usize,
        args: &Args,
        language: Language,
        node_types: NodeTypes,
        corpus: &'a SeedCorpus,
    ) -> (r: Option<Worker<'a>>)
        ensures
            r is None <==> (corpus@.len() == 0 || args.mutations == 1 || !some_seed_fits(
                corpus@,
                args.max_size,
            )),
            r matches Some(w) ==> w.view() == (WorkerView {
                thread_index,
                rng_seed: worker_rng_seed(args.seed, thread_index),
                chaos: args.chaos,
                deletions: args.deletions,
                mutations: args.mutations,
                max_size: args.max_size,
                spliceable: corpus.spliceable(),
                batches: 0,
                produced: 0,
                exhausted: false,
            }),
    {
        if corpus.is_empty() || args.mutations == 1 {
            return None;
        }
        let mut i: usize = 0;
        let mut fits = false;
        while i < corpus.len()
            invariant
                0 <= i <= corpus@.len(),
                !fits ==> forall|j: int| 0 <= j < i ==> #[trigger] corpus@[j].1.len() > args.max_size,
                fits ==> some_seed_fits(corpus@, args.max_size),
            decreases corpus@.len() - i,
        {
            if corpus.bytes(i).len() <= args.max_size {
                fits = true;
            }
            i = i + 1;
        }
        if !fits {
            return None;
        }
        let rng_seed = worker_seed(args.seed, thread_index);
        Some(
            Worker {
                thread_index,
                rng_seed,
                corpus,
                chaos: args.chaos,
                deletions: args.deletions,
                mutations: args.mutations,
                max_size: args.max_size,
                language,
                node_types,
                rng: seeded_rng(rng_seed),
                batches: 0,
                produced: 0,
                exhausted: false,
            },
        )
    }

    /// Index of the current batch, or 0 before the first.
    pub fn iteration(&self) -> (r: usize)
        ensures
            r == (if self@.batches == 0 { 0 } else { (self@.batches - 1) as usize }),
    {
        if self.batches == 0 {
            0
        } else {
            self.batches - 1
        }
    }

    /// Whether another batch can begin: batch indices are not used up.
    pub fn can_start_batch(&self) -> (r: bool)
        ensures
            r == (self@.batches < usize::MAX),
    {
        self.batches < usize::MAX
    }

    /// Begins a batch: draws the next seed of the worker's stream and builds
    /// a splicer with it and the worker's options. The splicer is `None`
    /// exactly when no seed's tree has a root with a child.
    pub fn start_batch(&mut self) -> (r: (SpliceConfig, Option<Splicer<'a>>))
        requires
            old(self)@.batches < usize::MAX,
        ensures
            final(self)@ == (WorkerView {
                batches: (old(self)@.batches + 1) as usize,
                produced: 0,
                exhausted: r.1 is None,
                ..old(self)@
            }),
            r.0.chaos == old(self)@.chaos,
            r.0.deletions == old(self)@.deletions,
            r.0.mutations == old(self)@.mutations,
            r.0.max_size == old(self)@.max_size,
            r.0.reparse == REPARSE,
            r.1 is Some <==> old(self)@.spliceable,
    {
        let seed = next_seed(&mut self.rng);
        let config = SpliceConfig {
            chaos: self.chaos,
            deletions: self.deletions,
            mutations: self.mutations,
            max_size: self.max_size,
            reparse: REPARSE,
            seed,
        };
        let splicer = new_splicer(
            &config,
            clone_language(&self.language),
            clone_node_types(&self.node_types),
            self.corpus,
        );
        self.batches = self.batches + 1;
        self.produced = 0;
        self.exhausted = splicer.is_none();
        (config, splicer)
    }

    /// Whether the current batch wants another candidate.
    pub fn wants_candidate(&self) -> (r: bool)
        ensures
            r == Self::wants(self@),
    {
        self.batches > 0 && !self.exhausted && self.produced < BATCH
    }

    /// Records one draw from the current batch's splicer: a candidate, or
    /// the end of what the splicer gives.
    pub fn on_candidate(&mut self, drawn: bool)
        requires
            Self::wants(old(self)@),
        ensures
            final(self)@ == (if drawn {
                WorkerView { produced: (old(self)@.produced + 1) as usize, ..old(self)@ }
            } else {
                WorkerView { exhausted: true, ..old(self)@ }
            }),
    {
        if drawn {
            self.produced = self.produced + 1;
        } else {
            self.exhausted = true;
        }
    }
}

} // verus!
