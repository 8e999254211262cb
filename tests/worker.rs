use std::collections::HashMap;
use std::time::Duration;
use tree_crasher::{
    load_corpus, make_check, parse, should_record, should_report_rate, worker_seed, Args,
    SeedCorpus, Worker, BATCH, MIN_REDUCTION, REDUCTION_JOBS, REDUCTION_PASSES, REPARSE,
};
use tree_sitter::Language;
use treereduce::Check;

fn javascript() -> Language {
    tree_sitter_javascript::LANGUAGE.into()
}

fn splice_types() -> tree_splicer::node_types::NodeTypes {
    tree_splicer::node_types::NodeTypes::new(tree_sitter_javascript::NODE_TYPES).unwrap()
}

fn args(chaos: u8, mutations: usize, max_size: usize, seed: u64) -> Args {
    Args {
        chaos,
        deletions: 0,
        max_size,
        mutations,
        radamsa: false,
        debug: false,
        interesting_exit_code: vec![1],
        interesting_stdout: None,
        interesting_stderr: None,
        uninteresting_stdout: None,
        uninteresting_stderr: None,
        jobs: 1,
        output: String::from("out"),
        seed,
        timeout: 500,
        verbose: 0,
        files: String::from("seeds"),
        check: Vec::new(),
    }
}

fn seeds(text: &str) -> SeedCorpus {
    load_corpus(&javascript(), vec![(String::from("seed.js"), Some(String::from(text)))]).unwrap()
}

/// Runs batches as the fuzzing loop does, collecting up to `n` candidates.
fn candidates(worker: &mut Worker, n: usize) -> Vec<Vec<u8>> {
    let mut out = Vec::new();
    let mut batches = 0;
    while out.len() < n && batches < 100 && worker.can_start_batch() {
        batches += 1;
        let (_, splicer) = worker.start_batch();
        let Some(mut splicer) = splicer else { continue };
        while worker.wants_candidate() && out.len() < n {
            let c = splicer.next();
            worker.on_candidate(c.is_some());
            match c {
                Some(c) => out.push(c),
                None => break,
            }
        }
    }
    out
}

#[test]
fn worker_seeds_advance_by_index() {
    assert_eq!(worker_seed(0, 0), 0);
    assert_eq!(worker_seed(10, 3), 13);
    assert_eq!(worker_seed(u64::MAX, 1), 0);
    assert_ne!(worker_seed(5, 1), worker_seed(5, 2));
}

#[test]
fn rate_is_reported_on_schedule() {
    assert!(!should_report_rate(1, 500, 0));
    assert!(should_report_rate(1, 500, 1));
    assert!(!should_report_rate(2, 500, 1));
    assert!(should_report_rate(2, 10_000, 3));
    assert!(should_report_rate(0, 20_000, 3));
    assert!(!should_report_rate(0, 9_999, 3));
}

#[test]
fn worker_hands_out_candidates() {
    let corpus = seeds("a+b;");
    let a = args(0, 16, 1024, 0);
    let mut worker = Worker::new(0, &a, javascript(), splice_types(), &corpus).unwrap();
    assert_eq!(worker.iteration(), 0);
    assert!(worker.wants_candidate() == false);
    let (config, splicer) = worker.start_batch();
    assert!(splicer.is_some());
    assert_eq!(config.chaos, 0);
    assert_eq!(config.deletions, 0);
    assert_eq!(config.mutations, 16);
    assert_eq!(config.max_size, 1024);
    assert_eq!(config.reparse, REPARSE);
    assert_eq!(worker.iteration(), 0);
    assert!(worker.wants_candidate());
    worker.on_candidate(true);
    assert!(worker.wants_candidate());
    worker.on_candidate(false);
    assert!(!worker.wants_candidate());
    let out = candidates(&mut worker, 20);
    assert_eq!(out.len(), 20);
    assert_eq!(worker.iteration(), 1);
}

#[test]
fn workers_of_a_run_draw_from_their_own_streams() {
    let corpus = seeds("let a = b + c; f(a, b * 2); if (c) { g(d); }");
    let a = args(0, 16, 1024, 7);
    let mut w1 = Worker::new(3, &a, javascript(), splice_types(), &corpus).unwrap();
    let mut w2 = Worker::new(4, &a, javascript(), splice_types(), &corpus).unwrap();
    assert_eq!(candidates(&mut w1, 10).len(), 10);
    assert_eq!(candidates(&mut w2, 10).len(), 10);
    assert_ne!(worker_seed(a.seed, 3), worker_seed(a.seed, 4));
}

#[test]
fn splicer_without_mutations_ends_each_batch() {
    let corpus = seeds("a+b;");
    let a = args(0, 0, 1024, 0);
    let mut worker = Worker::new(0, &a, javascript(), splice_types(), &corpus).unwrap();
    for _ in 0..2 {
        let (_, splicer) = worker.start_batch();
        let mut splicer = splicer.unwrap();
        assert!(worker.wants_candidate());
        let c = splicer.next();
        assert!(c.is_none());
        worker.on_candidate(false);
        assert!(!worker.wants_candidate());
    }
    assert_eq!(worker.iteration(), 1);
}

#[test]
fn batch_stops_at_its_bound() {
    let corpus = seeds("a+b;");
    let a = args(0, 16, 1024, 0);
    let mut worker = Worker::new(0, &a, javascript(), splice_types(), &corpus).unwrap();
    let _ = worker.start_batch();
    for _ in 0..BATCH {
        assert!(worker.wants_candidate());
        worker.on_candidate(true);
    }
    assert!(!worker.wants_candidate());
}

#[test]
fn no_worker_without_usable_seeds() {
    let corpus = seeds("a+b;");
    assert!(Worker::new(0, &args(0, 1, 1024, 0), javascript(), splice_types(), &corpus).is_none());
    assert!(Worker::new(0, &args(0, 16, 3, 0), javascript(), splice_types(), &corpus).is_none());
    assert!(Worker::new(0, &args(0, 16, 4, 0), javascript(), splice_types(), &corpus).is_some());
    assert!(Worker::new(0, &args(0, 0, 4, 0), javascript(), splice_types(), &corpus).is_some());
}

#[test]
fn empty_tree_gives_no_splicer() {
    let corpus = seeds("");
    assert!(!corpus.is_spliceable());
    let mut worker = Worker::new(0, &args(0, 16, 1024, 0), javascript(), splice_types(), &corpus)
        .unwrap();
    let (_, splicer) = worker.start_batch();
    assert!(splicer.is_none());
    assert!(!worker.wants_candidate());
}

fn reduce(input: &[u8]) -> Option<Vec<u8>> {
    let script = "grep -q -F '++' && exit 1 || exit 0";
    let chk = make_check(
        false,
        Duration::from_millis(2000),
        vec![String::from("sh"), String::from("-c"), String::from(script)],
        vec![1],
        None,
        None,
        None,
        None,
    )
    .unwrap()
    .into_check();
    let state = chk.start(input).unwrap();
    let (interesting, _, _, _) = chk.wait_with_output(state).unwrap();
    assert!(should_record(interesting, None));
    let tree = parse(&javascript(), &String::from_utf8_lossy(input)).unwrap();
    let node_types = treereduce::NodeTypes::new(tree_sitter_javascript::NODE_TYPES).unwrap();
    treereduce::treereduce_multi_pass(
        javascript(),
        &node_types,
        treereduce::Original::new(tree, input.to_vec()),
        &treereduce::Config {
            check: chk,
            delete_non_optional: true,
            jobs: REDUCTION_JOBS,
            min_reduction: MIN_REDUCTION,
            replacements: HashMap::new(),
        },
        Some(REDUCTION_PASSES),
    )
    .ok()
    .map(|(r, _)| r.text)
}

#[test]
fn double_plus_artifact_is_reduced() {
    let input = b"a+b;\nx = a++ + b;\nf(a, b);".to_vec();
    let reduced = reduce(&input).expect("reduction failed");
    assert!(reduced.windows(2).any(|w| w == b"++"));
    assert!(reduced.len() <= input.len());
}

#[test]
fn single_seed_is_spliced_only_from_its_own_texts() {
    let corpus = seeds("a+b");
    let a = args(0, 4, 64, 0);
    let mut worker = Worker::new(0, &a, javascript(), splice_types(), &corpus).unwrap();
    for c in candidates(&mut worker, 200) {
        assert!(!c.windows(2).any(|w| w == b"++"));
        assert!(c.iter().all(|b| b"ab+".contains(b)));
    }
}

#[test]
fn minimal_input_is_not_reduced_further() {
    let input = b"++".to_vec();
    let reduced = reduce(&input).expect("reduction failed");
    assert_eq!(reduced, input);
}
