use vanity_miner::config::{ConfigError, SearchConfig, WordCount};
use vanity_miner::keys::derive_public_key;
use vanity_miner::address::derive_address;
use vanity_miner::matcher::Pattern;
use vanity_miner::worker::{search_attempt, throughput_estimate, BenchCounter, BENCH_WINDOW};

fn config(words: u32, threads: usize, benchmark: bool) -> SearchConfig {
    SearchConfig::new(String::from("abc"), words, threads, benchmark, None, false).unwrap()
}

#[test]
fn auto_word_count_alternates_by_worker_index() {
    let cfg = config(0, 4, false);
    assert_eq!(cfg.word_count_for_worker(0), WordCount::Words24);
    assert_eq!(cfg.word_count_for_worker(1), WordCount::Words12);
    assert_eq!(cfg.word_count_for_worker(2), WordCount::Words24);
    assert_eq!(cfg.word_count_for_worker(3), WordCount::Words12);
}

#[test]
fn pinned_word_count_overrides_alternation() {
    let cfg12 = config(12, 3, false);
    let cfg24 = config(24, 3, false);
    for worker in 0..3 {
        assert_eq!(cfg12.word_count_for_worker(worker), WordCount::Words12);
        assert_eq!(cfg24.word_count_for_worker(worker), WordCount::Words24);
    }
}

#[test]
fn invalid_configurations_are_rejected() {
    assert_eq!(
        SearchConfig::new(String::new(), 13, 4, false, None, false).unwrap_err(),
        ConfigError::InvalidWordCount
    );
    assert_eq!(
        SearchConfig::new(String::new(), 0, 0, false, None, false).unwrap_err(),
        ConfigError::InvalidThreadCount
    );
}

#[test]
fn exactly_one_designated_benchmark_worker() {
    let cfg = config(0, 4, true);
    let designated: Vec<usize> = (0..4).filter(|w| cfg.is_benchmark_worker(*w)).collect();
    assert_eq!(designated, vec![1]);
    let off = config(0, 4, false);
    assert!((0..4).all(|w| !off.is_benchmark_worker(w)));
}

#[test]
fn bench_counter_resets_every_window() {
    let mut counter = BenchCounter::new();
    assert_eq!(counter.op_count, 0);
    for i in 1..BENCH_WINDOW {
        assert!(!counter.record());
        assert_eq!(counter.op_count, i);
    }
    assert!(counter.record());
    assert_eq!(counter.op_count, 0);
    // The next window behaves the same.
    for _ in 1..BENCH_WINDOW {
        assert!(!counter.record());
    }
    assert!(counter.record());
    assert_eq!(counter.op_count, 0);
}

#[test]
fn throughput_estimate_formula() {
    // A controlled clock: 10,000 attempts over 2 seconds on 4 workers
    // estimate (10000 / 2) * 4 = 20000 attempts per second.
    assert_eq!(throughput_estimate(10000, 2000, 4), 20000);
    assert_eq!(throughput_estimate(10000, 1000, 1), 10000);
    assert_eq!(throughput_estimate(10000, 500, 8), 160000);
    // Truncating division, as in `1000 * ops / millis`.
    assert_eq!(throughput_estimate(10000, 3000, 1), 3333);
}

#[test]
fn search_finds_prefixed_address_and_rederives_it() {
    // Matches any address whose first hex character after "0x" is 0..7:
    // one attempt in two, so a run of 60 misses has probability 2^-60.
    let pattern = Pattern::compile("^0x[0-7]").unwrap();
    let mut found = false;
    for _ in 0..60 {
        let candidate = search_attempt(&pattern, WordCount::Words12).unwrap();
        assert_eq!(candidate.matched, pattern.is_match(&candidate.address));
        if candidate.matched {
            let c = candidate.address.chars().nth(2).unwrap();
            assert!(('0'..='7').contains(&c));
            // The reported mnemonic re-derives to exactly this address.
            let pk = derive_public_key(&candidate.mnemonic).unwrap();
            assert_eq!(derive_address(&pk), candidate.address);
            found = true;
            break;
        }
    }
    assert!(found);
}

#[test]
fn search_attempt_respects_word_count() {
    let pattern = Pattern::compile("xyz").unwrap();
    let c12 = search_attempt(&pattern, WordCount::Words12).unwrap();
    assert_eq!(c12.mnemonic.split_whitespace().count(), 12);
    let c24 = search_attempt(&pattern, WordCount::Words24).unwrap();
    assert_eq!(c24.mnemonic.split_whitespace().count(), 24);
}
