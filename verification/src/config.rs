//! Process-wide search configuration and the per-worker search policy.

use vstd::prelude::*;

verus! {

/// Number of words a generated mnemonic phrase is asked to have.
#[derive(Clone, Copy, Debug, PartialEq, Eq, Structural)]
pub enum WordCount {
    Words12,
    Words24,
}

impl WordCount {
    /// The word count as a number.
    pub open spec fn spec_count(self) -> nat {
        match self {
            WordCount::Words12 => 12,
            WordCount::Words24 => 24,
        }
    }

    /// The word count as a number.
    pub fn count(self) -> (r: u32)
        ensures
            r == self.spec_count(),
    {
        match self {
            WordCount::Words12 => 12,
            WordCount::Words24 => 24,
        }
    }
}

/// Why a configuration was rejected.
#[derive(Clone, Copy, Debug, PartialEq, Eq, Structural)]
pub enum ConfigError {
    /// The requested word count is not 0 (auto), 12 or 24.
    InvalidWordCount,
    /// The worker count is zero.
    InvalidThreadCount,
}

/// Immutable, process-wide search configuration.  Built once at startup and
/// then only read, so it can be shared by every worker without locking.
#[derive(Debug)]
pub struct SearchConfig {
    /// Pattern text the candidate addresses are matched against.
    pub pattern: String,
    /// Requested mnemonic word count: 0 (auto / alternating), 12 or 24.
    pub words: u32,
    /// Number of search workers; at least 1.
    pub threads: usize,
    /// Whether one designated worker measures throughput.
    pub benchmark: bool,
    /// Optional notification target a found result is forwarded to.
    pub webhook: Option<String>,
    /// Whether a GPU search path was requested; unused by this engine.
    pub gpu: bool,
}

impl SearchConfig {
    /// Configuration invariant: at least one worker, and the word count is
    /// either automatic (0) or one of the two supported phrase lengths.
    pub open spec fn wf(self) -> bool {
        &&& self.threads >= 1
        &&& (self.words == 0 || self.words == 12 || self.words == 24)
    }

    /// Validates and builds a configuration.  Rejects a zero worker count
    /// and any word count outside {0, 12, 24}; both are fatal configuration
    /// errors, detected before any worker starts.
    pub fn new(
        pattern: String,
        words: u32,
        threads: usize,
        benchmark: bool,
        webhook: Option<String>,
        gpu: bool,
    ) -> (r: Result<SearchConfig, ConfigError>)
        ensures
            match r {
                Ok(c) => {
                    &&& c.wf()
                    &&& c.pattern == pattern
                    &&& c.words == words
                    &&& c.threads == threads
                    &&& c.benchmark == benchmark
                    &&& c.webhook == webhook
                    &&& c.gpu == gpu
                },
                Err(e) => {
                    &&& (e == ConfigError::InvalidThreadCount <==> threads == 0)
                    &&& (e == ConfigError::InvalidWordCount <==> (threads >= 1
                        && !(words == 0 || words == 12 || words == 24)))
                },
            },
    {
        if threads == 0 {
            Err(ConfigError::InvalidThreadCount)
        } else if !(words == 0 || words == 12 || words == 24) {
            Err(ConfigError::InvalidWordCount)
        } else {
            Ok(SearchConfig { pattern, words, threads, benchmark, webhook, gpu })
        }
    }

    /// Word-count policy for one worker.  With an automatic word count (0),
    /// odd-indexed workers search the 12-word space and even-indexed workers
    /// (worker 0 included) the 24-word space, so both spaces are explored
    /// concurrently; a pinned word count (12 or 24) overrides the
    /// alternation for every worker.
    pub fn word_count_for_worker(&self, worker: usize) -> (r: WordCount)
        requires
            self.wf(),
        ensures
            self.words == 12 ==> r == WordCount::Words12,
            self.words == 24 ==> r == WordCount::Words24,
            self.words == 0 && worker % 2 == 1 ==> r == WordCount::Words12,
            self.words == 0 && worker % 2 == 0 ==> r == WordCount::Words24,
    {
        if self.words == 12 {
            WordCount::Words12
        } else if self.words == 24 {
            WordCount::Words24
        } else if worker % 2 == 1 {
            WordCount::Words12
        } else {
            WordCount::Words24
        }
    }

    /// Whether this worker is the one designated to measure throughput:
    /// benchmarking is enabled and the worker has the fixed index 1, so at
    /// most one worker ever tallies attempts.
    pub fn is_benchmark_worker(&self, worker: usize) -> (r: bool)
        ensures
            r == (self.benchmark && worker == 1),
    {
        self.benchmark && worker == 1
    }
}

} // verus!
