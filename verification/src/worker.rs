//! The per-worker search step and the benchmarking facility.  A worker
//! loops forever over independent attempts: generate a credential pair,
//! derive its address, test the address against the pattern, and report a
//! match; only the benchmarking counter carries state across iterations.

use vstd::prelude::*;
use crate::address::{address_of, derive_address};
use crate::config::WordCount;
use crate::keys::{generate, phrase_words, pubkey_from_phrase, KeyError};
use crate::matcher::{regex_match, Pattern};
use crate::text::{dec_chars, u64_to_decimal};

verus! {

/// One search attempt's outcome: the drawn mnemonic, the address its key
/// derives to, and whether that address matches the pattern.
pub struct Candidate {
    /// The freshly drawn mnemonic phrase.
    pub mnemonic: String,
    /// The checksummed address derived from the phrase's account-zero key.
    pub address: String,
    /// Whether the pattern matches the address.
    pub matched: bool,
}

impl Candidate {
    /// The candidate is coherent with the pattern and word count it was
    /// produced under: the phrase has the requested word count, it
    /// re-derives to a valid public key, the address is exactly that key's
    /// checksummed address, and the verdict is exactly the pattern's.
    pub open spec fn wf(self, pattern: Seq<char>, wc: WordCount) -> bool {
        &&& phrase_words(self.mnemonic@) == wc.spec_count()
        &&& match pubkey_from_phrase(self.mnemonic@) {
            Option::Some(pk) => self.address@ == address_of(pk),
            Option::None => false,
        }
        &&& self.matched == regex_match(pattern, self.address@)
    }
}

/// One iteration of the search loop: draw a fresh mnemonic of the requested
/// word count, derive its key and address, and test the address against the
/// pattern.  An error means a derived scalar was invalid; the caller must
/// treat it as fatal, never retry it silently.
pub fn search_attempt(pattern: &Pattern, wc: WordCount) -> (r: Result<Candidate, KeyError>)
    ensures
        r matches Ok(c) ==> c.wf(pattern.source_view(), wc),
        r matches Err(e) ==> e == KeyError::InvalidDerivedKey,
{
    let creds = match generate(wc) {
        Ok(c) => c,
        Err(e) => {
            return Err(e);
        },
    };
    let address = derive_address(&creds.public_key);
    let matched = pattern.is_match(address.as_str());
    Ok(Candidate { mnemonic: creds.mnemonic, address, matched })
}

/// Attempts per throughput window: the designated worker reports and resets
/// after this many attempts.
pub const BENCH_WINDOW: u64 = 10000;

/// Rolling attempt counter of the one designated benchmarking worker; never
/// shared across workers.
pub struct BenchCounter {
    /// Attempts recorded since the window started; always below the window
    /// size.
    pub op_count: u64,
}

impl BenchCounter {
    /// The counter sits inside the current window.
    pub open spec fn wf(self) -> bool {
        self.op_count < BENCH_WINDOW
    }

    /// A fresh counter at the start of a window.
    pub fn new() -> (r: BenchCounter)
        ensures
            r.op_count == 0,
            r.wf(),
    {
        BenchCounter { op_count: 0 }
    }

    /// Records one attempt and says whether the window just completed:
    /// exactly at the 10,000th attempt the counter resets to zero and
    /// reports completion, otherwise it only advances.
    pub fn record(&mut self) -> (completed: bool)
        requires
            old(self).wf(),
        ensures
            final(self).wf(),
            completed == (old(self).op_count + 1 == BENCH_WINDOW),
            completed ==> final(self).op_count == 0,
            !completed ==> final(self).op_count == old(self).op_count + 1,
    {
        if self.op_count + 1 == BENCH_WINDOW {
            self.op_count = 0;
            true
        } else {
            self.op_count = self.op_count + 1;
            false
        }
    }
}

/// Estimated aggregate attempts per second: one worker's measured rate over
/// a window, `1000 * op_count / elapsed_millis`, scaled by the worker
/// count.  An approximation that assumes all workers run at the same rate.
pub fn throughput_estimate(op_count: u128, elapsed_millis: u128, threads: usize) -> (r: u128)
    requires
        elapsed_millis >= 1,
        op_count <= 0x1_0000_0000,
        threads <= 0x1_0000_0000,
    ensures
        r as int == (1000 * (op_count as int) / (elapsed_millis as int)) * (threads as int),
{
    proof {
        let oc = op_count as int;
        let em = elapsed_millis as int;
        let th = threads as int;
        assert(1000 * oc / em <= 1000 * oc) by (nonlinear_arith)
            requires
                em >= 1,
                oc >= 0,
        ;
        assert((1000 * oc / em) * th <= (1000 * 0x1_0000_0000) * 0x1_0000_0000)
            by (nonlinear_arith)
            requires
                0 <= 1000 * oc / em <= 1000 * 0x1_0000_0000,
                0 <= th <= 0x1_0000_0000,
        ;
    }
    (1000 * op_count / elapsed_millis) * threads as u128
}

/// A reported discovery: the elapsed search time, the mnemonic that
/// recovers the account, and its address.  Handed to the reporter once and
/// not retained; a match never stops the search.
pub struct MatchResult {
    /// Whole seconds the worker had been searching when the match was found.
    pub elapsed_secs: u64,
    /// The mnemonic phrase that re-derives the matching account.
    pub mnemonic: String,
    /// The checksummed address that matched the pattern.
    pub address: String,
}

impl MatchResult {
    /// The elapsed duration in seconds, rendered in decimal for the
    /// notification payload.
    pub fn duration_text(&self) -> (r: String)
        ensures
            r@ == dec_chars(self.elapsed_secs as nat),
    {
        u64_to_decimal(self.elapsed_secs)
    }
}

} // verus!
