//! Bookkeeping of the protocol test runs: the counters kept per protocol
//! and the decision when to stop calling methods.

use vstd::prelude::*;

verus! {

/// Number of test iterations to perform
pub const TEST_ITERATIONS: usize = 10;

/// Number of detected failures until we stop testing a particular protocol
pub const NUM_FAILURE_THRESHOLD: usize = 50;

/// Method calls made before the failure rate is checked.
pub const MIN_METHOD_CALLS_TO_PROB_CHECK: usize = 1_000;

/// The failure rate below which testing stops early is one in this many
/// calls.
pub const TERMINATION_FAILURE_DIVISOR: usize = 1_000;

/// Maximum number of method calls to perform in a single test iteration
pub const MAX_METHOD_CALLS: usize = 10_000;

/// Whether another round of method calls is made after `calls` calls with
/// `failures` failures: not past the call limit, not at the failure
/// threshold, and, once enough calls are made, not with a failure rate
/// below one in a thousand.
pub open spec fn keep_testing_spec(calls: usize, failures: usize) -> bool {
    &&& calls < MAX_METHOD_CALLS
    &&& failures < NUM_FAILURE_THRESHOLD
    &&& (calls >= MIN_METHOD_CALLS_TO_PROB_CHECK ==> failures * TERMINATION_FAILURE_DIVISOR >= calls)
}

/// Decides whether to make another round of method calls.
pub fn keep_testing(calls: usize, failures: usize) -> (res: bool)
    ensures
        res == keep_testing_spec(calls, failures),
{
    if calls >= MAX_METHOD_CALLS {
        return false;
    }
    if failures >= NUM_FAILURE_THRESHOLD {
        return false;
    }
    if calls >= MIN_METHOD_CALLS_TO_PROB_CHECK {
        return failures * TERMINATION_FAILURE_DIVISOR >= calls;
    }
    true
}

/// How many of a round's calls failed.
pub open spec fn failed_count(idempotent_failed: bool, non_idempotent_failed: bool, reset_failed: bool) -> int {
    (if idempotent_failed {
        1int
    } else {
        0int
    }) + (if non_idempotent_failed {
        1int
    } else {
        0int
    }) + (if reset_failed {
        1int
    } else {
        0int
    })
}

/// The call and failure counts after one round of method calls: an
/// idempotent call, a non-idempotent call and its reset, each of which may
/// fail.
pub fn count_round(
    calls: usize,
    failures: usize,
    idempotent_failed: bool,
    non_idempotent_failed: bool,
    reset_failed: bool,
) -> (res: (usize, usize))
    requires
        keep_testing_spec(calls, failures),
    ensures
        res.0 == calls + 3,
        res.1 == failures + failed_count(idempotent_failed, non_idempotent_failed, reset_failed),
{
    let mut failed: usize = 0;
    if idempotent_failed {
        failed = failed + 1;
    }
    if non_idempotent_failed {
        failed = failed + 1;
    }
    if reset_failed {
        failed = failed + 1;
    }
    (calls + 3, failures + failed)
}

/// Within a test iteration, starting from no calls: each round adds three
/// calls, so the count stays a multiple of three; it never passes
/// `MAX_METHOD_CALLS + 2`; and failures never outnumber the calls.
pub proof fn lemma_round_keeps_counts(
    calls: usize,
    failures: usize,
    idempotent_failed: bool,
    non_idempotent_failed: bool,
    reset_failed: bool,
)
    requires
        calls % 3 == 0,
        failures <= calls,
        keep_testing_spec(calls, failures),
    ensures
        ({
            let next_calls = calls + 3;
            let next_failures = failures + failed_count(idempotent_failed, non_idempotent_failed, reset_failed);
            &&& next_calls % 3 == 0
            &&& next_calls <= MAX_METHOD_CALLS + 2
            &&& next_failures <= next_calls
        }),
{
}

/// Results of testing one protocol.
#[derive(Debug, Default)]
pub struct TestResult {
    pub client_protocol: String,
    pub remote_protocol: String,
    /// Failure probability (as one in this many), when failures are simulated
    pub inverse_failure_probability: Option<u32>,
    pub init_count: usize,
    pub init_failures: usize,
    pub method_call_count: usize,
    pub method_call_failures: usize,
    pub non_idempotent_calls: usize,
    pub non_idempotent_mismatches: usize,
}

impl TestResult {
    /// Counts the answer of a non-idempotent call: a first call for an id
    /// must answer `1`.
    pub fn record_non_idempotent(&mut self, answer: usize)
        requires
            old(self).non_idempotent_calls < usize::MAX,
            old(self).non_idempotent_mismatches < usize::MAX,
        ensures
            final(self).non_idempotent_calls == old(self).non_idempotent_calls + 1,
            final(self).non_idempotent_mismatches == old(self).non_idempotent_mismatches + if answer
                != 1 {
                1int
            } else {
                0int
            },
            final(self).method_call_count == old(self).method_call_count,
            final(self).method_call_failures == old(self).method_call_failures,
            final(self).init_count == old(self).init_count,
            final(self).init_failures == old(self).init_failures,
    {
        self.non_idempotent_calls = self.non_idempotent_calls + 1;
        if answer != 1 {
            self.non_idempotent_mismatches = self.non_idempotent_mismatches + 1;
        }
    }

    /// Adds the calls and failures of one iteration.
    pub fn add_iteration(&mut self, calls: usize, failures: usize)
        requires
            old(self).method_call_count + calls <= usize::MAX,
            old(self).method_call_failures + failures <= usize::MAX,
        ensures
            final(self).method_call_count == old(self).method_call_count + calls,
            final(self).method_call_failures == old(self).method_call_failures + failures,
            final(self).non_idempotent_calls == old(self).non_idempotent_calls,
            final(self).non_idempotent_mismatches == old(self).non_idempotent_mismatches,
            final(self).init_count == old(self).init_count,
            final(self).init_failures == old(self).init_failures,
    {
        self.method_call_count = self.method_call_count + calls;
        self.method_call_failures = self.method_call_failures + failures;
    }
}

/// The first failure probability given among the results, if any.
pub fn first_failure_probability(results: &[TestResult]) -> (res: Option<u32>)
    ensures
        res is None <==> forall|i: int| 0 <= i < results@.len() ==> results@[i].inverse_failure_probability is None,
        res matches Some(p) ==> exists|i: int|
            0 <= i < results@.len() && results@[i].inverse_failure_probability == Some(p) && forall|j: int|
                0 <= j < i ==> results@[j].inverse_failure_probability is None,
{
    let mut i: usize = 0;
    while i < results.len()
        invariant
            i <= results@.len(),
            forall|j: int| 0 <= j < i ==> results@[j].inverse_failure_probability is None,
        decreases results@.len() - i,
    {
        match results[i].inverse_failure_probability {
            Some(p) => {
                return Some(p);
            },
            None => {},
        }
        i = i + 1;
    }
    None
}

} // verus!
