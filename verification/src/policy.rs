//! How long to wait for downloads.
//!
//! The wait for a batch of downloads grows with the number of files, between
//! a floor and a ceiling. The figures are a policy of the caller's choosing.

use vstd::prelude::*;

verus! {

/// The parameters of the waits, in seconds.
#[derive(Clone, Copy, Debug, PartialEq, Eq, Structural)]
pub struct TimeoutPolicy {
    /// Time allowed for each file of a batch.
    pub per_file_secs: u64,
    /// Shortest wait, also for a batch without files.
    pub floor_secs: u64,
    /// Longest wait, however many files.
    pub ceiling_secs: u64,
    /// Wait for downloads still in flight after the last item, before the
    /// browser is closed.
    pub drain_secs: u64,
}

/// The wait for a batch of `files` downloads: linear in the number of files,
/// cut off at the ceiling, and never under the floor.
pub open spec fn spec_timeout(policy: TimeoutPolicy, files: int) -> int {
    let linear = policy.per_file_secs * files;
    let capped = if linear > policy.ceiling_secs {
        policy.ceiling_secs as int
    } else {
        linear
    };
    if capped < policy.floor_secs {
        policy.floor_secs as int
    } else {
        capped
    }
}

impl TimeoutPolicy {
    /// A policy is coherent when its floor does not exceed its ceiling.
    pub open spec fn wf(self) -> bool {
        self.floor_secs <= self.ceiling_secs
    }

    /// The policy with the given figures, if the floor does not exceed the
    /// ceiling.
    pub fn new(per_file_secs: u64, floor_secs: u64, ceiling_secs: u64, drain_secs: u64) -> (policy:
        Option<TimeoutPolicy>)
        ensures
            policy is Some <==> floor_secs <= ceiling_secs,
            policy is Some ==> policy->0 == (TimeoutPolicy {
                per_file_secs,
                floor_secs,
                ceiling_secs,
                drain_secs,
            }),
    {
        if floor_secs <= ceiling_secs {
            Some(TimeoutPolicy { per_file_secs, floor_secs, ceiling_secs, drain_secs })
        } else {
            None
        }
    }

    /// Five seconds for each file, ten seconds at least and a minute at
    /// most; half a minute to drain.
    pub fn standard() -> (policy: TimeoutPolicy)
        ensures
            policy == (TimeoutPolicy {
                per_file_secs: 5,
                floor_secs: 10,
                ceiling_secs: 60,
                drain_secs: 30,
            }),
            policy.wf(),
    {
        TimeoutPolicy { per_file_secs: 5, floor_secs: 10, ceiling_secs: 60, drain_secs: 30 }
    }

    /// Half a minute whatever the number of files, and half a minute to
    /// drain: the waits of a run that fetches one file per item.
    pub fn single_file() -> (policy: TimeoutPolicy)
        ensures
            policy == (TimeoutPolicy {
                per_file_secs: 30,
                floor_secs: 30,
                ceiling_secs: 30,
                drain_secs: 30,
            }),
            policy.wf(),
    {
        TimeoutPolicy { per_file_secs: 30, floor_secs: 30, ceiling_secs: 30, drain_secs: 30 }
    }

    /// The wait, in seconds, for a batch of `files` downloads.
    pub fn timeout_for(&self, files: usize) -> (secs: u64)
        ensures
            secs == spec_timeout(*self, files as int),
    {
        assert(self.per_file_secs * files <= u64::MAX * u64::MAX) by (nonlinear_arith)
            requires
                0 <= self.per_file_secs <= u64::MAX,
                0 <= files <= u64::MAX,
        ;
        let linear: u128 = (self.per_file_secs as u128) * (files as u128);
        let capped: u64 = if linear > self.ceiling_secs as u128 {
            self.ceiling_secs
        } else {
            linear as u64
        };
        if capped < self.floor_secs {
            self.floor_secs
        } else {
            capped
        }
    }
}

/// A wait is never shorter than the floor; under a coherent policy it is
/// never longer than the ceiling.
pub proof fn lemma_timeout_bounded(policy: TimeoutPolicy, files: int)
    ensures
        spec_timeout(policy, files) >= policy.floor_secs,
        policy.wf() ==> spec_timeout(policy, files) <= policy.ceiling_secs,
{
}

/// More files never shorten the wait.
pub proof fn lemma_timeout_monotonic(policy: TimeoutPolicy, fewer: int, more: int)
    requires
        0 <= fewer <= more,
    ensures
        spec_timeout(policy, fewer) <= spec_timeout(policy, more),
{
    assert(policy.per_file_secs * fewer <= policy.per_file_secs * more) by (nonlinear_arith)
        requires
            0 <= fewer <= more,
            policy.per_file_secs >= 0,
    ;
}

} // verus!
