//! Download completion monitor.
//!
//! The browser marks a download that is still being written by a reserved
//! file-name extension and renames the file when it is complete. The monitor
//! is fed one observation of the download directory after another, each with
//! the time at which it was made, and declares the downloads complete once no
//! marker has been seen for a whole stability window. It gives up when its
//! timeout has elapsed first.

use vstd::prelude::*;
use crate::text::{ends_with, spec_ends_with, to_chars};

verus! {

/// Time without any in-flight marker, in milliseconds, that has to pass
/// before downloads count as complete.
pub const STABILITY_WINDOW_MS: u64 = 2000;

/// Pause between two observations of the directory, in milliseconds.
pub const POLL_INTERVAL_MS: u64 = 500;

/// The extension, with its dot, that marks a download in flight.
pub open spec fn marker_suffix() -> Seq<char> {
    seq!['.', 'c', 'r', 'd', 'o', 'w', 'n', 'l', 'o', 'a', 'd']
}

/// A file name denotes a download in flight when it ends with the marker
/// extension and something stands before the extension's dot.
pub open spec fn spec_is_in_flight(name: Seq<char>) -> bool {
    spec_ends_with(name, marker_suffix()) && name.len() > marker_suffix().len()
}

/// Whether any of the names denotes a download in flight.
pub open spec fn spec_any_in_flight(names: Seq<String>) -> bool {
    exists|i: int| 0 <= i < names.len() && spec_is_in_flight(#[trigger] names[i]@)
}

/// Tests whether a directory entry's file name carries the in-flight marker.
pub fn is_in_flight(name: &str) -> (pending: bool)
    ensures
        pending == spec_is_in_flight(name@),
{
    let chars = to_chars(name);
    let marker = vec!['.', 'c', 'r', 'd', 'o', 'w', 'n', 'l', 'o', 'a', 'd'];
    assert(marker@ =~= marker_suffix());
    ends_with(&chars, &marker) && chars.len() > marker.len()
}

/// Tests whether a directory listing holds at least one download in flight.
pub fn any_in_flight(names: &Vec<String>) -> (pending: bool)
    ensures
        pending == spec_any_in_flight(names@),
{
    let mut i: usize = 0;
    while i < names.len()
        invariant
            i <= names.len(),
            forall|j: int| 0 <= j < i ==> !spec_is_in_flight(#[trigger] names@[j]@),
        decreases names.len() - i,
    {
        if is_in_flight(names[i].as_str()) {
            return true;
        }
        i += 1;
    }
    false
}

/// Time from `earlier` to `later`; zero when the clock did not advance.
pub open spec fn spec_elapsed(earlier: u64, later: u64) -> u64 {
    if later >= earlier {
        (later - earlier) as u64
    } else {
        0
    }
}

/// What the monitor concludes from an observation.
#[derive(Clone, Copy, Debug, PartialEq, Eq, Structural)]
pub enum Verdict {
    /// No marker was seen for a whole stability window: downloads are done.
    Stable,
    /// The timeout elapsed before the directory became stable.
    TimedOut,
    /// Nothing is decided yet; observe again after the given pause.
    PollAgain { wait_ms: u64 },
}

/// The two timers of one wait: when the wait began, and since when the
/// directory has been free of markers, if it is.
#[derive(Clone, Copy, Debug, PartialEq, Eq, Structural)]
pub struct Monitor {
    pub started_ms: u64,
    pub timeout_ms: u64,
    pub quiet_since_ms: Option<u64>,
}

/// The timers after an observation made at `now_ms`.
pub open spec fn spec_observe_state(m: Monitor, now_ms: u64, pending: bool) -> Monitor {
    Monitor {
        started_ms: m.started_ms,
        timeout_ms: m.timeout_ms,
        quiet_since_ms: if pending {
            None
        } else {
            match m.quiet_since_ms {
                None => Some(now_ms),
                Some(since) => Some(since),
            }
        },
    }
}

/// The conclusion drawn from an observation made at `now_ms`.
pub open spec fn spec_observe_verdict(m: Monitor, now_ms: u64, pending: bool) -> Verdict {
    if !pending && m.quiet_since_ms is Some && spec_elapsed(m.quiet_since_ms->0, now_ms)
        >= STABILITY_WINDOW_MS {
        Verdict::Stable
    } else if spec_elapsed(m.started_ms, now_ms) >= m.timeout_ms {
        Verdict::TimedOut
    } else {
        Verdict::PollAgain { wait_ms: POLL_INTERVAL_MS }
    }
}

fn elapsed(earlier: u64, later: u64) -> (span: u64)
    ensures
        span == spec_elapsed(earlier, later),
{
    if later >= earlier {
        later - earlier
    } else {
        0
    }
}

impl Monitor {
    /// Starts a wait at time `now_ms` that gives up after `timeout_ms`.
    pub fn new(now_ms: u64, timeout_ms: u64) -> (m: Monitor)
        ensures
            m == (Monitor { started_ms: now_ms, timeout_ms, quiet_since_ms: None }),
    {
        Monitor { started_ms: now_ms, timeout_ms, quiet_since_ms: None }
    }

    /// Takes in one observation of the directory, made at time `now_ms`:
    /// `pending` tells whether a marker was present. A marker restarts the
    /// stability window; the window is tested before the timeout.
    pub fn observe(&mut self, now_ms: u64, pending: bool) -> (verdict: Verdict)
        ensures
            *final(self) == spec_observe_state(*old(self), now_ms, pending),
            verdict == spec_observe_verdict(*old(self), now_ms, pending),
    {
        if pending {
            self.quiet_since_ms = None;
        } else {
            match self.quiet_since_ms {
                None => {
                    self.quiet_since_ms = Some(now_ms);
                },
                Some(since) => {
                    if elapsed(since, now_ms) >= STABILITY_WINDOW_MS {
                        return Verdict::Stable;
                    }
                },
            }
        }
        if elapsed(self.started_ms, now_ms) >= self.timeout_ms {
            return Verdict::TimedOut;
        }
        Verdict::PollAgain { wait_ms: POLL_INTERVAL_MS }
    }
}

/// One look at the download directory: when it was made, and whether a
/// marker was there.
pub struct Observation {
    pub at_ms: u64,
    pub pending: bool,
}

/// The timers after a series of observations, taken in one after the other.
pub open spec fn spec_after_all(m: Monitor, seen: Seq<Observation>) -> Monitor
    decreases seen.len(),
{
    if seen.len() == 0 {
        m
    } else {
        spec_observe_state(
            spec_after_all(m, seen.drop_last()),
            seen.last().at_ms,
            seen.last().pending,
        )
    }
}

/// Whether the observations from `k` on saw no marker, the one at `k` being
/// made at time `since_ms`.
pub open spec fn spec_quiet_from(seen: Seq<Observation>, k: int, since_ms: u64) -> bool {
    &&& 0 <= k < seen.len()
    &&& seen[k].at_ms == since_ms
    &&& forall|j: int| k <= j < seen.len() ==> !(#[trigger] seen[j]).pending
}

/// Downloads are declared complete only on an observation without marker
/// that comes a whole stability window after the directory fell quiet.
pub proof fn lemma_stable_needs_window(m: Monitor, now_ms: u64, pending: bool)
    requires
        spec_observe_verdict(m, now_ms, pending) == Verdict::Stable,
    ensures
        !pending,
        m.quiet_since_ms is Some,
        now_ms - m.quiet_since_ms->0 >= STABILITY_WINDOW_MS,
{
}

/// A marker restarts the stability window: after an observation with a
/// marker the directory does not count as quiet, and that observation
/// never declares the downloads complete.
pub proof fn lemma_marker_restarts_window(m: Monitor, now_ms: u64)
    ensures
        spec_observe_state(m, now_ms, true).quiet_since_ms is None,
        spec_observe_verdict(m, now_ms, true) != Verdict::Stable,
{
}

/// The time since which a monitor holds the directory to be quiet is the
/// time of one of its observations, and no observation from that one on saw
/// a marker. The observation's place is handed back.
pub proof fn lemma_quiet_since_is_witnessed(
    start_ms: u64,
    timeout_ms: u64,
    seen: Seq<Observation>,
) -> (k: int)
    ensures
        ({
            let m = spec_after_all(
                Monitor { started_ms: start_ms, timeout_ms, quiet_since_ms: None },
                seen,
            );
            m.quiet_since_ms is Some ==> spec_quiet_from(seen, k, m.quiet_since_ms->0)
        }),
    decreases seen.len(),
{
    if seen.len() == 0 {
        0
    } else {
        let before = seen.drop_last();
        let earlier_k = lemma_quiet_since_is_witnessed(start_ms, timeout_ms, before);
        let earlier = spec_after_all(
            Monitor { started_ms: start_ms, timeout_ms, quiet_since_ms: None },
            before,
        );
        if seen.last().pending {
            0
        } else if earlier.quiet_since_ms is Some {
            assert forall|j: int| earlier_k <= j < seen.len() implies !(
            #[trigger] seen[j]).pending by {
                if j < before.len() {
                    assert(seen[j] == before[j]);
                }
            }
            assert(seen[earlier_k] == before[earlier_k]);
            earlier_k
        } else {
            seen.len() - 1
        }
    }
}

/// Downloads are declared complete only after a run of observations
/// without marker that spans a whole stability window: whatever the
/// observations before, if the next one declares the downloads complete,
/// then some earlier observation lies at least a window back, and neither
/// it nor any observation after it saw a marker. The place and the time of
/// that observation are handed back.
pub proof fn lemma_stable_after_quiet_run(
    start_ms: u64,
    timeout_ms: u64,
    seen: Seq<Observation>,
    now_ms: u64,
    pending: bool,
) -> (found: (int, u64))
    requires
        spec_observe_verdict(
            spec_after_all(
                Monitor { started_ms: start_ms, timeout_ms, quiet_since_ms: None },
                seen,
            ),
            now_ms,
            pending,
        ) == Verdict::Stable,
    ensures
        !pending,
        spec_quiet_from(seen, found.0, found.1),
        now_ms - found.1 >= STABILITY_WINDOW_MS,
{
    let k = lemma_quiet_since_is_witnessed(start_ms, timeout_ms, seen);
    let m = spec_after_all(
        Monitor { started_ms: start_ms, timeout_ms, quiet_since_ms: None },
        seen,
    );
    (k, m.quiet_since_ms->0)
}

/// A wait never outlasts its timeout by more than the observation that
/// finds it elapsed: an observation made once the timeout has passed ends
/// the wait, one way or the other.
pub proof fn lemma_timeout_ends_wait(m: Monitor, now_ms: u64, pending: bool)
    requires
        now_ms >= m.started_ms,
        now_ms - m.started_ms >= m.timeout_ms,
    ensures
        !(spec_observe_verdict(m, now_ms, pending) is PollAgain),
{
}

} // verus!
