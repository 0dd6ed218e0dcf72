//! Observation of an ingestion task: each poll is judged, and polling stops
//! at the first poll that settles the outcome.

use vstd::prelude::*;

verus! {

/// How the observation of a task ended.
#[derive(Debug, Clone, Copy, PartialEq, Eq, Structural)]
pub enum Outcome {
    /// The archive has begun durable processing.
    Success,
    /// The archive gave the task up, or its status could not be fetched.
    Failure,
    /// The wait ran out before the archive said anything final.
    Timeout,
}

/// What one status string says about a task.
#[derive(Debug, Clone, Copy, PartialEq, Eq, Structural)]
pub enum Progress {
    /// `STARTED`.
    Started,
    /// `FAILURE` or `REVOKED`.
    Failed,
    /// Anything else: not picked up yet, or a status this bridge does not know.
    InProgress,
}

/// How long to sleep before each poll and how long to wait in all, in
/// milliseconds.
#[derive(Debug, Clone, Copy, PartialEq, Eq, Structural)]
pub struct Policy {
    pub poll_interval_ms: u64,
    pub max_wait_ms: u64,
}

/// What one poll brought back.
pub struct Tick {
    /// The status string, or `None` where fetching it failed.
    pub status: Option<String>,
    /// Milliseconds since the task was submitted, read after the poll.
    pub elapsed_ms: u64,
}

impl Tick {
    /// The status as a sequence of characters.
    pub open spec fn status_view(&self) -> Option<Seq<char>> {
        match self.status {
            Some(s) => Some(s@),
            None => None,
        }
    }
}

/// The reading of a status string.
pub open spec fn progress_of(status: Seq<char>) -> Progress {
    if status == "STARTED"@ {
        Progress::Started
    } else if status == "FAILURE"@ || status == "REVOKED"@ {
        Progress::Failed
    } else {
        Progress::InProgress
    }
}

/// What one poll decides: `None` where polling goes on. The status is looked
/// at first, so a poll that finds the task started succeeds however late it
/// is; the clock only ends a poll that found the task still in progress.
pub open spec fn judge(policy: Policy, status: Option<Seq<char>>, elapsed_ms: u64) -> Option<
    Outcome,
> {
    match status {
        None => Some(Outcome::Failure),
        Some(s) => match progress_of(s) {
            Progress::Started => Some(Outcome::Success),
            Progress::Failed => Some(Outcome::Failure),
            Progress::InProgress => if elapsed_ms > policy.max_wait_ms {
                Some(Outcome::Timeout)
            } else {
                None
            },
        },
    }
}

/// What the poll at index `i` of a history decides.
pub open spec fn judge_at(policy: Policy, ticks: Seq<Tick>, i: int) -> Option<Outcome> {
    judge(policy, ticks[i].status_view(), ticks[i].elapsed_ms)
}

/// The poll at index `i` is the first of the history that decides anything.
pub open spec fn settles_at(policy: Policy, ticks: Seq<Tick>, i: int) -> bool {
    &&& 0 <= i < ticks.len()
    &&& judge_at(policy, ticks, i) is Some
    &&& forall|j: int| 0 <= j < i ==> judge_at(policy, ticks, j) is None
}

/// No poll of the history decides anything.
pub open spec fn unsettled(policy: Policy, ticks: Seq<Tick>) -> bool {
    forall|j: int| 0 <= j < ticks.len() ==> judge_at(policy, ticks, j) is None
}

/// The outcome of an observation together with the number of polls made.
pub struct Observation {
    /// `None` where the history ran out before anything was decided.
    pub outcome: Option<Outcome>,
    /// Polls made, the deciding one included.
    pub polls: usize,
}

impl Policy {
    /// One poll a second, for ten seconds.
    pub fn standard() -> (policy: Policy)
        ensures
            policy.poll_interval_ms == 1000,
            policy.max_wait_ms == 10000,
    {
        Policy { poll_interval_ms: 1000, max_wait_ms: 10000 }
    }
}

/// Reads a status string.
pub fn classify(status: &str) -> (progress: Progress)
    ensures
        progress == progress_of(status@),
{
    let status = status.to_owned();
    if status == "STARTED".to_owned() {
        Progress::Started
    } else if status == "FAILURE".to_owned() || status == "REVOKED".to_owned() {
        Progress::Failed
    } else {
        Progress::InProgress
    }
}

/// Judges one poll.
pub fn judge_tick(policy: &Policy, tick: &Tick) -> (decided: Option<Outcome>)
    ensures
        decided == judge(*policy, tick.status_view(), tick.elapsed_ms),
{
    match &tick.status {
        None => Some(Outcome::Failure),
        Some(status) => match classify(status.as_str()) {
            Progress::Started => Some(Outcome::Success),
            Progress::Failed => Some(Outcome::Failure),
            Progress::InProgress => if tick.elapsed_ms > policy.max_wait_ms {
                Some(Outcome::Timeout)
            } else {
                None
            },
        },
    }
}

/// Observes a task over a recorded history of polls: stops at the first poll
/// that decides, and reports what it decided and how many polls it took.
pub fn await_completion(policy: &Policy, ticks: &Vec<Tick>) -> (seen: Observation)
    ensures
        match seen.outcome {
            Some(outcome) => {
                &&& settles_at(*policy, ticks@, seen.polls - 1)
                &&& judge_at(*policy, ticks@, seen.polls - 1) == Some(outcome)
            },
            None => seen.polls == ticks@.len() && unsettled(*policy, ticks@),
        },
{
    let mut i: usize = 0;
    while i < ticks.len()
        invariant
            i <= ticks@.len(),
            forall|j: int| 0 <= j < i ==> judge_at(*policy, ticks@, j) is None,
        decreases ticks@.len() - i,
    {
        let decided = judge_tick(policy, &ticks[i]);
        if let Some(outcome) = decided {
            return Observation { outcome: Some(outcome), polls: i + 1 };
        }
        i = i + 1;
    }
    Observation { outcome: None, polls: i }
}

/// At most one poll of a history is the first to decide.
pub proof fn lemma_settles_once(policy: Policy, ticks: Seq<Tick>, i: int, j: int)
    requires
        settles_at(policy, ticks, i),
        settles_at(policy, ticks, j),
    ensures
        i == j,
{
    if i < j {
        assert(judge_at(policy, ticks, i) is None);
    } else if j < i {
        assert(judge_at(policy, ticks, j) is None);
    }
}

/// A task found started at poll `i`, after polls that all found it in
/// progress within the wait, succeeds at that poll and at no earlier one.
pub proof fn lemma_started_succeeds(policy: Policy, ticks: Seq<Tick>, i: int)
    requires
        0 <= i < ticks.len(),
        ticks[i].status_view() == Some("STARTED"@),
        forall|j: int|
            0 <= j < i ==> {
                &&& (#[trigger] ticks[j]).status_view() is Some
                &&& progress_of(ticks[j].status_view()->Some_0) == Progress::InProgress
                &&& ticks[j].elapsed_ms <= policy.max_wait_ms
            },
    ensures
        settles_at(policy, ticks, i),
        judge_at(policy, ticks, i) == Some(Outcome::Success),
{
}

/// A task that every poll finds in progress times out at the first poll that
/// comes back after the wait has run out; it neither succeeds nor fails.
pub proof fn lemma_in_progress_times_out(policy: Policy, ticks: Seq<Tick>, i: int)
    requires
        0 <= i < ticks.len(),
        forall|j: int|
            0 <= j <= i ==> {
                &&& (#[trigger] ticks[j]).status_view() is Some
                &&& progress_of(ticks[j].status_view()->Some_0) == Progress::InProgress
            },
        forall|j: int| 0 <= j < i ==> (#[trigger] ticks[j]).elapsed_ms <= policy.max_wait_ms,
        ticks[i].elapsed_ms > policy.max_wait_ms,
    ensures
        settles_at(policy, ticks, i),
        judge_at(policy, ticks, i) == Some(Outcome::Timeout),
{
}

/// A task whose first poll finds it failed or revoked, or cannot fetch its
/// status, fails at that poll.
pub proof fn lemma_first_poll_failure(policy: Policy, ticks: Seq<Tick>)
    requires
        ticks.len() > 0,
        ticks[0].status_view() is None || ticks[0].status_view() == Some("FAILURE"@)
            || ticks[0].status_view() == Some("REVOKED"@),
    ensures
        settles_at(policy, ticks, 0),
        judge_at(policy, ticks, 0) == Some(Outcome::Failure),
{
    reveal_strlit("STARTED");
    reveal_strlit("FAILURE");
    reveal_strlit("REVOKED");
    assert("FAILURE"@[0] != "STARTED"@[0]);
    assert("REVOKED"@[0] != "STARTED"@[0]);
}

/// `PENDING` is a status that leaves a task in progress.
pub proof fn lemma_pending_in_progress()
    ensures
        progress_of("PENDING"@) == Progress::InProgress,
{
    reveal_strlit("STARTED");
    reveal_strlit("FAILURE");
    reveal_strlit("REVOKED");
    reveal_strlit("PENDING");
    assert("PENDING"@[0] != "STARTED"@[0]);
    assert("PENDING"@[0] != "FAILURE"@[0]);
    assert("PENDING"@[0] != "REVOKED"@[0]);
}

} // verus!
