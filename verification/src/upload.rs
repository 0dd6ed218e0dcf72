//! The upload pipeline: stage, then submit, then observe, each step once and
//! in that order. The pipeline decides; whoever drives it does the work that
//! a command names and hands back what came of it.

use vstd::prelude::*;
use crate::auth::User;
use crate::observer::{judge, judge_tick, Outcome, Policy, Tick};
use crate::staging::{final_component, StageName, STAGE_BUFFER};

verus! {

/// Why an upload is reported as failed.
#[derive(Debug, Clone, Copy, PartialEq, Eq, Structural)]
pub enum UploadFailure {
    /// The staged file could not be created, resized, positioned or written.
    LocalIo,
    /// The archive refused the file, or could not be reached.
    Submit,
    /// The archive gave the task up, or its status could not be fetched.
    Observation,
    /// The wait ran out; what became of the task is unknown.
    Timeout,
}

/// The operations of a storage back end.
#[derive(Debug, Clone, Copy, PartialEq, Eq, Structural)]
pub enum Operation {
    Metadata,
    List,
    Get,
    Put,
    Delete,
    MakeDirectory,
    Rename,
    RemoveDirectory,
    ChangeDirectory,
}

/// Where an upload stands.
#[derive(Debug, Clone, Copy, PartialEq, Eq)]
pub enum Phase {
    /// The payload is being staged.
    Staging,
    /// `bytes` bytes are staged; the file is being handed to the archive.
    Submitting { bytes: u64 },
    /// The archive has taken the file; its task is being polled.
    Observing { bytes: u64 },
    /// The upload is over, with the number of bytes staged or the failure.
    Finished(Result<u64, UploadFailure>),
}

/// What came of the work that a command named.
pub enum Event {
    /// Staging ended: the number of bytes copied, or `None` on an I/O error.
    Staged(Option<u64>),
    /// Submission ended: whether the archive handed out a task.
    Submitted(bool),
    /// One poll of the task came back.
    Polled(Tick),
}

/// The work to do next.
#[derive(Debug, PartialEq, Eq)]
pub enum Command {
    /// Create the staged file under `name`, set its length to
    /// `resume_offset`, position the cursor there, and copy the stream in
    /// through a buffer of `buffer` bytes.
    Stage { name: StageName, resume_offset: u64, buffer: usize },
    /// Hand the staged file to the archive.
    Submit,
    /// Sleep for `wait_ms` milliseconds, then fetch the task's status.
    WaitThenPoll { wait_ms: u64 },
    /// Answer the client.
    Reply(Result<u64, UploadFailure>),
}

/// One upload on its way through the pipeline.
#[derive(Debug)]
pub struct Upload {
    policy: Policy,
    name: StageName,
    resume_offset: u64,
    phase: Phase,
}

/// What the client is told once the observation has ended: the number of
/// bytes staged on success, a failure otherwise.
pub open spec fn verdict(bytes: u64, outcome: Outcome) -> Result<u64, UploadFailure> {
    match outcome {
        Outcome::Success => Ok(bytes),
        Outcome::Failure => Err(UploadFailure::Observation),
        Outcome::Timeout => Err(UploadFailure::Timeout),
    }
}

/// The phase that follows `phase` on `event`. An event that does not answer
/// the work of the phase changes nothing, so no step is skipped, repeated or
/// taken out of turn.
pub open spec fn next_phase(policy: Policy, phase: Phase, event: Event) -> Phase {
    match (phase, event) {
        (Phase::Staging, Event::Staged(Some(bytes))) => Phase::Submitting { bytes },
        (Phase::Staging, Event::Staged(None)) => Phase::Finished(Err(UploadFailure::LocalIo)),
        (Phase::Submitting { bytes }, Event::Submitted(true)) => Phase::Observing { bytes },
        (Phase::Submitting { bytes }, Event::Submitted(false)) => Phase::Finished(
            Err(UploadFailure::Submit),
        ),
        (Phase::Observing { bytes }, Event::Polled(tick)) => match judge(
            policy,
            tick.status_view(),
            tick.elapsed_ms,
        ) {
            Some(outcome) => Phase::Finished(verdict(bytes, outcome)),
            None => phase,
        },
        _ => phase,
    }
}

/// How far along a phase is.
pub open spec fn rank(phase: Phase) -> nat {
    match phase {
        Phase::Staging => 0,
        Phase::Submitting { .. } => 1,
        Phase::Observing { .. } => 2,
        Phase::Finished(_) => 3,
    }
}

/// The phase reached from `phase` after the three events of an upload that
/// meets no local error: staging, submission, one poll.
pub open spec fn after_three(
    policy: Policy,
    phase: Phase,
    staged: Event,
    submitted: Event,
    polled: Event,
) -> Phase {
    next_phase(policy, next_phase(policy, next_phase(policy, phase, staged), submitted), polled)
}

/// Whether the back end carries out `op`. Uploading is all it does.
pub fn is_supported(op: Operation) -> (supported: bool)
    ensures
        supported == (op == Operation::Put),
{
    match op {
        Operation::Put => true,
        _ => false,
    }
}

/// Turns the end of an observation into the answer for the client.
pub fn conclude(bytes: u64, outcome: Outcome) -> (answer: Result<u64, UploadFailure>)
    ensures
        answer == verdict(bytes, outcome),
{
    match outcome {
        Outcome::Success => Ok(bytes),
        Outcome::Failure => Err(UploadFailure::Observation),
        Outcome::Timeout => Err(UploadFailure::Timeout),
    }
}

impl Upload {
    /// The observation policy.
    pub closed spec fn policy(&self) -> Policy {
        self.policy
    }

    /// How the staged file is to be named.
    pub closed spec fn name(&self) -> Option<Seq<char>> {
        self.name@
    }

    /// The offset at which the client resumes.
    pub closed spec fn resume_offset(&self) -> u64 {
        self.resume_offset
    }

    /// Where the upload stands.
    pub closed spec fn phase(&self) -> Phase {
        self.phase
    }

    /// Starts an upload for an authenticated client. The staged file is
    /// named after the final component of `path_hint`.
    pub fn begin(_session: &User, policy: Policy, path_hint: &str, resume_offset: u64) -> (upload:
        Upload)
        ensures
            upload.policy() == policy,
            upload.name() == final_component(path_hint@),
            upload.resume_offset() == resume_offset,
            upload.phase() == Phase::Staging,
    {
        Upload {
            policy,
            name: StageName::for_path(path_hint),
            resume_offset,
            phase: Phase::Staging,
        }
    }

    /// The work that the current phase calls for.
    pub fn command(&self) -> (command: Command)
        ensures
            match self.phase() {
                Phase::Staging => command matches Command::Stage { name, resume_offset, buffer }
                    && name@ == self.name() && resume_offset == self.resume_offset() && buffer
                    == STAGE_BUFFER,
                Phase::Submitting { .. } => command == Command::Submit,
                Phase::Observing { .. } => command == (Command::WaitThenPoll {
                    wait_ms: self.policy().poll_interval_ms,
                }),
                Phase::Finished(answer) => command == Command::Reply(answer),
            },
    {
        match self.phase {
            Phase::Staging => Command::Stage {
                name: self.name.duplicate(),
                resume_offset: self.resume_offset,
                buffer: STAGE_BUFFER,
            },
            Phase::Submitting { .. } => Command::Submit,
            Phase::Observing { .. } => Command::WaitThenPoll {
                wait_ms: self.policy.poll_interval_ms,
            },
            Phase::Finished(answer) => Command::Reply(answer),
        }
    }

    /// Takes in what came of the last command.
    pub fn advance(&mut self, event: &Event)
        ensures
            final(self).policy() == old(self).policy(),
            final(self).name() == old(self).name(),
            final(self).resume_offset() == old(self).resume_offset(),
            final(self).phase() == next_phase(old(self).policy(), old(self).phase(), *event),
    {
        match self.phase {
            Phase::Staging => {
                if let Event::Staged(copied) = event {
                    match copied {
                        Some(bytes) => {
                            self.phase = Phase::Submitting { bytes: *bytes };
                        },
                        None => {
                            self.phase = Phase::Finished(Err(UploadFailure::LocalIo));
                        },
                    }
                }
            },
            Phase::Submitting { bytes } => {
                if let Event::Submitted(accepted) = event {
                    if *accepted {
                        self.phase = Phase::Observing { bytes };
                    } else {
                        self.phase = Phase::Finished(Err(UploadFailure::Submit));
                    }
                }
            },
            Phase::Observing { bytes } => {
                if let Event::Polled(tick) = event {
                    if let Some(outcome) = judge_tick(&self.policy, tick) {
                        self.phase = Phase::Finished(conclude(bytes, outcome));
                    }
                }
            },
            Phase::Finished(_) => {},
        }
    }

    /// The answer for the client, once the upload is over.
    pub fn answer(&self) -> (answer: Option<Result<u64, UploadFailure>>)
        ensures
            answer == match self.phase() {
                Phase::Finished(a) => Some(a),
                _ => None,
            },
    {
        match self.phase {
            Phase::Finished(a) => Some(a),
            _ => None,
        }
    }

    /// Where the upload stands.
    pub fn current_phase(&self) -> (phase: Phase)
        ensures
            phase == self.phase(),
    {
        self.phase
    }
}

/// The steps come in order: an event never moves an upload back, submission
/// is entered only from staging and observation only from submission, and
/// the number of bytes that staging reported is carried along unchanged.
pub proof fn lemma_steps_in_order(policy: Policy, phase: Phase, event: Event)
    ensures
        rank(next_phase(policy, phase, event)) >= rank(phase),
        next_phase(policy, phase, event) is Staging ==> phase is Staging,
        next_phase(policy, phase, event) is Submitting ==> phase is Staging || next_phase(
            policy,
            phase,
            event,
        ) == phase,
        next_phase(policy, phase, event) is Observing ==> next_phase(policy, phase, event) == phase
            || (phase matches Phase::Submitting { bytes } && next_phase(policy, phase, event) == (
            Phase::Observing { bytes })),
        next_phase(policy, phase, event) matches Phase::Finished(Ok(n)) ==> phase == Phase::Finished(
            Ok::<u64, UploadFailure>(n),
        ) || phase == (Phase::Observing { bytes: n }),
{
}

/// An upload that is over stays over: no event reopens it, so nothing is
/// staged or submitted a second time.
pub proof fn lemma_finished_is_final(policy: Policy, answer: Result<u64, UploadFailure>, event: Event)
    ensures
        next_phase(policy, Phase::Finished(answer), event) == Phase::Finished(answer),
{
}

/// An upload succeeds only by way of all three steps: whatever events come
/// in, one step moves the pipeline at most one phase on, and success is
/// reached only from the observing phase, on a poll that finds the task
/// started, with the number of bytes that staging reported.
pub proof fn lemma_success_needs_started(policy: Policy, phase: Phase, event: Event, n: u64)
    requires
        phase != Phase::Finished(Ok::<u64, UploadFailure>(n)),
        next_phase(policy, phase, event) == Phase::Finished(Ok::<u64, UploadFailure>(n)),
    ensures
        phase == (Phase::Observing { bytes: n }),
        event matches Event::Polled(tick) && judge(policy, tick.status_view(), tick.elapsed_ms)
            == Some(Outcome::Success),
{
}

/// From the start, staging `n` bytes, a submission that the archive takes
/// and a poll that decides `outcome` end the upload with the answer for that
/// outcome: `n` on success, a failure otherwise.
pub proof fn lemma_three_steps(policy: Policy, n: u64, tick: Tick, outcome: Outcome)
    requires
        judge(policy, tick.status_view(), tick.elapsed_ms) == Some(outcome),
    ensures
        after_three(
            policy,
            Phase::Staging,
            Event::Staged(Some(n)),
            Event::Submitted(true),
            Event::Polled(tick),
        ) == Phase::Finished(verdict(n, outcome)),
{
}

} // verus!
