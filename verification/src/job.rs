use crate::paths::{has_stem, output_path_of};
use crate::preset::CompressionPreset;
use vstd::prelude::*;

verus! {

/// Lowest DPI the slider exposes.
pub const MIN_DPI: u16 = 10;

/// Highest DPI the slider exposes.
pub const MAX_DPI: u16 = 300;

/// Why a job, or the handling of a picked file, failed.  Every failure is
/// reported through this taxonomy rather than aborting the process.
#[derive(Clone, Copy, Debug, PartialEq, Eq, Structural)]
pub enum JobError {
    /// The picked input path has no derivable stem, so no output name can
    /// be formed; the pick is rejected and the prior state kept.
    InvalidInputPath,
    /// The external tool could not be launched at all.
    ExternalToolSpawnFailed,
    /// The external tool ran and exited with this non-zero code.
    ExternalToolNonZeroExit(i32),
    /// The environment offers no usable starting directory for the file
    /// picker; the caller falls back to a default directory.
    EnvironmentUnavailable,
}

/// What the surrounding binary observed of one child-process invocation.
#[derive(Clone, Copy, Debug, PartialEq, Eq, Structural)]
pub enum ToolOutcome {
    /// The tool could not be spawned.
    SpawnFailed,
    /// The tool ran to completion and exited with this code.
    Exited(i32),
}

/// The externally visible lifecycle of the one compression job.
#[derive(Clone, Copy, Debug, PartialEq, Eq, Structural)]
pub enum JobPhase {
    /// No job has run since the last file pick, or none was ever started.
    Idle,
    /// A job is in flight; the compress trigger must stay unavailable.
    Running,
    /// The most recent job finished successfully.
    Done,
    /// The most recent job failed for this reason.
    Failed(JobError),
}

/// Picking a new input file clears any shown result: a running job keeps
/// running, every other phase returns to `Idle`.
pub open spec fn after_pick(s: JobPhase) -> JobPhase {
    if s is Running {
        s
    } else {
        JobPhase::Idle
    }
}

/// The compress trigger is available only while no job is running.
pub open spec fn start_allowed(s: JobPhase) -> bool {
    !(s is Running)
}

/// Triggering compression starts a job when allowed; a disallowed trigger
/// changes nothing.
pub open spec fn after_start(s: JobPhase) -> JobPhase {
    if start_allowed(s) {
        JobPhase::Running
    } else {
        s
    }
}

/// The phase a finished job settles in: `Done` on a clean exit, `Failed`
/// with the precise reason otherwise.
pub open spec fn after_finish(out: ToolOutcome) -> JobPhase {
    match out {
        ToolOutcome::SpawnFailed => JobPhase::Failed(JobError::ExternalToolSpawnFailed),
        ToolOutcome::Exited(code) => if code == 0 {
            JobPhase::Done
        } else {
            JobPhase::Failed(JobError::ExternalToolNonZeroExit(code))
        },
    }
}

/// One tagged job phase, updated in one piece, so that every
/// reader takes a single consistent snapshot instead of piecing the state
/// together from separately guarded flags.
pub struct JobState {
    phase: JobPhase,
}

impl JobState {
    /// The current phase, as an abstract value for contracts.
    pub closed spec fn phase(self) -> JobPhase {
        self.phase
    }

    /// A fresh state, before any file pick or job.
    pub fn new() -> (s: Self)
        ensures
            s.phase() == JobPhase::Idle,
    {
        JobState { phase: JobPhase::Idle }
    }

    /// Reads the phase.
    pub fn current(&self) -> (p: JobPhase)
        ensures
            p == self.phase(),
    {
        self.phase
    }

    /// Whether a job is in flight.
    pub fn is_running(&self) -> (b: bool)
        ensures
            b == (self.phase() is Running),
    {
        matches!(self.phase, JobPhase::Running)
    }

    /// Whether the most recent job finished successfully.
    pub fn is_done(&self) -> (b: bool)
        ensures
            b == (self.phase() is Done),
    {
        matches!(self.phase, JobPhase::Done)
    }

    /// Records that the user picked a new input file.
    pub fn pick_file(&mut self)
        ensures
            final(self).phase() == after_pick(old(self).phase()),
            old(self).phase() is Running ==> *final(self) == *old(self),
    {
        if !matches!(self.phase, JobPhase::Running) {
            self.phase = JobPhase::Idle;
        }
    }

    /// Tries to start a job; reports whether it actually started.  While a
    /// job is running this is a no-op that reports `false`.
    pub fn try_start(&mut self) -> (started: bool)
        ensures
            started == start_allowed(old(self).phase()),
            final(self).phase() == after_start(old(self).phase()),
            !start_allowed(old(self).phase()) ==> *final(self) == *old(self),
    {
        if matches!(self.phase, JobPhase::Running) {
            false
        } else {
            self.phase = JobPhase::Running;
            true
        }
    }

    /// Records the outcome of the running job.
    pub fn finish(&mut self, out: ToolOutcome)
        requires
            old(self).phase() is Running,
        ensures
            final(self).phase() == after_finish(out),
    {
        self.phase = match out {
            ToolOutcome::SpawnFailed => JobPhase::Failed(JobError::ExternalToolSpawnFailed),
            ToolOutcome::Exited(code) => if code == 0 {
                JobPhase::Done
            } else {
                JobPhase::Failed(JobError::ExternalToolNonZeroExit(code))
            },
        };
    }
}

/// Law: at most one job runs at a time.  The trigger is unavailable
/// whenever a job is running, and a disallowed trigger changes nothing, so
/// a second trigger while running can never start a second job.
pub proof fn lemma_single_running_job(s: JobPhase)
    ensures
        s is Running ==> !start_allowed(s),
        !start_allowed(s) ==> after_start(s) == s,
{
}

/// Law: picking a file never leaves the machine reporting `Done`.
pub proof fn lemma_pick_clears_done(s: JobPhase)
    ensures
        !(after_pick(s) is Done),
{
}

/// A step the user interface alone can cause.  Completing a job is not
/// among them: only the job runner reports completion.
#[derive(Clone, Copy, Debug, PartialEq, Eq, Structural)]
pub enum UiStep {
    /// The user picked a new input file.
    Pick,
    /// The user pressed the compress trigger.
    Trigger,
}

/// The phase after one user-interface step.
pub open spec fn after_ui_step(s: JobPhase, e: UiStep) -> JobPhase {
    match e {
        UiStep::Pick => after_pick(s),
        UiStep::Trigger => after_start(s),
    }
}

/// The phase after a whole sequence of user-interface steps.
pub open spec fn after_ui_steps(s: JobPhase, es: Seq<UiStep>) -> JobPhase
    decreases es.len(),
{
    if es.len() == 0 {
        s
    } else {
        after_ui_steps(after_ui_step(s, es[0]), es.drop_first())
    }
}

/// Law: `Done` is reported only after a job actually completes.  From any
/// phase that does not already report `Done` — in particular right after a
/// file pick — no sequence of user-interface steps alone can make the machine
/// report `Done`.
pub proof fn lemma_done_only_by_completion(s: JobPhase, es: Seq<UiStep>)
    requires
        !(s is Done),
    ensures
        !(after_ui_steps(s, es) is Done),
    decreases es.len(),
{
    if es.len() > 0 {
        lemma_done_only_by_completion(after_ui_step(s, es[0]), es.drop_first());
    }
}

/// An immutable snapshot of one job's inputs, taken at trigger time so
/// that later edits to the live settings cannot reach an in-flight job.
#[derive(Clone, Debug)]
pub struct JobRequest {
    /// The picked input file.
    pub input_path: String,
    /// Where the compressed copy is written.
    pub output_path: String,
    /// The compression profile to apply.
    pub preset: CompressionPreset,
    /// The resolution applied to every raster image channel.
    pub dpi: u16,
}

impl JobRequest {
    /// A well-formed request: the output path is the one derived from the
    /// input path, whose stem is non-empty, and the DPI lies within the
    /// bound the slider exposes.
    pub open spec fn valid(self) -> bool {
        &&& has_stem(self.input_path@)
        &&& self.output_path@ == output_path_of(self.input_path@)
        &&& MIN_DPI <= self.dpi <= MAX_DPI
    }
}

} // verus!
