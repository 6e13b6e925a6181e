//! Job coordinator: at most one transcription job runs at a time.
//!
//! The coordinator is a two-state machine, idle or running. A submission is
//! checked and the state advanced in one call on the exclusively borrowed
//! coordinator, so no two submissions can both observe it idle; the
//! surrounding application runs the accepted job elsewhere and feeds the
//! engine's outcome back through `finish_job`, which returns the machine to
//! idle whichever way the job ended and hands back exactly one delivery for
//! the completion channel.

use vstd::prelude::*;

use crate::catalog::model_relative_path;
use crate::error::VtError;
use crate::fsutil::{join_path, spec_join};

verus! {

/// A transcription job: the model to load and the audio to transcribe.
/// Ephemeral; it exists for one submission only.
pub struct TranscriptionJob {
    pub model_path: String,
    pub audio_path: String,
}

/// What the external engine produced, propagated unchanged: the transcript
/// and its time bounds in the audio's own timeline (engine-defined unit).
pub struct TranscriptionResult {
    pub text: String,
    pub start: i64,
    pub end: i64,
}

/// The one delivery handed to the completion channel of an accepted job.
pub enum JobOutcome {
    Completed(TranscriptionResult),
    Failed(VtError),
}

/// A job is submittable only with a model path and an audio path.
pub open spec fn spec_valid_job(job: TranscriptionJob) -> bool {
    job.model_path@.len() > 0 && job.audio_path@.len() > 0
}

/// The submission transition: from `running`, with `has_models` saying
/// whether the catalog offers any model and `valid` whether the job's paths
/// are non-empty, to the state afterwards and the caller's answer. A busy
/// coordinator rejects first; the job is never started on rejection.
pub open spec fn spec_submit(running: bool, has_models: bool, valid: bool) -> (
    bool,
    Result<(), VtError>,
) {
    if running {
        (true, Err(VtError::Busy))
    } else if !has_models {
        (false, Err(VtError::NoModelsAvailable))
    } else if !valid {
        (false, Err(VtError::InvalidInput))
    } else {
        (true, Ok(()))
    }
}

/// Enforces single-flight execution of transcription jobs.
pub struct JobCoordinator {
    running: bool,
}

impl JobCoordinator {
    /// Whether a job is running.
    pub closed spec fn spec_running(&self) -> bool {
        self.running
    }

    /// A coordinator starts idle.
    pub fn new() -> (c: JobCoordinator)
        ensures
            !c.spec_running(),
    {
        JobCoordinator { running: false }
    }

    /// Accepts `job` only when idle, with at least one usable model, and
    /// with non-empty paths. The check and the transition to running are one
    /// indivisible step: the caller holds the coordinator exclusively for
    /// the whole call, so no second submission can observe it idle in
    /// between.
    pub fn submit(&mut self, job: &TranscriptionJob, has_models: bool) -> (r: Result<
        (),
        VtError,
    >)
        ensures
            (final(self).spec_running(), r) == spec_submit(
                old(self).spec_running(),
                has_models,
                spec_valid_job(*job),
            ),
    {
        if self.running {
            Err(VtError::Busy)
        } else if !has_models {
            Err(VtError::NoModelsAvailable)
        } else if job.model_path.as_str().is_empty() || job.audio_path.as_str().is_empty() {
            Err(VtError::InvalidInput)
        } else {
            self.running = true;
            Ok(())
        }
    }

    /// Ends the running job with the engine's outcome. The coordinator
    /// returns to idle whether the job succeeded or failed, and exactly one
    /// delivery is handed back for the completion channel: the result as the
    /// engine gave it, or the engine's failure wrapped verbatim.
    pub fn finish_job(&mut self, outcome: Result<TranscriptionResult, String>) -> (d: JobOutcome)
        requires
            old(self).spec_running(),
        ensures
            !final(self).spec_running(),
            outcome matches Ok(res) ==> d matches JobOutcome::Completed(r) && r == res,
            outcome matches Err(msg) ==> d matches JobOutcome::Failed(e) && e
                matches VtError::TranscribeError(m) && m@ == msg@,
    {
        self.running = false;
        match outcome {
            Ok(res) => JobOutcome::Completed(res),
            Err(msg) => JobOutcome::Failed(VtError::TranscribeError(msg)),
        }
    }
}

/// Single-flight: from an idle coordinator, when two submissions arrive
/// back-to-back — both with usable models and valid jobs — the one that
/// goes first is accepted and the other is rejected with `Busy`, and this
/// holds of either interleaving since both submissions satisfy the same
/// hypotheses.
pub proof fn lemma_single_flight(
    running0: bool,
    has_models1: bool,
    valid1: bool,
    has_models2: bool,
    valid2: bool,
)
    requires
        !running0,
        has_models1,
        valid1,
        has_models2,
        valid2,
    ensures
        ({
            let first = spec_submit(running0, has_models1, valid1);
            let second = spec_submit(first.0, has_models2, valid2);
            &&& first.1 is Ok
            &&& first.0
            &&& second.1 == Err::<(), VtError>(VtError::Busy)
            &&& second.0
        }),
{
}

/// After the running job finishes, the coordinator is idle again, so a
/// later submission with usable models and a valid job is accepted.
pub proof fn lemma_submit_after_finish(has_models: bool, valid: bool)
    requires
        has_models,
        valid,
    ensures
        spec_submit(false, has_models, valid).1 is Ok,
{
}

/// The managed directory of the voice-to-text models below `cache_dir`.
pub fn v2t_models_dir(cache_dir: &str) -> (r: String)
    ensures
        r@ == spec_join(cache_dir@, "v2t/model"@),
{
    let rel = model_relative_path(0);
    join_path(cache_dir, rel.as_str())
}

} // verus!
