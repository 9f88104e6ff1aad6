//! Two-phase build policy.
//!
//! Every build (frontend bundle, backend binary) is first attempted quietly:
//! in the iterative serve mode its output goes to log files so the console
//! stays clean, in release mode it is inherited by the console. A quiet
//! failure in serve mode escalates to exactly one verbose retry on the
//! console; a quiet failure in release mode is final. The driver spawns the
//! external tools and reports their exit status into [`build_step`].

use vstd::prelude::*;

verus! {

/// The two build configurations: the iterative development loop, or a
/// one-shot optimized release build.
#[derive(Clone, Copy, Debug, PartialEq, Eq, Structural)]
pub enum Mode {
    Serve,
    BuildRelease,
}

/// Where an attempt is in the two-phase policy.
#[derive(Clone, Copy, Debug, PartialEq, Eq, Structural)]
pub enum BuildPhase {
    QuietRunning,
    VerboseRunning,
    Succeeded,
    Failed,
}

/// Where the external tool's output goes during an attempt.
#[derive(Clone, Copy, Debug, PartialEq, Eq, Structural)]
pub enum OutputSink {
    CapturedToLogs,
    Console,
}

/// One transition of the build policy, on the exit status of the attempt
/// that just finished. Terminal phases never move.
pub open spec fn build_step_spec(mode: Mode, phase: BuildPhase, exit_ok: bool) -> BuildPhase {
    match phase {
        BuildPhase::QuietRunning => if exit_ok {
            BuildPhase::Succeeded
        } else if mode is BuildRelease {
            BuildPhase::Failed
        } else {
            BuildPhase::VerboseRunning
        },
        BuildPhase::VerboseRunning => if exit_ok {
            BuildPhase::Succeeded
        } else {
            BuildPhase::Failed
        },
        BuildPhase::Succeeded => BuildPhase::Succeeded,
        BuildPhase::Failed => BuildPhase::Failed,
    }
}

/// Advance the build policy on the exit status of the finished attempt.
pub fn build_step(mode: Mode, phase: BuildPhase, exit_ok: bool) -> (r: BuildPhase)
    ensures
        r == build_step_spec(mode, phase, exit_ok),
{
    match phase {
        BuildPhase::QuietRunning => if exit_ok {
            BuildPhase::Succeeded
        } else {
            match mode {
                Mode::BuildRelease => BuildPhase::Failed,
                Mode::Serve => BuildPhase::VerboseRunning,
            }
        },
        BuildPhase::VerboseRunning => if exit_ok {
            BuildPhase::Succeeded
        } else {
            BuildPhase::Failed
        },
        BuildPhase::Succeeded => BuildPhase::Succeeded,
        BuildPhase::Failed => BuildPhase::Failed,
    }
}

/// Where the output of an attempt in the given phase belongs: only the quiet
/// attempt of the serve mode is captured to log files, everything else goes
/// straight to the console.
pub fn attempt_output(mode: Mode, phase: BuildPhase) -> (r: OutputSink)
    ensures
        (r is CapturedToLogs) <==> (mode is Serve && phase is QuietRunning),
{
    match (mode, phase) {
        (Mode::Serve, BuildPhase::QuietRunning) => OutputSink::CapturedToLogs,
        _ => OutputSink::Console,
    }
}

/// A failed release build is final: the policy never escalates to a verbose
/// retry, it reports failure at once.
pub proof fn lemma_release_failure_is_final()
    ensures
        forall|ok: bool| build_step_spec(Mode::BuildRelease, BuildPhase::QuietRunning, ok)
            != BuildPhase::VerboseRunning,
        build_step_spec(Mode::BuildRelease, BuildPhase::QuietRunning, false) == BuildPhase::Failed,
{
}

/// A failed quiet attempt in serve mode escalates to exactly one verbose
/// retry: the retry is entered, and whatever it reports is terminal — in
/// particular a successful retry is overall success.
pub proof fn lemma_serve_retries_exactly_once()
    ensures
        build_step_spec(Mode::Serve, BuildPhase::QuietRunning, false)
            == BuildPhase::VerboseRunning,
        build_step_spec(Mode::Serve, BuildPhase::VerboseRunning, true) == BuildPhase::Succeeded,
        forall|m: Mode, ok: bool|
            {
                let next = #[trigger] build_step_spec(m, BuildPhase::VerboseRunning, ok);
                next is Succeeded || next is Failed
            },
{
}

/// A successful attempt means overall success, in either mode and in either
/// phase.
pub proof fn lemma_success_either_attempt()
    ensures
        forall|m: Mode|
            #[trigger] build_step_spec(m, BuildPhase::QuietRunning, true) == BuildPhase::Succeeded,
        forall|m: Mode|
            #[trigger] build_step_spec(m, BuildPhase::VerboseRunning, true)
                == BuildPhase::Succeeded,
{
}

/// The one-shot `build` command supports only release builds; anything else
/// is rejected before any build step runs.
#[derive(Clone, Copy, Debug, PartialEq, Eq, Structural)]
pub struct BuildRejected {}

impl BuildRejected {
    /// The rejection, in words, for the console.
    pub fn message(&self) -> (m: &'static str)
        ensures
            m@ == "building distributable in debug mode is not yet supported!"@,
    {
        "building distributable in debug mode is not yet supported!"
    }
}

/// Decide the one-shot `build` command: only a release build is accepted;
/// a non-release request is always rejected, so no build step is ever
/// planned for it.
pub fn plan_one_shot(release: bool) -> (r: Result<Mode, BuildRejected>)
    ensures
        release <==> r is Ok,
        release ==> r == Ok::<Mode, BuildRejected>(Mode::BuildRelease),
        !release ==> r == Err::<Mode, BuildRejected>(BuildRejected {}),
{
    if release {
        Ok(Mode::BuildRelease)
    } else {
        Err(BuildRejected {})
    }
}

} // verus!
