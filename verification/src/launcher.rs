//! A launch, step by step.
//!
//! A launch needs the host five times before the spawn: to look for the
//! executable, to create the data root with its log directory, to create the
//! log directory for the launch itself, and to open the two log files. A
//! `LaunchRun` says which request is pending and takes the answer; the host
//! does the work and nothing else. The first failure that matters ends the
//! run, and only a run that got through all five asks for a spawn.

use vstd::prelude::*;
use crate::error::LaunchError;
use crate::error::LogTarget;
use crate::paths::backend_binary_path;
use crate::paths::binary_place;
use crate::paths::data_root_place;
use crate::paths::resolve_data_root;
use crate::paths::HostDirs;
use crate::plan::LaunchSpec;
use crate::plan::LaunchSpecView;
use crate::plan::BACKEND_PORT;
use crate::slot::BackendSlot;

verus! {

/// The steps of a launch, in their order.
#[derive(Clone, Copy, Debug, PartialEq, Eq, Structural)]
pub enum LaunchStep {
    /// See whether the executable is there.
    LocateBinary,
    /// Create the data root and its log directory. A failure here is only
    /// reported: the launch goes on, and the next step brings it to light.
    PrepareDataRoot,
    /// Create the log directory.
    CreateLogDir,
    /// Create or truncate the file for standard output.
    OpenStdoutLog,
    /// Create or truncate the file for standard error.
    OpenStderrLog,
    /// Spawn the backend.
    Spawn,
}

impl LaunchStep {
    /// The step after this one; the spawn is the last.
    pub open spec fn successor(self) -> LaunchStep {
        match self {
            LaunchStep::LocateBinary => LaunchStep::PrepareDataRoot,
            LaunchStep::PrepareDataRoot => LaunchStep::CreateLogDir,
            LaunchStep::CreateLogDir => LaunchStep::OpenStdoutLog,
            LaunchStep::OpenStdoutLog => LaunchStep::OpenStderrLog,
            LaunchStep::OpenStderrLog => LaunchStep::Spawn,
            LaunchStep::Spawn => LaunchStep::Spawn,
        }
    }

    /// Whether the launch goes on when this step fails.
    pub open spec fn tolerant(self) -> bool {
        self == LaunchStep::PrepareDataRoot
    }

    /// The error of a launch that gets no further than this step.
    pub open spec fn blame(self) -> LaunchError {
        match self {
            LaunchStep::LocateBinary => LaunchError::BinaryNotFound,
            LaunchStep::PrepareDataRoot => LaunchError::LogFileError(LogTarget::Directory),
            LaunchStep::CreateLogDir => LaunchError::LogFileError(LogTarget::Directory),
            LaunchStep::OpenStdoutLog => LaunchError::LogFileError(LogTarget::Stdout),
            LaunchStep::OpenStderrLog => LaunchError::LogFileError(LogTarget::Stderr),
            LaunchStep::Spawn => LaunchError::SpawnError,
        }
    }
}

/// What the host is asked to do next.
#[derive(Debug, PartialEq, Eq)]
pub enum HostRequest<'a> {
    /// Say whether anything exists at this path.
    ProbeBinary(&'a str),
    /// Create this directory and those above it; that it exists already is
    /// no failure. Report a failure to the user and to the run.
    PrepareDataRoot(&'a str),
    /// Create this directory and those above it; that it exists already is
    /// no failure.
    CreateLogDir(&'a str),
    /// Create this file, or empty it, and keep it for the child's standard
    /// output.
    CreateStdoutLog(&'a str),
    /// Create this file, or empty it, and keep it for the child's standard
    /// error.
    CreateStderrLog(&'a str),
    /// Spawn this command with its output going to the two files, and hand
    /// the child to `complete`.
    Spawn(&'a LaunchSpec),
    /// Nothing: the launch has failed with this error.
    GiveUp(LaunchError),
}

/// A launch under way.
#[derive(Debug, PartialEq, Eq)]
pub enum LaunchRun {
    /// The request of `step` is pending.
    Active { plan: LaunchSpec, step: LaunchStep },
    /// The launch has failed.
    Failed(LaunchError),
}

/// How a launch ended.
#[derive(Debug)]
pub struct Launched<C> {
    /// Whether the backend runs, or why it does not.
    pub result: Result<(), LaunchError>,
    /// The slot for the shutdown paths: it holds the child of a launch that
    /// succeeded and is vacant otherwise.
    pub slot: BackendSlot<C>,
    /// A child that was handed to a run which had not asked for a spawn. It
    /// is not the backend of this shell, and is the caller's to dispose of.
    pub stray: Option<C>,
}

impl LaunchRun {
    /// Just begun: nothing has been answered yet.
    pub open spec fn is_fresh(self) -> bool {
        match self {
            LaunchRun::Active { step, .. } => step == LaunchStep::LocateBinary,
            LaunchRun::Failed(error) => error == LaunchError::BinaryNotFound,
        }
    }

    /// Whether the pending request is the spawn.
    pub open spec fn awaits_spawn(self) -> bool {
        self matches LaunchRun::Active { step, .. } && step == LaunchStep::Spawn
    }

    /// The run after the host has answered the pending request. A failure
    /// ends the run with the step's error, unless the step tolerates it; a
    /// run that has failed stays as it is. The spawn is not answered here:
    /// `true` leaves the run waiting for the child.
    pub open spec fn after(self, ok: bool) -> LaunchRun {
        match self {
            LaunchRun::Active { plan, step } => if ok || step.tolerant() {
                LaunchRun::Active { plan, step: step.successor() }
            } else {
                LaunchRun::Failed(step.blame())
            },
            LaunchRun::Failed(_) => self,
        }
    }

    /// The run after a row of answers, the first of them first.
    pub open spec fn replay(self, answers: Seq<bool>) -> LaunchRun
        decreases answers.len(),
    {
        if answers.len() == 0 {
            self
        } else {
            self.after(answers[0]).replay(answers.drop_first())
        }
    }

    /// How the launch ends if the run is completed now: with success where
    /// the spawn was pending and gave a child, else with the error of the
    /// step it stopped at.
    pub open spec fn verdict(self, spawned: bool) -> Result<(), LaunchError> {
        match self {
            LaunchRun::Active { step, .. } => if step == LaunchStep::Spawn && spawned {
                Ok(())
            } else {
                Err(step.blame())
            },
            LaunchRun::Failed(error) => Err(error),
        }
    }

    /// What the slot holds once the run is completed with this outcome of the
    /// spawn: the child, if the spawn was pending, and nothing otherwise.
    pub open spec fn kept<C>(self, spawned: Option<C>) -> Option<C> {
        if self.awaits_spawn() {
            spawned
        } else {
            None
        }
    }

    /// The child that is handed back when the run is completed: one that came
    /// while no spawn was pending.
    pub open spec fn turned_away<C>(self, spawned: Option<C>) -> Option<C> {
        if self.awaits_spawn() {
            None
        } else {
            spawned
        }
    }

    /// Begins the launch of a command that is laid out already.
    pub fn begin(plan: LaunchSpec) -> (run: LaunchRun)
        ensures
            run == (LaunchRun::Active { plan, step: LaunchStep::LocateBinary }),
            run.is_fresh(),
    {
        LaunchRun::Active { plan, step: LaunchStep::LocateBinary }
    }

    /// The pending request.
    pub fn request<'a>(&'a self) -> (request: HostRequest<'a>)
        ensures
            match *self {
                LaunchRun::Active { plan, step } => match step {
                    LaunchStep::LocateBinary => request matches HostRequest::ProbeBinary(path)
                        && path@ == plan.executable@,
                    LaunchStep::PrepareDataRoot => request matches HostRequest::PrepareDataRoot(
                        path,
                    ) && path@ == plan.log_dir@,
                    LaunchStep::CreateLogDir => request matches HostRequest::CreateLogDir(path)
                        && path@ == plan.log_dir@,
                    LaunchStep::OpenStdoutLog => request matches HostRequest::CreateStdoutLog(
                        path,
                    ) && path@ == plan.stdout_log@,
                    LaunchStep::OpenStderrLog => request matches HostRequest::CreateStderrLog(
                        path,
                    ) && path@ == plan.stderr_log@,
                    LaunchStep::Spawn => request matches HostRequest::Spawn(command) && *command
                        == plan,
                },
                LaunchRun::Failed(error) => request == HostRequest::GiveUp(error),
            },
    {
        match self {
            LaunchRun::Active { plan, step } => match step {
                LaunchStep::LocateBinary => HostRequest::ProbeBinary(plan.executable.as_str()),
                LaunchStep::PrepareDataRoot => HostRequest::PrepareDataRoot(plan.log_dir.as_str()),
                LaunchStep::CreateLogDir => HostRequest::CreateLogDir(plan.log_dir.as_str()),
                LaunchStep::OpenStdoutLog => HostRequest::CreateStdoutLog(
                    plan.stdout_log.as_str(),
                ),
                LaunchStep::OpenStderrLog => HostRequest::CreateStderrLog(
                    plan.stderr_log.as_str(),
                ),
                LaunchStep::Spawn => HostRequest::Spawn(plan),
            },
            LaunchRun::Failed(error) => HostRequest::GiveUp(*error),
        }
    }

    /// Takes the host's answer to the pending request: whether it succeeded.
    pub fn report(self, ok: bool) -> (next: LaunchRun)
        ensures
            next == self.after(ok),
    {
        match self {
            LaunchRun::Active { plan, step } => {
                let next = match step {
                    LaunchStep::LocateBinary => LaunchStep::PrepareDataRoot,
                    LaunchStep::PrepareDataRoot => LaunchStep::CreateLogDir,
                    LaunchStep::CreateLogDir => LaunchStep::OpenStdoutLog,
                    LaunchStep::OpenStdoutLog => LaunchStep::OpenStderrLog,
                    LaunchStep::OpenStderrLog | LaunchStep::Spawn => LaunchStep::Spawn,
                };
                if ok || step == LaunchStep::PrepareDataRoot {
                    LaunchRun::Active { plan, step: next }
                } else {
                    LaunchRun::Failed(error_at(step))
                }
            },
            LaunchRun::Failed(error) => LaunchRun::Failed(error),
        }
    }

    /// Ends the launch with what the spawn gave: the child, or `None` where
    /// the spawn failed or was never asked for. Only a run whose pending
    /// request was the spawn puts a child into the slot; any other run has
    /// failed, a step that was left unanswered counting as failed, and hands
    /// a child back as a stray.
    pub fn complete<C>(self, spawned: Option<C>) -> (launched: Launched<C>)
        ensures
            launched.result == self.verdict(spawned is Some),
            launched.slot@ == self.kept(spawned),
            launched.stray == self.turned_away(spawned),
    {
        match self {
            LaunchRun::Active { step: LaunchStep::Spawn, .. } => match spawned {
                Some(child) => Launched {
                    result: Ok(()),
                    slot: BackendSlot::holding(child),
                    stray: None,
                },
                None => Launched {
                    result: Err(LaunchError::SpawnError),
                    slot: BackendSlot::vacant(),
                    stray: None,
                },
            },
            LaunchRun::Active { step, .. } => Launched {
                result: Err(error_at(step)),
                slot: BackendSlot::vacant(),
                stray: spawned,
            },
            LaunchRun::Failed(error) => Launched {
                result: Err(error),
                slot: BackendSlot::vacant(),
                stray: spawned,
            },
        }
    }
}

fn error_at(step: LaunchStep) -> (error: LaunchError)
    ensures
        error == step.blame(),
{
    match step {
        LaunchStep::LocateBinary => LaunchError::BinaryNotFound,
        LaunchStep::PrepareDataRoot | LaunchStep::CreateLogDir => LaunchError::LogFileError(
            LogTarget::Directory,
        ),
        LaunchStep::OpenStdoutLog => LaunchError::LogFileError(LogTarget::Stdout),
        LaunchStep::OpenStderrLog => LaunchError::LogFileError(LogTarget::Stderr),
        LaunchStep::Spawn => LaunchError::SpawnError,
    }
}

/// Begins the launch of the backend for this host, on the fixed port: the
/// command is laid out for the executable and the data root that the host's
/// surroundings give. Where they give no place for the executable, the run
/// has failed before its first request.
pub fn launch(host: &HostDirs) -> (run: LaunchRun)
    ensures
        run.is_fresh(),
        match binary_place(host) {
            Some(executable) => run matches LaunchRun::Active { plan, .. } && plan.wf()
                && plan@ == LaunchSpecView::laid_out(
                executable,
                data_root_place(host),
                BACKEND_PORT,
            ),
            None => run == LaunchRun::Failed(LaunchError::BinaryNotFound),
        },
{
    match backend_binary_path(host) {
        Some(executable) => {
            let data_root = resolve_data_root(host);
            LaunchRun::begin(LaunchSpec::new(executable, data_root, BACKEND_PORT))
        },
        None => LaunchRun::Failed(LaunchError::BinaryNotFound),
    }
}

/// A run that has failed stays failed, whatever is answered afterwards.
pub proof fn failure_is_final(error: LaunchError, answers: Seq<bool>)
    ensures
        LaunchRun::Failed(error).replay(answers) == LaunchRun::Failed(error),
    decreases answers.len(),
{
    if answers.len() > 0 {
        failure_is_final(error, answers.drop_first());
    }
}

/// The launch as a whole. Of a launch whose five requests were answered, the
/// first failure that matters decides the end: a missing executable before a
/// log directory that cannot be created, that before the file for standard
/// output, that before the file for standard error, and all of these before
/// the spawn. What became of the data root's preparation decides nothing.
/// The slot holds the child exactly when nothing failed.
pub proof fn first_failure_decides<C>(
    plan: LaunchSpec,
    found: bool,
    prepared: bool,
    log_dir: bool,
    stdout_log: bool,
    stderr_log: bool,
    spawned: Option<C>,
)
    ensures
        ({
            let fresh = LaunchRun::Active { plan, step: LaunchStep::LocateBinary };
            let run = fresh.replay(seq![found, prepared, log_dir, stdout_log, stderr_log]);
            &&& run.verdict(spawned is Some) == if !found {
                Err::<(), LaunchError>(LaunchError::BinaryNotFound)
            } else if !log_dir {
                Err(LaunchError::LogFileError(LogTarget::Directory))
            } else if !stdout_log {
                Err(LaunchError::LogFileError(LogTarget::Stdout))
            } else if !stderr_log {
                Err(LaunchError::LogFileError(LogTarget::Stderr))
            } else if spawned is None {
                Err(LaunchError::SpawnError)
            } else {
                Ok(())
            }
            &&& run.kept(spawned) == if found && log_dir && stdout_log && stderr_log {
                spawned
            } else {
                None
            }
        }),
{
    reveal_with_fuel(LaunchRun::replay, 6);
}

/// A launch whose executable is missing ends with `BinaryNotFound` and an
/// empty slot, whatever the host answers afterwards and whatever it hands in
/// as a child. The executable is missing where the surroundings give no place
/// for it, or where the host has answered that nothing is at that place.
pub proof fn missing_binary_fails_launch<C>(
    run: LaunchRun,
    answers: Seq<bool>,
    spawned: Option<C>,
)
    requires
        run.is_fresh(),
        run is Failed || (answers.len() > 0 && !answers[0]),
    ensures
        run.replay(answers).verdict(spawned is Some) == Err::<(), LaunchError>(
            LaunchError::BinaryNotFound,
        ),
        run.replay(answers).kept(spawned) is None,
        run.replay(answers).turned_away(spawned) == spawned,
{
    if run is Failed {
        failure_is_final(LaunchError::BinaryNotFound, answers);
    } else {
        failure_is_final(LaunchError::BinaryNotFound, answers.drop_first());
    }
}

/// A run asks for the spawn only after the executable was found and the log
/// directory and both log files were created. What became of the data root's
/// preparation, the second answer, does not matter. The command it then asks
/// to spawn is the one the launch was begun with.
pub proof fn spawn_only_after_preparation(run: LaunchRun, answers: Seq<bool>)
    requires
        run.is_fresh(),
        run.replay(answers).awaits_spawn(),
    ensures
        answers.len() >= 5,
        answers[0] && answers[2] && answers[3] && answers[4],
        run matches LaunchRun::Active { plan, .. } && run.replay(answers) == (
        LaunchRun::Active { plan, step: LaunchStep::Spawn }),
{
    if run is Failed {
        failure_is_final(LaunchError::BinaryNotFound, answers);
    } else {
        let rest1 = answers.drop_first();
        let rest2 = rest1.drop_first();
        let rest3 = rest2.drop_first();
        let rest4 = rest3.drop_first();
        let rest5 = rest4.drop_first();
        reveal_with_fuel(LaunchRun::replay, 6);
        failure_is_final(LaunchError::BinaryNotFound, rest1);
        failure_is_final(LaunchError::LogFileError(LogTarget::Directory), rest3);
        failure_is_final(LaunchError::LogFileError(LogTarget::Stdout), rest4);
        failure_is_final(LaunchError::LogFileError(LogTarget::Stderr), rest5);
        let plan = run->plan;
        at_spawn_or_failed(LaunchRun::Active { plan, step: LaunchStep::Spawn }, rest5);
    }
}

/// A launch that succeeds leaves exactly the spawned child in the slot and
/// hands nothing back; and it succeeds only after the executable was found
/// and the log directory and both log files were created.
pub proof fn successful_launch_holds_child<C>(
    run: LaunchRun,
    answers: Seq<bool>,
    spawned: Option<C>,
)
    requires
        run.is_fresh(),
        run.replay(answers).verdict(spawned is Some) is Ok,
    ensures
        spawned is Some,
        run.replay(answers).kept(spawned) == spawned,
        run.replay(answers).turned_away(spawned) is None,
        answers.len() >= 5,
        answers[0] && answers[2] && answers[3] && answers[4],
{
    spawn_only_after_preparation(run, answers);
}

/// Preparing the data root never fails a launch: whether the directories
/// could be created or were there already, or could not be created at all,
/// the run goes on to the same next request with the same command.
pub proof fn preparing_the_data_root_never_fails(plan: LaunchSpec, ok: bool)
    ensures
        (LaunchRun::Active { plan, step: LaunchStep::PrepareDataRoot }).after(ok) == (
        LaunchRun::Active { plan, step: LaunchStep::CreateLogDir }),
{
}

proof fn at_spawn_or_failed(run: LaunchRun, answers: Seq<bool>)
    requires
        run.awaits_spawn(),
    ensures
        run.replay(answers) == run || run.replay(answers) == LaunchRun::Failed(
            LaunchError::SpawnError,
        ),
    decreases answers.len(),
{
    if answers.len() > 0 {
        if answers[0] {
            at_spawn_or_failed(run, answers.drop_first());
        } else {
            failure_is_final(LaunchError::SpawnError, answers.drop_first());
        }
    }
}

} // verus!
