//! The relaunch protocol as a state machine.
//!
//! The machine never touches the outside world. Its state names one pending
//! [`Action`]; the caller performs it and reports what happened as an
//! [`Event`], and the machine moves on. The steps run in a fixed order: take
//! the lock, check the origin if asked to, resolve the latest version, ask for
//! confirmation, install, start the new instance. The first failure ends the
//! attempt, and once the lock is held it is released before control goes back
//! to the caller. Only a completed hand-off ends the process instead.

use vstd::prelude::*;
use crate::install::{install_arguments, install_arguments_of, installer_program};
use crate::outcome::{FetchFailure, InstallReport, Outcome, RelaunchError};
use crate::registry::{registry_url, registry_url_of, user_agent, user_agent_of};
use crate::text::texts;

verus! {

/// What one attempt works with. It does not change while the attempt runs.
#[derive(Debug, PartialEq, Eq)]
pub struct RelaunchConfig {
    /// The package to look up and install.
    pub package_id: String,
    /// The version of the running program. The latest version is compared
    /// with it, and the registry is told of it in the user-agent header.
    pub current_version: String,
    /// Build options to hand to the package manager; may be empty.
    pub features: Vec<String>,
    /// Whether the program must have been started through the search path.
    pub origin_check_enabled: bool,
}

/// The mathematical content of a [`RelaunchConfig`].
pub struct ConfigView {
    pub package_id: Seq<char>,
    pub current_version: Seq<char>,
    pub features: Seq<Seq<char>>,
    pub origin_check_enabled: bool,
}

impl View for RelaunchConfig {
    type V = ConfigView;

    open spec fn view(&self) -> ConfigView {
        ConfigView {
            package_id: self.package_id@,
            current_version: self.current_version@,
            features: texts(self.features@),
            origin_check_enabled: self.origin_check_enabled,
        }
    }
}

/// What the caller has to do next.
#[derive(Debug, PartialEq, Eq)]
pub enum Action {
    /// Find out whether a marker exists at `path`.
    ProbeLock { path: String },
    /// Create the marker at `path`.
    CreateLock { path: String },
    /// Find out whether the program was started through the search path.
    CheckOrigin,
    /// Ask the registry at `url` for the latest version, naming the client as
    /// `user_agent`.
    ResolveLatest { url: String, user_agent: String },
    /// Put `version` to the confirmation policy.
    Confirm { version: String },
    /// Run `program` with `arguments` and wait for it to end.
    Install { program: String, arguments: Vec<String> },
    /// Start a new instance of the program with the arguments of this one.
    SpawnReplacement,
    /// Remove the marker at `path`.
    ReleaseLock { path: String },
    /// Hand `result` back to whoever asked for the attempt.
    Return { result: Result<Outcome, RelaunchError> },
    /// End the process with `status`, leaving the marker in place.
    Exit { status: i32 },
}

/// The mathematical content of an [`Action`].
pub enum ActionView {
    ProbeLock { path: Seq<char> },
    CreateLock { path: Seq<char> },
    CheckOrigin,
    ResolveLatest { url: Seq<char>, user_agent: Seq<char> },
    Confirm { version: Seq<char> },
    Install { program: Seq<char>, arguments: Seq<Seq<char>> },
    SpawnReplacement,
    ReleaseLock { path: Seq<char> },
    Return { result: Result<Outcome, RelaunchError> },
    Exit { status: i32 },
}

impl View for Action {
    type V = ActionView;

    open spec fn view(&self) -> ActionView {
        match *self {
            Action::ProbeLock { path } => ActionView::ProbeLock { path: path@ },
            Action::CreateLock { path } => ActionView::CreateLock { path: path@ },
            Action::CheckOrigin => ActionView::CheckOrigin,
            Action::ResolveLatest { url, user_agent } => ActionView::ResolveLatest {
                url: url@,
                user_agent: user_agent@,
            },
            Action::Confirm { version } => ActionView::Confirm { version: version@ },
            Action::Install { program, arguments } => ActionView::Install {
                program: program@,
                arguments: texts(arguments@),
            },
            Action::SpawnReplacement => ActionView::SpawnReplacement,
            Action::ReleaseLock { path } => ActionView::ReleaseLock { path: path@ },
            Action::Return { result } => ActionView::Return { result },
            Action::Exit { status } => ActionView::Exit { status },
        }
    }
}

/// What came of the action that was pending.
#[derive(Debug, PartialEq, Eq)]
pub enum Event {
    /// Answers [`Action::ProbeLock`].
    LockProbed { present: bool },
    /// Answers [`Action::CreateLock`].
    LockCreated { created: bool },
    /// Answers [`Action::CheckOrigin`].
    OriginChecked { from_search_path: bool },
    /// Answers [`Action::ResolveLatest`].
    LatestResolved { latest: Result<String, FetchFailure> },
    /// Answers [`Action::Confirm`].
    Confirmed { accepted: bool },
    /// Answers [`Action::Install`].
    InstallFinished { report: InstallReport },
    /// Answers [`Action::SpawnReplacement`].
    ReplacementSpawned { spawned: bool },
    /// Answers [`Action::ReleaseLock`].
    LockReleased { removed: bool },
}

/// The mathematical content of an [`Event`].
pub enum EventView {
    LockProbed { present: bool },
    LockCreated { created: bool },
    OriginChecked { from_search_path: bool },
    LatestResolved { latest: Result<Seq<char>, FetchFailure> },
    Confirmed { accepted: bool },
    InstallFinished { report: InstallReport },
    ReplacementSpawned { spawned: bool },
    LockReleased { removed: bool },
}

impl View for Event {
    type V = EventView;

    open spec fn view(&self) -> EventView {
        match *self {
            Event::LockProbed { present } => EventView::LockProbed { present },
            Event::LockCreated { created } => EventView::LockCreated { created },
            Event::OriginChecked { from_search_path } => EventView::OriginChecked {
                from_search_path,
            },
            Event::LatestResolved { latest } => EventView::LatestResolved {
                latest: match latest {
                    Ok(version) => Ok(version@),
                    Err(failure) => Err(failure),
                },
            },
            Event::Confirmed { accepted } => EventView::Confirmed { accepted },
            Event::InstallFinished { report } => EventView::InstallFinished { report },
            Event::ReplacementSpawned { spawned } => EventView::ReplacementSpawned { spawned },
            Event::LockReleased { removed } => EventView::LockReleased { removed },
        }
    }
}

/// How far an attempt has come, named by the answer it waits for.
#[derive(Debug, PartialEq, Eq)]
pub enum Stage {
    /// Nothing is known yet; the marker path is being probed.
    AwaitingLockProbe,
    /// No marker was found; this attempt is creating its own.
    AwaitingLockCreation,
    /// The lock is held and the origin is being checked.
    AwaitingOriginCheck,
    /// The lock is held, the origin is accepted or not asked for, and the
    /// registry is being queried.
    AwaitingLatest,
    /// The registry offers `latest`, which is not the running version.
    AwaitingConfirmation { latest: String },
    /// The update was accepted and the package manager is running.
    AwaitingInstall,
    /// The package manager has ended and the new instance is being started.
    AwaitingReplacement,
    /// The attempt is over with `result`; the marker is being removed.
    Releasing { result: Result<Outcome, RelaunchError> },
    /// The attempt is over with `result` and holds no lock.
    Finished { result: Result<Outcome, RelaunchError> },
    /// The new instance runs; this process is to end.
    HandedOff,
}

/// The mathematical content of a [`Stage`].
pub enum StageView {
    AwaitingLockProbe,
    AwaitingLockCreation,
    AwaitingOriginCheck,
    AwaitingLatest,
    AwaitingConfirmation { latest: Seq<char> },
    AwaitingInstall,
    AwaitingReplacement,
    Releasing { result: Result<Outcome, RelaunchError> },
    Finished { result: Result<Outcome, RelaunchError> },
    HandedOff,
}

impl View for Stage {
    type V = StageView;

    open spec fn view(&self) -> StageView {
        match *self {
            Stage::AwaitingLockProbe => StageView::AwaitingLockProbe,
            Stage::AwaitingLockCreation => StageView::AwaitingLockCreation,
            Stage::AwaitingOriginCheck => StageView::AwaitingOriginCheck,
            Stage::AwaitingLatest => StageView::AwaitingLatest,
            Stage::AwaitingConfirmation { latest } => StageView::AwaitingConfirmation {
                latest: latest@,
            },
            Stage::AwaitingInstall => StageView::AwaitingInstall,
            Stage::AwaitingReplacement => StageView::AwaitingReplacement,
            Stage::Releasing { result } => StageView::Releasing { result },
            Stage::Finished { result } => StageView::Finished { result },
            Stage::HandedOff => StageView::HandedOff,
        }
    }
}

/// One attempt to update and relaunch: its configuration, the path of its
/// lock marker and the stage it has reached.
#[derive(Debug, PartialEq, Eq)]
pub struct Orchestrator {
    config: RelaunchConfig,
    lock_path: String,
    stage: Stage,
}

/// The mathematical content of an [`Orchestrator`].
pub struct OrchestratorView {
    pub config: ConfigView,
    pub lock_path: Seq<char>,
    pub stage: StageView,
}

impl View for Orchestrator {
    type V = OrchestratorView;

    closed spec fn view(&self) -> OrchestratorView {
        OrchestratorView { config: self.config@, lock_path: self.lock_path@, stage: self.stage@ }
    }
}

impl OrchestratorView {
    /// The same attempt at another stage.
    pub open spec fn at(self, stage: StageView) -> OrchestratorView {
        OrchestratorView { stage, ..self }
    }
}

/// The attempt before anything has happened.
pub open spec fn initial(config: ConfigView, lock_path: Seq<char>) -> OrchestratorView {
    OrchestratorView { config, lock_path, stage: StageView::AwaitingLockProbe }
}

/// The action that an attempt in state `m` waits for.
pub open spec fn pending(m: OrchestratorView) -> ActionView {
    match m.stage {
        StageView::AwaitingLockProbe => ActionView::ProbeLock { path: m.lock_path },
        StageView::AwaitingLockCreation => ActionView::CreateLock { path: m.lock_path },
        StageView::AwaitingOriginCheck => ActionView::CheckOrigin,
        StageView::AwaitingLatest => ActionView::ResolveLatest {
            url: registry_url_of(m.config.package_id),
            user_agent: user_agent_of(m.config.current_version),
        },
        StageView::AwaitingConfirmation { latest } => ActionView::Confirm { version: latest },
        StageView::AwaitingInstall => ActionView::Install {
            program: "cargo"@,
            arguments: install_arguments_of(m.config.package_id, m.config.features),
        },
        StageView::AwaitingReplacement => ActionView::SpawnReplacement,
        StageView::Releasing { result } => ActionView::ReleaseLock { path: m.lock_path },
        StageView::Finished { result } => ActionView::Return { result },
        StageView::HandedOff => ActionView::Exit { status: 0 },
    }
}

/// The state that follows `m` when `e` is reported.
///
/// Versions are compared as texts: any difference counts as an update, also
/// one to a lower version. The exit status of the package manager is not
/// looked at. Whether the marker could be removed does not change the result.
/// An event that does not answer the pending action changes nothing.
pub open spec fn transition(m: OrchestratorView, e: EventView) -> OrchestratorView {
    match (m.stage, e) {
        (StageView::AwaitingLockProbe, EventView::LockProbed { present }) => if present {
            m.at(StageView::Finished { result: Err(RelaunchError::LockConflict) })
        } else {
            m.at(StageView::AwaitingLockCreation)
        },
        (StageView::AwaitingLockCreation, EventView::LockCreated { created }) => if !created {
            m.at(StageView::Finished { result: Err(RelaunchError::LockCreateFailure) })
        } else if m.config.origin_check_enabled {
            m.at(StageView::AwaitingOriginCheck)
        } else {
            m.at(StageView::AwaitingLatest)
        },
        (
            StageView::AwaitingOriginCheck,
            EventView::OriginChecked { from_search_path },
        ) => if from_search_path {
            m.at(StageView::AwaitingLatest)
        } else {
            m.at(StageView::Releasing { result: Err(RelaunchError::OriginCheckFailure) })
        },
        (StageView::AwaitingLatest, EventView::LatestResolved { latest }) => match latest {
            Err(failure) => m.at(
                StageView::Releasing {
                    result: Err(RelaunchError::RegistryFetchFailure(failure)),
                },
            ),
            Ok(version) => if version == m.config.current_version {
                m.at(StageView::Releasing { result: Ok(Outcome::NoUpdateNeeded) })
            } else {
                m.at(StageView::AwaitingConfirmation { latest: version })
            },
        },
        (StageView::AwaitingConfirmation { latest }, EventView::Confirmed { accepted }) => if accepted {
            m.at(StageView::AwaitingInstall)
        } else {
            m.at(StageView::Releasing { result: Ok(Outcome::UserDeclined) })
        },
        (StageView::AwaitingInstall, EventView::InstallFinished { report }) => match report {
            InstallReport::NotRun => m.at(
                StageView::Releasing { result: Err(RelaunchError::InstallFailure) },
            ),
            InstallReport::Exited { success } => m.at(StageView::AwaitingReplacement),
        },
        (StageView::AwaitingReplacement, EventView::ReplacementSpawned { spawned }) => if spawned {
            m.at(StageView::HandedOff)
        } else {
            m.at(StageView::Releasing { result: Err(RelaunchError::RelaunchSpawnFailure) })
        },
        (StageView::Releasing { result }, EventView::LockReleased { removed }) => m.at(
            StageView::Finished { result },
        ),
        _ => m,
    }
}

impl Orchestrator {
    /// Begins an attempt that will guard itself with a marker at `lock_path`.
    /// Returns the attempt and its first action, the probe for that marker.
    pub fn start(config: RelaunchConfig, lock_path: String) -> (begun: (Orchestrator, Action))
        ensures
            begun.0@ == initial(config@, lock_path@),
            begun.1@ == pending(begun.0@),
    {
        let machine = Orchestrator { config, lock_path, stage: Stage::AwaitingLockProbe };
        let action = machine.pending_action();
        (machine, action)
    }

    /// The action that this attempt waits for.
    pub fn pending_action(&self) -> (action: Action)
        ensures
            action@ == pending(self@),
    {
        match &self.stage {
            Stage::AwaitingLockProbe => Action::ProbeLock { path: self.lock_path.clone() },
            Stage::AwaitingLockCreation => Action::CreateLock { path: self.lock_path.clone() },
            Stage::AwaitingOriginCheck => Action::CheckOrigin,
            Stage::AwaitingLatest => Action::ResolveLatest {
                url: registry_url(self.config.package_id.as_str()),
                user_agent: user_agent(self.config.current_version.as_str()),
            },
            Stage::AwaitingConfirmation { latest } => Action::Confirm { version: latest.clone() },
            Stage::AwaitingInstall => Action::Install {
                program: installer_program(),
                arguments: install_arguments(self.config.package_id.as_str(), &self.config.features),
            },
            Stage::AwaitingReplacement => Action::SpawnReplacement,
            Stage::Releasing { result } => Action::ReleaseLock { path: self.lock_path.clone() },
            Stage::Finished { result } => Action::Return { result: *result },
            Stage::HandedOff => Action::Exit { status: 0 },
        }
    }

    /// Takes in what came of the pending action. Returns the attempt in its
    /// next state, and the action that is pending there.
    pub fn step(self, event: Event) -> (next: (Orchestrator, Action))
        ensures
            next.0@ == transition(self@, event@),
            next.1@ == pending(next.0@),
    {
        let Orchestrator { config, lock_path, stage } = self;
        let stage = match (stage, event) {
            (Stage::AwaitingLockProbe, Event::LockProbed { present }) => if present {
                Stage::Finished { result: Err(RelaunchError::LockConflict) }
            } else {
                Stage::AwaitingLockCreation
            },
            (Stage::AwaitingLockCreation, Event::LockCreated { created }) => if !created {
                Stage::Finished { result: Err(RelaunchError::LockCreateFailure) }
            } else if config.origin_check_enabled {
                Stage::AwaitingOriginCheck
            } else {
                Stage::AwaitingLatest
            },
            (Stage::AwaitingOriginCheck, Event::OriginChecked { from_search_path }) => if from_search_path {
                Stage::AwaitingLatest
            } else {
                Stage::Releasing { result: Err(RelaunchError::OriginCheckFailure) }
            },
            (Stage::AwaitingLatest, Event::LatestResolved { latest }) => match latest {
                Err(failure) => Stage::Releasing {
                    result: Err(RelaunchError::RegistryFetchFailure(failure)),
                },
                Ok(version) => if version == config.current_version {
                    Stage::Releasing { result: Ok(Outcome::NoUpdateNeeded) }
                } else {
                    Stage::AwaitingConfirmation { latest: version }
                },
            },
            (Stage::AwaitingConfirmation { latest }, Event::Confirmed { accepted }) => if accepted {
                Stage::AwaitingInstall
            } else {
                Stage::Releasing { result: Ok(Outcome::UserDeclined) }
            },
            (Stage::AwaitingInstall, Event::InstallFinished { report }) => match report {
                InstallReport::NotRun => Stage::Releasing {
                    result: Err(RelaunchError::InstallFailure),
                },
                InstallReport::Exited { success } => Stage::AwaitingReplacement,
            },
            (Stage::AwaitingReplacement, Event::ReplacementSpawned { spawned }) => if spawned {
                Stage::HandedOff
            } else {
                Stage::Releasing { result: Err(RelaunchError::RelaunchSpawnFailure) }
            },
            (Stage::Releasing { result }, Event::LockReleased { removed }) => Stage::Finished {
                result,
            },
            (stage, _) => stage,
        };
        let machine = Orchestrator { config, lock_path, stage };
        let action = machine.pending_action();
        (machine, action)
    }

    /// The configuration of this attempt.
    pub fn config(&self) -> (config: &RelaunchConfig)
        ensures
            config@ == self@.config,
    {
        &self.config
    }

    /// The path of the marker that guards this attempt.
    pub fn lock_path(&self) -> (path: &str)
        ensures
            path@ == self@.lock_path,
    {
        self.lock_path.as_str()
    }

    /// The stage this attempt has reached.
    pub fn stage(&self) -> (stage: &Stage)
        ensures
            stage@ == self@.stage,
    {
        &self.stage
    }
}

} // verus!
