//! What holds of every attempt, whatever the outside world answers.
//!
//! An attempt is followed from its first state to its end in a [`World`] that
//! fixes the answer to each action. The actions it asks for, in order, are its
//! [`trace`]. The statements below are about that trace.

use vstd::prelude::*;
use crate::install::install_arguments_of;
use crate::orchestrator::{
    initial, pending, transition, ActionView, ConfigView, EventView, OrchestratorView, StageView,
};
use crate::outcome::{FetchFailure, InstallReport, Outcome, RelaunchError};
use crate::registry::{registry_url_of, user_agent_of};

verus! {

/// The answers of the outside world, one for each kind of action.
pub struct World {
    /// Whether a marker already exists at the path of the attempt.
    pub lock_present: bool,
    /// Whether the marker can be created.
    pub lock_created: bool,
    /// Whether the program was started through the search path.
    pub from_search_path: bool,
    /// What the registry yields.
    pub latest: Result<Seq<char>, FetchFailure>,
    /// What the confirmation policy says.
    pub accepted: bool,
    /// What the package manager run comes to.
    pub install: InstallReport,
    /// Whether the new instance starts.
    pub spawned: bool,
    /// Whether the marker can be removed.
    pub lock_removed: bool,
}

/// The event by which `world` answers `action`; none for the two actions that
/// end an attempt.
pub open spec fn answer(world: World, action: ActionView) -> Option<EventView> {
    match action {
        ActionView::ProbeLock { .. } => Some(EventView::LockProbed { present: world.lock_present }),
        ActionView::CreateLock { .. } => Some(
            EventView::LockCreated { created: world.lock_created },
        ),
        ActionView::CheckOrigin => Some(
            EventView::OriginChecked { from_search_path: world.from_search_path },
        ),
        ActionView::ResolveLatest { .. } => Some(EventView::LatestResolved { latest: world.latest }),
        ActionView::Confirm { .. } => Some(EventView::Confirmed { accepted: world.accepted }),
        ActionView::Install { .. } => Some(EventView::InstallFinished { report: world.install }),
        ActionView::SpawnReplacement => Some(
            EventView::ReplacementSpawned { spawned: world.spawned },
        ),
        ActionView::ReleaseLock { .. } => Some(EventView::LockReleased { removed: world.lock_removed }),
        ActionView::Return { .. } => None,
        ActionView::Exit { .. } => None,
    }
}

/// An upper bound on the actions that an attempt at `stage` still asks for.
pub open spec fn actions_left(stage: StageView) -> nat {
    match stage {
        StageView::AwaitingLockProbe => 9,
        StageView::AwaitingLockCreation => 8,
        StageView::AwaitingOriginCheck => 7,
        StageView::AwaitingLatest => 6,
        StageView::AwaitingConfirmation { .. } => 5,
        StageView::AwaitingInstall => 4,
        StageView::AwaitingReplacement => 3,
        StageView::Releasing { .. } => 2,
        StageView::Finished { .. } => 1,
        StageView::HandedOff => 1,
    }
}

/// The actions that an attempt in state `m` asks for in `world`, in order, up
/// to and including the one that ends it.
pub open spec fn trace(m: OrchestratorView, world: World) -> Seq<ActionView>
    decreases actions_left(m.stage),
{
    match answer(world, pending(m)) {
        None => seq![pending(m)],
        Some(e) => seq![pending(m)] + trace(transition(m, e), world),
    }
}

/// No event changes what an attempt was configured with, nor the path of its
/// marker. A stage that has an end in it keeps it: an attempt that has
/// finished or handed over stays where it is.
pub proof fn lemma_step_keeps_the_configuration(m: OrchestratorView, e: EventView)
    ensures
        transition(m, e).config == m.config,
        transition(m, e).lock_path == m.lock_path,
        m.stage is Finished || m.stage is HandedOff ==> transition(m, e) == m,
{
}

/// Whether `action` reaches out to the registry.
pub open spec fn queries_registry(action: ActionView) -> bool {
    action is ResolveLatest
}

/// Whether `action` puts a question to the confirmation policy.
pub open spec fn asks_confirmation(action: ActionView) -> bool {
    action is Confirm
}

/// Whether `action` starts another process.
pub open spec fn starts_process(action: ActionView) -> bool {
    action is Install || action is SpawnReplacement
}

/// Whether `action` gives control back to the caller.
pub open spec fn returns_control(action: ActionView) -> bool {
    action is Return
}

/// Whether a marker created by the attempt is still there once the actions
/// of `actions` have been performed in `world`.
pub open spec fn marker_remains(actions: Seq<ActionView>, world: World) -> bool {
    exists|i: int|
        0 <= i < actions.len() && #[trigger] actions[i] is CreateLock && world.lock_created
            && !(world.lock_removed && exists|j: int|
            i < j < actions.len() && #[trigger] actions[j] is ReleaseLock)
}

/// Whether the attempt gets as far as learning the latest version: no marker
/// is in the way, its own can be created, and the origin is accepted where it
/// is checked.
pub open spec fn reaches_registry(config: ConfigView, world: World) -> bool {
    &&& !world.lock_present
    &&& world.lock_created
    &&& config.origin_check_enabled ==> world.from_search_path
}

/// The actions of an attempt that reaches the registry, up to and including
/// the query.
pub open spec fn opening(config: ConfigView, lock_path: Seq<char>) -> Seq<ActionView> {
    let query = ActionView::ResolveLatest {
        url: registry_url_of(config.package_id),
        user_agent: user_agent_of(config.current_version),
    };
    if config.origin_check_enabled {
        seq![
            ActionView::ProbeLock { path: lock_path },
            ActionView::CreateLock { path: lock_path },
            ActionView::CheckOrigin,
            query,
        ]
    } else {
        seq![
            ActionView::ProbeLock { path: lock_path },
            ActionView::CreateLock { path: lock_path },
            query,
        ]
    }
}

/// The end of an attempt that holds the lock and gives control back: the
/// marker is removed, then `result` is returned.
pub open spec fn closing(lock_path: Seq<char>, result: Result<Outcome, RelaunchError>) -> Seq<
    ActionView,
> {
    seq![ActionView::ReleaseLock { path: lock_path }, ActionView::Return { result }]
}

/// The actions from the start of the new instance on.
pub open spec fn course_of_hand_off(lock_path: Seq<char>, world: World) -> Seq<ActionView> {
    seq![ActionView::SpawnReplacement] + if world.spawned {
        seq![ActionView::Exit { status: 0 }]
    } else {
        closing(lock_path, Err(RelaunchError::RelaunchSpawnFailure))
    }
}

/// The actions from the package manager run on.
pub open spec fn course_of_install(config: ConfigView, lock_path: Seq<char>, world: World) -> Seq<
    ActionView,
> {
    seq![
        ActionView::Install {
            program: "cargo"@,
            arguments: install_arguments_of(config.package_id, config.features),
        },
    ] + match world.install {
        InstallReport::NotRun => closing(lock_path, Err(RelaunchError::InstallFailure)),
        InstallReport::Exited { .. } => course_of_hand_off(lock_path, world),
    }
}

/// The actions from the question about `latest` on.
pub open spec fn course_of_decision(
    config: ConfigView,
    lock_path: Seq<char>,
    world: World,
    latest: Seq<char>,
) -> Seq<ActionView> {
    seq![ActionView::Confirm { version: latest }] + if world.accepted {
        course_of_install(config, lock_path, world)
    } else {
        closing(lock_path, Ok(Outcome::UserDeclined))
    }
}

/// The actions that follow the registry query.
pub open spec fn course_after_query(config: ConfigView, lock_path: Seq<char>, world: World) -> Seq<
    ActionView,
> {
    match world.latest {
        Err(failure) => closing(lock_path, Err(RelaunchError::RegistryFetchFailure(failure))),
        Ok(latest) => if latest == config.current_version {
            closing(lock_path, Ok(Outcome::NoUpdateNeeded))
        } else {
            course_of_decision(config, lock_path, world, latest)
        },
    }
}

/// The whole course of an attempt in `world`, written out: what
/// [`trace`] comes to.
pub open spec fn course(config: ConfigView, lock_path: Seq<char>, world: World) -> Seq<ActionView> {
    let probe = ActionView::ProbeLock { path: lock_path };
    let create = ActionView::CreateLock { path: lock_path };
    if world.lock_present {
        seq![probe, ActionView::Return { result: Err(RelaunchError::LockConflict) }]
    } else if !world.lock_created {
        seq![probe, create, ActionView::Return { result: Err(RelaunchError::LockCreateFailure) }]
    } else if config.origin_check_enabled && !world.from_search_path {
        seq![probe, create, ActionView::CheckOrigin] + closing(
            lock_path,
            Err(RelaunchError::OriginCheckFailure),
        )
    } else {
        opening(config, lock_path) + course_after_query(config, lock_path, world)
    }
}

proof fn lemma_trace_releasing(
    m: OrchestratorView,
    world: World,
    result: Result<Outcome, RelaunchError>,
)
    requires
        m.stage == (StageView::Releasing { result }),
    ensures
        trace(m, world) == closing(m.lock_path, result),
{
    reveal_with_fuel(trace, 3);
}

proof fn lemma_trace_hand_off(m: OrchestratorView, world: World)
    requires
        m.stage == StageView::AwaitingReplacement,
    ensures
        trace(m, world) == course_of_hand_off(m.lock_path, world),
{
    reveal_with_fuel(trace, 3);
    let next = transition(m, answer(world, pending(m))->0);
    if !world.spawned {
        lemma_trace_releasing(next, world, Err(RelaunchError::RelaunchSpawnFailure));
    }
}

proof fn lemma_trace_install(m: OrchestratorView, world: World)
    requires
        m.stage == StageView::AwaitingInstall,
    ensures
        trace(m, world) == course_of_install(m.config, m.lock_path, world),
{
    reveal_with_fuel(trace, 2);
    let next = transition(m, answer(world, pending(m))->0);
    match world.install {
        InstallReport::NotRun => {
            lemma_trace_releasing(next, world, Err(RelaunchError::InstallFailure));
        },
        InstallReport::Exited { .. } => {
            lemma_trace_hand_off(next, world);
        },
    }
}

proof fn lemma_trace_decision(m: OrchestratorView, world: World, latest: Seq<char>)
    requires
        m.stage == (StageView::AwaitingConfirmation { latest }),
    ensures
        trace(m, world) == course_of_decision(m.config, m.lock_path, world, latest),
{
    reveal_with_fuel(trace, 2);
    let next = transition(m, answer(world, pending(m))->0);
    if world.accepted {
        lemma_trace_install(next, world);
    } else {
        lemma_trace_releasing(next, world, Ok(Outcome::UserDeclined));
    }
}

proof fn lemma_trace_query(m: OrchestratorView, world: World)
    requires
        m.stage == StageView::AwaitingLatest,
    ensures
        trace(m, world) == seq![pending(m)] + course_after_query(m.config, m.lock_path, world),
{
    reveal_with_fuel(trace, 2);
    let next = transition(m, answer(world, pending(m))->0);
    match world.latest {
        Err(failure) => {
            lemma_trace_releasing(next, world, Err(RelaunchError::RegistryFetchFailure(failure)));
        },
        Ok(latest) => {
            if latest == m.config.current_version {
                lemma_trace_releasing(next, world, Ok(Outcome::NoUpdateNeeded));
            } else {
                lemma_trace_decision(next, world, latest);
            }
        },
    }
}

proof fn lemma_trace_origin(m: OrchestratorView, world: World)
    requires
        m.stage == StageView::AwaitingOriginCheck,
    ensures
        trace(m, world) == seq![ActionView::CheckOrigin] + if world.from_search_path {
            seq![pending(m.at(StageView::AwaitingLatest))] + course_after_query(
                m.config,
                m.lock_path,
                world,
            )
        } else {
            closing(m.lock_path, Err(RelaunchError::OriginCheckFailure))
        },
{
    reveal_with_fuel(trace, 2);
    let next = transition(m, answer(world, pending(m))->0);
    if world.from_search_path {
        lemma_trace_query(next, world);
    } else {
        lemma_trace_releasing(next, world, Err(RelaunchError::OriginCheckFailure));
    }
}

/// The trace of an attempt is its course: the protocol run step by step
/// asks for exactly the actions that [`course`] writes out, in that order.
pub proof fn lemma_trace_is_course(config: ConfigView, lock_path: Seq<char>, world: World)
    ensures
        trace(initial(config, lock_path), world) == course(config, lock_path, world),
{
    let m = initial(config, lock_path);
    reveal_with_fuel(trace, 3);
    if !world.lock_present && world.lock_created {
        let held = transition(
            transition(m, EventView::LockProbed { present: false }),
            EventView::LockCreated { created: true },
        );
        if config.origin_check_enabled {
            lemma_trace_origin(held, world);
        } else {
            lemma_trace_query(held, world);
        }
    }
}

/// Every attempt comes to an end: its trace is finite, its last action either
/// returns a result or ends the process, and no earlier action does.
pub proof fn lemma_every_attempt_ends(config: ConfigView, lock_path: Seq<char>, world: World)
    ensures
        ({
            let t = trace(initial(config, lock_path), world);
            &&& 2 <= t.len() <= 9
            &&& t.last() is Return || t.last() is Exit
            &&& forall|i: int| 0 <= i < t.len() - 1 ==> !(t[i] is Return) && !(t[i] is Exit)
        }),
{
    lemma_trace_is_course(config, lock_path, world);
}

/// What an attempt gives back to its caller in `world`: the first failure on
/// its way, or how it ended without one. It gives back nothing where it hands
/// over to the new instance, since the process ends there.
pub open spec fn result_of(config: ConfigView, world: World) -> Option<
    Result<Outcome, RelaunchError>,
> {
    if world.lock_present {
        Some(Err(RelaunchError::LockConflict))
    } else if !world.lock_created {
        Some(Err(RelaunchError::LockCreateFailure))
    } else if config.origin_check_enabled && !world.from_search_path {
        Some(Err(RelaunchError::OriginCheckFailure))
    } else {
        match world.latest {
            Err(failure) => Some(Err(RelaunchError::RegistryFetchFailure(failure))),
            Ok(latest) => if latest == config.current_version {
                Some(Ok(Outcome::NoUpdateNeeded))
            } else if !world.accepted {
                Some(Ok(Outcome::UserDeclined))
            } else if world.install is NotRun {
                Some(Err(RelaunchError::InstallFailure))
            } else if !world.spawned {
                Some(Err(RelaunchError::RelaunchSpawnFailure))
            } else {
                None
            },
        }
    }
}

/// An attempt ends with its result: its last action returns what
/// [`result_of`] says, or ends the process with the success status where
/// there is nothing to return.
pub proof fn lemma_attempt_ends_with_its_result(
    config: ConfigView,
    lock_path: Seq<char>,
    world: World,
)
    ensures
        trace(initial(config, lock_path), world).last() == match result_of(config, world) {
            Some(result) => ActionView::Return { result },
            None => ActionView::Exit { status: 0 },
        },
{
    lemma_trace_is_course(config, lock_path, world);
}

/// The place of `action` in the fixed order of the protocol: lock, origin,
/// version, confirmation, installation, hand-off, release, end.
pub open spec fn place(action: ActionView) -> nat {
    match action {
        ActionView::ProbeLock { .. } => 0,
        ActionView::CreateLock { .. } => 1,
        ActionView::CheckOrigin => 2,
        ActionView::ResolveLatest { .. } => 3,
        ActionView::Confirm { .. } => 4,
        ActionView::Install { .. } => 5,
        ActionView::SpawnReplacement => 6,
        ActionView::ReleaseLock { .. } => 7,
        ActionView::Return { .. } => 8,
        ActionView::Exit { .. } => 8,
    }
}

/// The steps of an attempt come in the fixed order of the protocol, and none
/// is taken twice: no step begins before the one before it is over, and
/// nothing is retried.
pub proof fn lemma_steps_in_order(config: ConfigView, lock_path: Seq<char>, world: World)
    ensures
        ({
            let t = trace(initial(config, lock_path), world);
            forall|i: int, j: int| 0 <= i < j < t.len() ==> place(t[i]) < place(t[j])
        }),
{
    lemma_trace_is_course(config, lock_path, world);
    lemma_tail_in_order(config, lock_path, world);
}

/// The actions that follow the registry query come in the fixed order too,
/// and all of them after the query.
proof fn lemma_tail_in_order(config: ConfigView, lock_path: Seq<char>, world: World)
    ensures
        ({
            let tail = course_after_query(config, lock_path, world);
            &&& forall|i: int| 0 <= i < tail.len() ==> place(#[trigger] tail[i]) >= 4
            &&& forall|i: int, j: int| 0 <= i < j < tail.len() ==> place(tail[i]) < place(tail[j])
        }),
{
}

/// When an attempt gives control back to its caller after it has created its
/// marker, the last thing it did before was to remove that marker. An attempt
/// that has not created a marker removes none.
pub proof fn lemma_lock_released_before_return(
    config: ConfigView,
    lock_path: Seq<char>,
    world: World,
)
    ensures
        ({
            let t = trace(initial(config, lock_path), world);
            let held = !world.lock_present && world.lock_created;
            &&& held && t.last() is Return ==> t[t.len() - 2] == (ActionView::ReleaseLock {
                path: lock_path,
            })
            &&& !held ==> forall|i: int| 0 <= i < t.len() ==> !(t[i] is ReleaseLock)
            &&& world.lock_removed && t.last() is Return ==> !marker_remains(t, world)
        }),
{
    lemma_trace_is_course(config, lock_path, world);
    lemma_steps_in_order(config, lock_path, world);
}

/// The confirmation policy is asked at most once in an attempt, and only
/// about a version that the registry offers and that is not the running one.
pub proof fn lemma_confirmation_asked_at_most_once(
    config: ConfigView,
    lock_path: Seq<char>,
    world: World,
)
    ensures
        ({
            let t = trace(initial(config, lock_path), world);
            &&& forall|i: int, j: int|
                0 <= i < t.len() && 0 <= j < t.len() && asks_confirmation(t[i])
                    && asks_confirmation(t[j]) ==> i == j
            &&& forall|i: int|
                0 <= i < t.len() && asks_confirmation(#[trigger] t[i]) ==> {
                    &&& world.latest is Ok
                    &&& world.latest->Ok_0 != config.current_version
                    &&& t[i] == (ActionView::Confirm { version: world.latest->Ok_0 })
                }
        }),
{
    lemma_trace_is_course(config, lock_path, world);
    lemma_steps_in_order(config, lock_path, world);
}

/// If a marker already exists at the path of the attempt, the attempt ends
/// with `LockConflict` as soon as it has seen the marker: it does not query the
/// registry, ask for confirmation, start a process or touch the marker.
pub proof fn lemma_conflict_ends_the_attempt(
    config: ConfigView,
    lock_path: Seq<char>,
    world: World,
)
    requires
        world.lock_present,
    ensures
        ({
            let t = trace(initial(config, lock_path), world);
            &&& t == seq![
                ActionView::ProbeLock { path: lock_path },
                ActionView::Return { result: Err(RelaunchError::LockConflict) },
            ]
            &&& forall|i: int|
                0 <= i < t.len() ==> !queries_registry(t[i]) && !asks_confirmation(t[i])
                    && !starts_process(t[i]) && !(t[i] is CreateLock) && !(t[i] is ReleaseLock)
        }),
{
    lemma_trace_is_course(config, lock_path, world);
}

/// If the registry offers the running version, the confirmation policy is not
/// asked and no process is started. An attempt that gets as far as the
/// registry then releases its lock and returns `NoUpdateNeeded`.
pub proof fn lemma_same_version_needs_no_update(
    config: ConfigView,
    lock_path: Seq<char>,
    world: World,
)
    requires
        world.latest == Ok::<Seq<char>, FetchFailure>(config.current_version),
    ensures
        ({
            let t = trace(initial(config, lock_path), world);
            &&& forall|i: int|
                0 <= i < t.len() ==> !asks_confirmation(t[i]) && !starts_process(t[i])
            &&& reaches_registry(config, world) ==> {
                &&& t == opening(config, lock_path) + closing(
                    lock_path,
                    Ok(Outcome::NoUpdateNeeded),
                )
                &&& t.last() == (ActionView::Return { result: Ok(Outcome::NoUpdateNeeded) })
                &&& world.lock_removed ==> !marker_remains(t, world)
            }
        }),
{
    lemma_trace_is_course(config, lock_path, world);
    lemma_lock_released_before_return(config, lock_path, world);
}

/// If the registry offers another version and the confirmation policy says
/// no, no process is started. An attempt that gets as far as the registry then
/// asks once, releases its lock and returns `UserDeclined`; the marker is gone
/// when it returns, provided that it could be removed.
pub proof fn lemma_declined_update_changes_nothing(
    config: ConfigView,
    lock_path: Seq<char>,
    world: World,
    latest: Seq<char>,
)
    requires
        world.latest == Ok::<Seq<char>, FetchFailure>(latest),
        latest != config.current_version,
        !world.accepted,
    ensures
        ({
            let t = trace(initial(config, lock_path), world);
            &&& forall|i: int| 0 <= i < t.len() ==> !starts_process(t[i])
            &&& reaches_registry(config, world) ==> {
                &&& t == opening(config, lock_path) + seq![
                    ActionView::Confirm { version: latest },
                ] + closing(lock_path, Ok(Outcome::UserDeclined))
                &&& t.last() == (ActionView::Return { result: Ok(Outcome::UserDeclined) })
                &&& world.lock_removed ==> !marker_remains(t, world)
            }
        }),
{
    lemma_trace_is_course(config, lock_path, world);
    lemma_lock_released_before_return(config, lock_path, world);
}

/// Once the new instance has been started, the attempt never gives control
/// back: its last action ends the process with the success status, and the
/// marker stays where it is.
pub proof fn lemma_started_replacement_ends_the_process(
    config: ConfigView,
    lock_path: Seq<char>,
    world: World,
)
    requires
        world.spawned,
        exists|i: int|
            0 <= i < trace(initial(config, lock_path), world).len() && trace(
                initial(config, lock_path),
                world,
            )[i] is SpawnReplacement,
    ensures
        ({
            let t = trace(initial(config, lock_path), world);
            &&& t.last() == (ActionView::Exit { status: 0 })
            &&& forall|i: int| 0 <= i < t.len() ==> !returns_control(t[i]) && !(t[i] is ReleaseLock)
        }),
{
    lemma_trace_is_course(config, lock_path, world);
}

/// With a policy that accepts, a package manager that runs to its end and a
/// new instance that starts, an attempt that is offered another version hands
/// over and ends the process: it asks once, installs, starts the new
/// instance and exits, and never returns to its caller.
pub proof fn lemma_accepted_update_hands_over(
    config: ConfigView,
    lock_path: Seq<char>,
    world: World,
    latest: Seq<char>,
)
    requires
        reaches_registry(config, world),
        world.latest == Ok::<Seq<char>, FetchFailure>(latest),
        latest != config.current_version,
        world.accepted,
        world.install is Exited,
        world.spawned,
    ensures
        ({
            let t = trace(initial(config, lock_path), world);
            &&& t == opening(config, lock_path) + seq![
                ActionView::Confirm { version: latest },
                ActionView::Install {
                    program: "cargo"@,
                    arguments: install_arguments_of(config.package_id, config.features),
                },
                ActionView::SpawnReplacement,
                ActionView::Exit { status: 0 },
            ]
            &&& forall|i: int| 0 <= i < t.len() ==> !returns_control(t[i])
        }),
{
    lemma_trace_is_course(config, lock_path, world);
}

/// If the new instance cannot be started, the attempt removes its marker and
/// returns `RelaunchSpawnFailure`; the running program goes on.
pub proof fn lemma_failed_spawn_is_reported(
    config: ConfigView,
    lock_path: Seq<char>,
    world: World,
)
    requires
        !world.spawned,
        exists|i: int|
            0 <= i < trace(initial(config, lock_path), world).len() && trace(
                initial(config, lock_path),
                world,
            )[i] is SpawnReplacement,
    ensures
        ({
            let t = trace(initial(config, lock_path), world);
            &&& t.last() == (ActionView::Return {
                result: Err(RelaunchError::RelaunchSpawnFailure),
            })
            &&& t[t.len() - 2] == (ActionView::ReleaseLock { path: lock_path })
            &&& t[t.len() - 3] is SpawnReplacement
            &&& t[t.len() - 4] is Install
            &&& world.lock_removed ==> !marker_remains(t, world)
        }),
{
    lemma_trace_is_course(config, lock_path, world);
    lemma_lock_released_before_return(config, lock_path, world);
}

} // verus!
