use rspawn::orchestrator::{Action, Event, Orchestrator, RelaunchConfig, Stage};
use rspawn::origin::{is_executed_from_path, OriginAction};
use rspawn::outcome::{FetchFailure, InstallReport, Outcome, RelaunchError};
use rspawn::registry::{resolve_latest, RegistryReply};

const LOCK: &str = "/tmp/3f2b8c1e-0d4a-4e6f-9a7b-5c1d2e3f4a5b.lock";

/// The answers of a made-up outside world, one for each kind of action.
struct World {
    lock_present: bool,
    lock_created: bool,
    from_search_path: bool,
    latest: Result<String, FetchFailure>,
    accepted: bool,
    install: InstallReport,
    spawned: bool,
    lock_removed: bool,
}

fn friendly(latest: &str) -> World {
    World {
        lock_present: false,
        lock_created: true,
        from_search_path: true,
        latest: Ok(latest.to_string()),
        accepted: true,
        install: InstallReport::Exited { success: true },
        spawned: true,
        lock_removed: true,
    }
}

fn config(current: &str, features: &[&str], origin_check: bool) -> RelaunchConfig {
    RelaunchConfig {
        package_id: "prog".to_string(),
        current_version: current.to_string(),
        features: features.iter().map(|f| f.to_string()).collect(),
        origin_check_enabled: origin_check,
    }
}

/// Runs an attempt to its end and returns every action it asked for.
fn run(config: RelaunchConfig, world: &World) -> Vec<Action> {
    let (mut machine, mut action) = Orchestrator::start(config, LOCK.to_string());
    let mut trace = Vec::new();
    loop {
        let event = match &action {
            Action::ProbeLock { .. } => Event::LockProbed { present: world.lock_present },
            Action::CreateLock { .. } => Event::LockCreated { created: world.lock_created },
            Action::CheckOrigin => Event::OriginChecked { from_search_path: world.from_search_path },
            Action::ResolveLatest { .. } => Event::LatestResolved { latest: world.latest.clone() },
            Action::Confirm { .. } => Event::Confirmed { accepted: world.accepted },
            Action::Install { .. } => Event::InstallFinished { report: world.install },
            Action::SpawnReplacement => Event::ReplacementSpawned { spawned: world.spawned },
            Action::ReleaseLock { .. } => Event::LockReleased { removed: world.lock_removed },
            Action::Return { .. } | Action::Exit { .. } => {
                trace.push(action);
                return trace;
            }
        };
        trace.push(action);
        assert!(trace.len() < 20, "the attempt does not end");
        let (next, pending) = machine.step(event);
        machine = next;
        action = pending;
    }
}

fn probe() -> Action {
    Action::ProbeLock { path: LOCK.to_string() }
}

fn create() -> Action {
    Action::CreateLock { path: LOCK.to_string() }
}

fn release() -> Action {
    Action::ReleaseLock { path: LOCK.to_string() }
}

fn query(current: &str) -> Action {
    Action::ResolveLatest {
        url: "https://crates.io/api/v1/crates/prog/versions".to_string(),
        user_agent: format!("rspawn/{current} (https://github.com/jgabaut/rspawn"),
    }
}

fn confirm(version: &str) -> Action {
    Action::Confirm { version: version.to_string() }
}

fn install(arguments: &[&str]) -> Action {
    Action::Install {
        program: "cargo".to_string(),
        arguments: arguments.iter().map(|a| a.to_string()).collect(),
    }
}

fn give_back(result: Result<Outcome, RelaunchError>) -> Action {
    Action::Return { result }
}

#[test]
fn same_version_needs_no_update() {
    let trace = run(config("0.1.0", &[], false), &friendly("0.1.0"));
    assert_eq!(
        trace,
        vec![probe(), create(), query("0.1.0"), release(), give_back(Ok(Outcome::NoUpdateNeeded))]
    );
    assert!(!trace.iter().any(|a| matches!(a, Action::Confirm { .. })));
    assert!(!trace.iter().any(|a| matches!(a, Action::Install { .. } | Action::SpawnReplacement)));
}

#[test]
fn same_version_needs_no_update_whatever_the_policy_would_say() {
    for accepted in [false, true] {
        let world = World { accepted, ..friendly("2.0.0") };
        let trace = run(config("2.0.0", &["extra"], true), &world);
        assert_eq!(trace.last(), Some(&give_back(Ok(Outcome::NoUpdateNeeded))));
        assert!(!trace.iter().any(|a| matches!(a, Action::Confirm { .. })));
    }
}

#[test]
fn declined_update_changes_nothing() {
    let world = World { accepted: false, ..friendly("0.2.0") };
    let trace = run(config("0.1.0", &[], false), &world);
    assert_eq!(
        trace,
        vec![
            probe(),
            create(),
            query("0.1.0"),
            confirm("0.2.0"),
            release(),
            give_back(Ok(Outcome::UserDeclined)),
        ]
    );
    assert!(!trace.iter().any(|a| matches!(a, Action::Install { .. } | Action::SpawnReplacement)));
}

#[test]
fn existing_marker_is_a_conflict() {
    let world = World { lock_present: true, ..friendly("0.2.0") };
    let trace = run(config("0.1.0", &[], true), &world);
    assert_eq!(trace, vec![probe(), give_back(Err(RelaunchError::LockConflict))]);
}

#[test]
fn marker_that_cannot_be_created_ends_the_attempt() {
    let world = World { lock_created: false, ..friendly("0.2.0") };
    let trace = run(config("0.1.0", &[], true), &world);
    assert_eq!(trace, vec![probe(), create(), give_back(Err(RelaunchError::LockCreateFailure))]);
}

#[test]
fn program_named_by_relative_path_fails_the_origin_check() {
    let (_, verdict) = is_executed_from_path("./prog", "/usr/local/bin:/usr/bin");
    let from_search_path = match verdict {
        OriginAction::Verdict { from_search_path } => from_search_path,
        OriginAction::Probe { path } => panic!("the check wants to look at {path}"),
    };
    assert!(!from_search_path);
    let world = World { from_search_path, ..friendly("0.2.0") };
    let trace = run(config("0.1.0", &[], true), &world);
    assert_eq!(
        trace,
        vec![
            probe(),
            create(),
            Action::CheckOrigin,
            release(),
            give_back(Err(RelaunchError::OriginCheckFailure)),
        ]
    );
    assert!(!trace.iter().any(|a| matches!(a, Action::ResolveLatest { .. })));
}

#[test]
fn origin_is_not_checked_unless_asked_for() {
    let world = World { from_search_path: false, ..friendly("0.1.0") };
    let trace = run(config("0.1.0", &[], false), &world);
    assert!(!trace.contains(&Action::CheckOrigin));
    assert_eq!(trace.last(), Some(&give_back(Ok(Outcome::NoUpdateNeeded))));
}

#[test]
fn http_500_is_reported_after_the_lock_is_released() {
    let reply = RegistryReply::Answered { status: 500, body: None };
    let latest = resolve_latest(&reply);
    assert_eq!(latest, Err(FetchFailure::HttpStatus(500)));
    let world = World { latest, ..friendly("unused") };
    let trace = run(config("0.1.0", &[], true), &world);
    assert_eq!(
        trace,
        vec![
            probe(),
            create(),
            Action::CheckOrigin,
            query("0.1.0"),
            release(),
            give_back(Err(RelaunchError::RegistryFetchFailure(FetchFailure::HttpStatus(500)))),
        ]
    );
}

#[test]
fn network_and_parse_failures_are_passed_on() {
    for failure in [FetchFailure::Network, FetchFailure::Parse] {
        let world = World { latest: Err(failure), ..friendly("unused") };
        let trace = run(config("0.1.0", &[], false), &world);
        assert_eq!(trace[trace.len() - 2], release());
        assert_eq!(
            trace.last(),
            Some(&give_back(Err(RelaunchError::RegistryFetchFailure(failure))))
        );
    }
}

#[test]
fn accepted_update_installs_and_hands_over() {
    let trace = run(config("0.1.0", &["gui", "net"], true), &friendly("0.2.0"));
    assert_eq!(
        trace,
        vec![
            probe(),
            create(),
            Action::CheckOrigin,
            query("0.1.0"),
            confirm("0.2.0"),
            install(&["install", "prog", "--features", "gui", "--features", "net"]),
            Action::SpawnReplacement,
            Action::Exit { status: 0 },
        ]
    );
    assert!(!trace.iter().any(|a| matches!(a, Action::Return { .. })));
    assert!(!trace.contains(&release()));
}

#[test]
fn failed_spawn_is_reported_after_the_lock_is_released() {
    let world = World { spawned: false, ..friendly("0.2.0") };
    let trace = run(config("0.1.0", &[], false), &world);
    assert_eq!(
        trace,
        vec![
            probe(),
            create(),
            query("0.1.0"),
            confirm("0.2.0"),
            install(&["install", "prog"]),
            Action::SpawnReplacement,
            release(),
            give_back(Err(RelaunchError::RelaunchSpawnFailure)),
        ]
    );
}

#[test]
fn package_manager_that_cannot_run_is_an_install_failure() {
    let world = World { install: InstallReport::NotRun, ..friendly("0.2.0") };
    let trace = run(config("0.1.0", &[], false), &world);
    assert!(!trace.contains(&Action::SpawnReplacement));
    assert_eq!(trace[trace.len() - 2], release());
    assert_eq!(trace.last(), Some(&give_back(Err(RelaunchError::InstallFailure))));
}

#[test]
fn exit_status_of_the_package_manager_is_not_looked_at() {
    let world = World { install: InstallReport::Exited { success: false }, ..friendly("0.2.0") };
    let trace = run(config("0.1.0", &[], false), &world);
    assert!(trace.contains(&Action::SpawnReplacement));
    assert_eq!(trace.last(), Some(&Action::Exit { status: 0 }));
}

#[test]
fn lower_version_counts_as_an_update() {
    let world = World { accepted: false, ..friendly("0.0.9") };
    let trace = run(config("0.1.0", &[], false), &world);
    assert!(trace.contains(&confirm("0.0.9")));
    assert_eq!(trace.last(), Some(&give_back(Ok(Outcome::UserDeclined))));
}

#[test]
fn versions_are_compared_as_texts() {
    let world = World { accepted: false, ..friendly("1.0") };
    let trace = run(config("1.0.0", &[], false), &world);
    assert!(trace.contains(&confirm("1.0")));
}

#[test]
fn failure_to_remove_the_marker_does_not_change_the_result() {
    let world = World { lock_removed: false, ..friendly("0.1.0") };
    let trace = run(config("0.1.0", &[], false), &world);
    assert_eq!(trace[trace.len() - 2], release());
    assert_eq!(trace.last(), Some(&give_back(Ok(Outcome::NoUpdateNeeded))));
}

#[test]
fn confirmation_is_asked_at_most_once() {
    for accepted in [false, true] {
        for spawned in [false, true] {
            let world = World { accepted, spawned, ..friendly("0.2.0") };
            let trace = run(config("0.1.0", &[], true), &world);
            let asked = trace.iter().filter(|a| matches!(a, Action::Confirm { .. })).count();
            assert_eq!(asked, 1);
        }
    }
}

#[test]
fn event_that_answers_nothing_changes_nothing() {
    let (machine, first) = Orchestrator::start(config("0.1.0", &[], true), LOCK.to_string());
    assert_eq!(first, probe());
    assert_eq!(machine.stage(), &Stage::AwaitingLockProbe);
    let (machine, action) = machine.step(Event::Confirmed { accepted: true });
    assert_eq!(action, probe());
    assert_eq!(machine.stage(), &Stage::AwaitingLockProbe);
    let (machine, action) = machine.step(Event::LockReleased { removed: true });
    assert_eq!(action, probe());
    assert_eq!(machine.lock_path(), LOCK);
    assert_eq!(machine.config(), &config("0.1.0", &[], true));
}

#[test]
fn finished_attempt_stays_finished() {
    let (machine, _) = Orchestrator::start(config("0.1.0", &[], true), LOCK.to_string());
    let (machine, action) = machine.step(Event::LockProbed { present: true });
    assert_eq!(action, give_back(Err(RelaunchError::LockConflict)));
    let (machine, action) = machine.step(Event::LockProbed { present: false });
    assert_eq!(action, give_back(Err(RelaunchError::LockConflict)));
    assert_eq!(machine.stage(), &Stage::Finished { result: Err(RelaunchError::LockConflict) });
}

#[test]
fn stages_follow_the_protocol() {
    let (machine, _) = Orchestrator::start(config("0.1.0", &[], true), LOCK.to_string());
    let (machine, _) = machine.step(Event::LockProbed { present: false });
    assert_eq!(machine.stage(), &Stage::AwaitingLockCreation);
    let (machine, _) = machine.step(Event::LockCreated { created: true });
    assert_eq!(machine.stage(), &Stage::AwaitingOriginCheck);
    let (machine, _) = machine.step(Event::OriginChecked { from_search_path: true });
    assert_eq!(machine.stage(), &Stage::AwaitingLatest);
    let (machine, _) = machine.step(Event::LatestResolved { latest: Ok("0.3.0".to_string()) });
    assert_eq!(machine.stage(), &Stage::AwaitingConfirmation { latest: "0.3.0".to_string() });
    let (machine, _) = machine.step(Event::Confirmed { accepted: true });
    assert_eq!(machine.stage(), &Stage::AwaitingInstall);
    let (machine, _) =
        machine.step(Event::InstallFinished { report: InstallReport::Exited { success: true } });
    assert_eq!(machine.stage(), &Stage::AwaitingReplacement);
    let (machine, action) = machine.step(Event::ReplacementSpawned { spawned: true });
    assert_eq!(machine.stage(), &Stage::HandedOff);
    assert_eq!(action, Action::Exit { status: 0 });
    assert_eq!(machine.pending_action(), Action::Exit { status: 0 });
}

fn place(action: &Action) -> usize {
    match action {
        Action::ProbeLock { .. } => 0,
        Action::CreateLock { .. } => 1,
        Action::CheckOrigin => 2,
        Action::ResolveLatest { .. } => 3,
        Action::Confirm { .. } => 4,
        Action::Install { .. } => 5,
        Action::SpawnReplacement => 6,
        Action::ReleaseLock { .. } => 7,
        Action::Return { .. } | Action::Exit { .. } => 8,
    }
}

/// Every combination of answers, with a registry that fails, offers the
/// running version or offers another one.
fn every_world() -> Vec<World> {
    let latest = [Err(FetchFailure::Network), Ok("0.1.0".to_string()), Ok("0.2.0".to_string())];
    let install = [
        InstallReport::NotRun,
        InstallReport::Exited { success: false },
        InstallReport::Exited { success: true },
    ];
    let mut worlds = Vec::new();
    for bits in 0..64u32 {
        for latest in &latest {
            for install in &install {
                worlds.push(World {
                    lock_present: bits & 1 != 0,
                    lock_created: bits & 2 != 0,
                    from_search_path: bits & 4 != 0,
                    latest: latest.clone(),
                    accepted: bits & 8 != 0,
                    install: *install,
                    spawned: bits & 16 != 0,
                    lock_removed: bits & 32 != 0,
                });
            }
        }
    }
    worlds
}

#[test]
fn steps_come_in_the_order_of_the_protocol_in_every_world() {
    for origin_check in [false, true] {
        for world in every_world() {
            let trace = run(config("0.1.0", &["f"], origin_check), &world);
            assert!(2 <= trace.len() && trace.len() <= 9);
            for pair in trace.windows(2) {
                assert!(place(&pair[0]) < place(&pair[1]), "out of order: {trace:?}");
            }
            assert_eq!(place(&trace[trace.len() - 1]), 8);
        }
    }
}

#[test]
fn lock_is_released_before_every_return_and_only_if_held() {
    for origin_check in [false, true] {
        for world in every_world() {
            let trace = run(config("0.1.0", &[], origin_check), &world);
            let held = !world.lock_present && world.lock_created;
            let released = trace.contains(&release());
            match trace.last() {
                Some(Action::Return { .. }) => {
                    assert_eq!(released, held);
                    if held {
                        assert_eq!(trace[trace.len() - 2], release());
                    }
                }
                Some(Action::Exit { status }) => {
                    assert_eq!(*status, 0);
                    assert!(held && !released);
                    assert!(world.accepted && world.spawned);
                }
                other => panic!("the attempt ended with {other:?}"),
            }
        }
    }
}

#[test]
fn confirmation_is_asked_only_about_another_version() {
    for world in every_world() {
        let trace = run(config("0.1.0", &[], true), &world);
        let asked: Vec<&Action> =
            trace.iter().filter(|a| matches!(a, Action::Confirm { .. })).collect();
        let offered = !world.lock_present
            && world.lock_created
            && world.from_search_path
            && world.latest == Ok("0.2.0".to_string());
        if offered {
            assert_eq!(asked, vec![&confirm("0.2.0")]);
        } else {
            assert!(asked.is_empty());
        }
        let started = trace.iter().any(|a| matches!(a, Action::Install { .. }));
        assert_eq!(started, offered && world.accepted);
    }
}

/// What an attempt is to give back in `world`, written without the machine.
fn expected_end(origin_check: bool, world: &World) -> Action {
    let result = if world.lock_present {
        Err(RelaunchError::LockConflict)
    } else if !world.lock_created {
        Err(RelaunchError::LockCreateFailure)
    } else if origin_check && !world.from_search_path {
        Err(RelaunchError::OriginCheckFailure)
    } else {
        match &world.latest {
            Err(failure) => Err(RelaunchError::RegistryFetchFailure(*failure)),
            Ok(latest) if latest == "0.1.0" => Ok(Outcome::NoUpdateNeeded),
            Ok(_) if !world.accepted => Ok(Outcome::UserDeclined),
            Ok(_) if world.install == InstallReport::NotRun => Err(RelaunchError::InstallFailure),
            Ok(_) if !world.spawned => Err(RelaunchError::RelaunchSpawnFailure),
            Ok(_) => return Action::Exit { status: 0 },
        }
    };
    Action::Return { result }
}

#[test]
fn attempt_ends_with_the_first_failure_on_its_way() {
    for origin_check in [false, true] {
        for world in every_world() {
            let trace = run(config("0.1.0", &[], origin_check), &world);
            assert_eq!(trace.last(), Some(&expected_end(origin_check, &world)));
        }
    }
}
