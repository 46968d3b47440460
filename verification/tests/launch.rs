use shell_supervisor::launch::{
    LaunchAction, LaunchEvent, LaunchFailure, LaunchState, GRACE_POLLS, GRACE_POLL_SECONDS,
    QUIT_EXIT_CODE,
};
use shell_supervisor::worker::watchdog_args;

fn probed(in_use: bool) -> LaunchEvent {
    LaunchEvent::PortProbed { in_use }
}

#[test]
fn fresh_start_with_free_port_spawns_at_once() {
    let (state, action) = LaunchState::start(false);
    assert_eq!(state, LaunchState::GateProbe);
    assert_eq!(action, LaunchAction::ProbePort);
    let (state, action) = state.step(probed(false));
    assert_eq!(state, LaunchState::Spawning);
    assert_eq!(action, LaunchAction::Spawn);
    assert!(!state.is_final());
}

#[test]
fn fresh_start_to_guarded_worker() {
    // port free, worker spawns as leader of group 4242, watchdog is bound to
    // that group, and only then is the worker watched
    let (state, action) = LaunchState::start(false);
    assert_eq!(action, LaunchAction::ProbePort);
    let (state, action) = state.step(probed(false));
    assert_eq!(action, LaunchAction::Spawn);
    let (state, action) = state.step(LaunchEvent::Spawned { group_id: 4242 });
    assert_eq!(state, LaunchState::Guarding { group_id: 4242 });
    assert_eq!(action, LaunchAction::RegisterWatchdog { group_id: 4242 });
    if let LaunchAction::RegisterWatchdog { group_id } = action {
        assert_eq!(watchdog_args(&vec![group_id]), vec!["--targets", "4242"]);
    }
    assert!(!state.is_final());
    let (state, action) = state.step(LaunchEvent::WatchdogSpawned);
    assert_eq!(state, LaunchState::Running { group_id: 4242 });
    assert_eq!(action, LaunchAction::WatchWorker { group_id: 4242 });
    assert!(state.is_final());
}

#[test]
fn worker_that_cannot_be_spawned_aborts_the_launch() {
    let (state, action) = LaunchState::Spawning.step(LaunchEvent::SpawnFailed);
    assert_eq!(state, LaunchState::Failed);
    assert_eq!(action, LaunchAction::Abort { failure: LaunchFailure::Worker });
    assert!(state.is_final());
}

#[test]
fn watchdog_that_cannot_be_spawned_aborts_the_launch() {
    let guarding = LaunchState::Guarding { group_id: 7 };
    let (state, action) = guarding.step(LaunchEvent::WatchdogFailed);
    assert_eq!(state, LaunchState::Failed);
    assert_eq!(action, LaunchAction::Abort { failure: LaunchFailure::Watchdog });
}

#[test]
fn worker_is_not_watched_before_it_is_guarded() {
    let spawning = LaunchState::Spawning;
    assert_eq!(spawning.step(LaunchEvent::WatchdogSpawned), (spawning, LaunchAction::Nothing));
    assert_eq!(spawning.step(LaunchEvent::WatchdogFailed), (spawning, LaunchAction::Nothing));
    let guarding = LaunchState::Guarding { group_id: 7 };
    assert_eq!(
        guarding.step(LaunchEvent::Spawned { group_id: 8 }),
        (guarding, LaunchAction::Nothing)
    );
    assert_eq!(guarding.step(LaunchEvent::SpawnFailed), (guarding, LaunchAction::Nothing));
}

#[test]
fn contended_port_without_update_asks_the_user_without_sleeping() {
    let (state, _) = LaunchState::start(false);
    let (state, action) = state.step(probed(true));
    assert_eq!(state, LaunchState::AwaitChoice);
    assert_eq!(action, LaunchAction::AskUser);
    assert!(!state.is_final());
}

#[test]
fn quit_exits_with_code_zero() {
    let (state, _) = LaunchState::start(false);
    let (state, _) = state.step(probed(true));
    let (state, action) = state.step(LaunchEvent::Chose { quit: true });
    assert_eq!(state, LaunchState::Quit);
    assert_eq!(action, LaunchAction::Exit { code: 0 });
    assert_eq!(QUIT_EXIT_CODE, 0);
    assert!(state.is_final());
}

#[test]
fn try_again_probes_again_and_may_loop_for_ever() {
    let (mut state, _) = LaunchState::start(false);
    for _ in 0..50 {
        let (next, action) = state.step(probed(true));
        assert_eq!(action, LaunchAction::AskUser);
        let (next, action) = next.step(LaunchEvent::Chose { quit: false });
        assert_eq!(next, LaunchState::GateProbe);
        assert_eq!(action, LaunchAction::ProbePort);
        state = next;
    }
    let (state, action) = state.step(probed(false));
    assert_eq!(state, LaunchState::Spawning);
    assert_eq!(action, LaunchAction::Spawn);
}

#[test]
fn updated_shell_with_free_port_probes_twice_and_spawns() {
    let (state, action) = LaunchState::start(true);
    assert_eq!(state, LaunchState::UpdateProbe);
    assert_eq!(action, LaunchAction::ProbePort);
    let (state, action) = state.step(probed(false));
    assert_eq!(state, LaunchState::GateProbe);
    assert_eq!(action, LaunchAction::ProbePort);
    let (_, action) = state.step(probed(false));
    assert_eq!(action, LaunchAction::Spawn);
}

#[test]
fn grace_period_ends_as_soon_as_the_port_is_free() {
    let (state, _) = LaunchState::start(true);
    let (state, action) = state.step(probed(true));
    assert_eq!(state, LaunchState::GraceSleep { polls: 0 });
    assert_eq!(action, LaunchAction::Sleep { seconds: 1 });
    let (state, action) = state.step(LaunchEvent::Slept);
    assert_eq!(state, LaunchState::GraceProbe { polls: 0 });
    assert_eq!(action, LaunchAction::ProbePort);
    let (state, action) = state.step(probed(true));
    assert_eq!(state, LaunchState::GraceSleep { polls: 1 });
    assert_eq!(action, LaunchAction::Sleep { seconds: GRACE_POLL_SECONDS });
    let (state, _) = state.step(LaunchEvent::Slept);
    let (state, action) = state.step(probed(false));
    assert_eq!(state, LaunchState::GateProbe);
    assert_eq!(action, LaunchAction::ProbePort);
    let (state, action) = state.step(probed(false));
    assert_eq!(state, LaunchState::Spawning);
    assert_eq!(action, LaunchAction::Spawn);
}

#[test]
fn grace_period_sleeps_ten_times_then_asks_the_user() {
    let (mut state, _) = LaunchState::start(true);
    let mut sleeps = 0;
    let mut probes = 1;
    let mut action;
    (state, action) = state.step(probed(true));
    loop {
        match action {
            LaunchAction::Sleep { seconds } => {
                assert_eq!(seconds, 1);
                sleeps += 1;
                (state, action) = state.step(LaunchEvent::Slept);
            }
            LaunchAction::ProbePort => {
                probes += 1;
                (state, action) = state.step(probed(true));
            }
            other => {
                assert_eq!(other, LaunchAction::AskUser);
                break;
            }
        }
    }
    assert_eq!(sleeps, 10);
    assert_eq!(GRACE_POLLS, 10);
    // one probe before the grace period, ten within it, one before the dialog
    assert_eq!(probes, 12);
    assert_eq!(state, LaunchState::AwaitChoice);
}

#[test]
fn events_that_are_not_awaited_are_dropped() {
    let (state, _) = LaunchState::start(false);
    assert_eq!(state.step(LaunchEvent::Slept), (LaunchState::GateProbe, LaunchAction::Nothing));
    assert_eq!(
        state.step(LaunchEvent::Chose { quit: true }),
        (LaunchState::GateProbe, LaunchAction::Nothing)
    );
    let waiting = LaunchState::AwaitChoice;
    assert_eq!(waiting.step(probed(false)), (LaunchState::AwaitChoice, LaunchAction::Nothing));
    let sleeping = LaunchState::GraceSleep { polls: 3 };
    assert_eq!(sleeping.step(probed(false)), (sleeping, LaunchAction::Nothing));
}

#[test]
fn final_states_never_spawn_again() {
    let events = [
        probed(false),
        probed(true),
        LaunchEvent::Slept,
        LaunchEvent::Chose { quit: false },
        LaunchEvent::Chose { quit: true },
        LaunchEvent::Spawned { group_id: 1 },
        LaunchEvent::SpawnFailed,
        LaunchEvent::WatchdogSpawned,
        LaunchEvent::WatchdogFailed,
    ];
    let running = LaunchState::Running { group_id: 9 };
    for event in events {
        assert_eq!(running.step(event), (running, LaunchAction::Nothing));
        assert_eq!(LaunchState::Quit.step(event), (LaunchState::Quit, LaunchAction::Nothing));
        assert_eq!(LaunchState::Failed.step(event), (LaunchState::Failed, LaunchAction::Nothing));
    }
}

#[test]
fn a_probe_reported_after_the_spawn_request_spawns_no_second_worker() {
    let spawning = LaunchState::Spawning;
    assert_eq!(spawning.step(probed(false)), (spawning, LaunchAction::Nothing));
    let guarding = LaunchState::Guarding { group_id: 3 };
    assert_eq!(guarding.step(probed(false)), (guarding, LaunchAction::Nothing));
}

#[test]
fn grace_counter_past_its_bound_goes_to_the_gate() {
    let odd = LaunchState::GraceProbe { polls: 9 };
    assert_eq!(odd.step(probed(true)), (LaunchState::GateProbe, LaunchAction::ProbePort));
    let odder = LaunchState::GraceProbe { polls: 255 };
    assert_eq!(odder.step(probed(true)), (LaunchState::GateProbe, LaunchAction::ProbePort));
}
