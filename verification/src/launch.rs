//! The protocol that brings the worker up once its port is free.
//!
//! Right after a self-update the previous worker may still be shutting down,
//! so a contended port is first given a bounded grace period of timed
//! re-probes. After that, a contended port is the user's call: quit, or try
//! again. The worker is spawned only in answer to a probe that found the port
//! free. Once it runs, a watchdog is bound to its process group before
//! anything else is done with it, so that no later failure can leave it
//! behind; only then is the worker handed to the crash monitor.
//!
//! The protocol is a state machine. The caller performs each requested
//! [`LaunchAction`] and reports its outcome as a [`LaunchEvent`].

use vstd::prelude::*;

verus! {

/// Number of timed re-probes the grace period allows.
pub const GRACE_POLLS: u8 = 10;

/// Seconds slept before each grace-period re-probe.
pub const GRACE_POLL_SECONDS: u64 = 1;

/// Exit code of the shell when the user gives up on a contended port.
pub const QUIT_EXIT_CODE: i32 = 0;

/// Where the launch protocol stands: what outcome it is waiting for.
#[derive(Clone, Copy, Debug, PartialEq, Eq, Structural)]
pub enum LaunchState {
    /// Freshly updated; waiting for the probe that decides whether a grace
    /// period is needed at all.
    UpdateProbe,
    /// In the grace period with `polls` re-probes done; waiting for the sleep
    /// before the next one.
    GraceSleep { polls: u8 },
    /// In the grace period with `polls` re-probes done; waiting for the
    /// result of the next one.
    GraceProbe { polls: u8 },
    /// Waiting for the probe that gates the spawn.
    GateProbe,
    /// The port is contended; waiting for the user's choice.
    AwaitChoice,
    /// The port is free; waiting for the worker to be spawned.
    Spawning,
    /// The worker runs as leader of process group `group_id`; waiting for
    /// its watchdog to be spawned.
    Guarding { group_id: u32 },
    /// Worker and watchdog run. Final.
    Running { group_id: u32 },
    /// The user chose to quit. Final.
    Quit,
    /// Worker or watchdog could not be spawned. Final.
    Failed,
}

/// Outcome of the action last requested.
#[derive(Clone, Copy, Debug, PartialEq, Eq, Structural)]
pub enum LaunchEvent {
    /// The port was probed.
    PortProbed { in_use: bool },
    /// The requested sleep has elapsed.
    Slept,
    /// The user answered the contended-port dialog.
    Chose { quit: bool },
    /// The worker was spawned as leader of process group `group_id`.
    Spawned { group_id: u32 },
    /// The worker could not be spawned.
    SpawnFailed,
    /// The watchdog was spawned.
    WatchdogSpawned,
    /// The watchdog could not be spawned.
    WatchdogFailed,
}

/// What could not be started.
#[derive(Clone, Copy, Debug, PartialEq, Eq, Structural)]
pub enum LaunchFailure {
    Worker,
    Watchdog,
}

/// What the caller must do next.
#[derive(Clone, Copy, Debug, PartialEq, Eq, Structural)]
pub enum LaunchAction {
    /// Probe the worker's port and report `PortProbed`.
    ProbePort,
    /// Sleep for `seconds` and report `Slept`.
    Sleep { seconds: u64 },
    /// Show the blocking quit / try-again dialog and report `Chose`.
    AskUser,
    /// Spawn the worker as leader of a new process group and report
    /// `Spawned` or `SpawnFailed`.
    Spawn,
    /// Spawn a watchdog that kills process group `group_id` when the shell is
    /// gone, and report `WatchdogSpawned` or `WatchdogFailed`.
    RegisterWatchdog { group_id: u32 },
    /// Hand the worker of process group `group_id` to the crash monitor.
    /// Nothing further is reported.
    WatchWorker { group_id: u32 },
    /// Exit the shell with `code`. Nothing further is reported.
    Exit { code: i32 },
    /// Give up starting the shell: it does not run without its worker, nor
    /// with a worker that nothing guards. Nothing further is reported.
    Abort { failure: LaunchFailure },
    /// The event was not the one awaited; it is dropped.
    Nothing,
}

/// State and first action of a launch.
pub open spec fn launch_start(is_app_updated: bool) -> (LaunchState, LaunchAction) {
    if is_app_updated {
        (LaunchState::UpdateProbe, LaunchAction::ProbePort)
    } else {
        (LaunchState::GateProbe, LaunchAction::ProbePort)
    }
}

/// The transition relation of the launch protocol.
pub open spec fn launch_step(state: LaunchState, event: LaunchEvent) -> (LaunchState, LaunchAction) {
    match (state, event) {
        (LaunchState::UpdateProbe, LaunchEvent::PortProbed { in_use }) => if in_use {
            (
                LaunchState::GraceSleep { polls: 0 },
                LaunchAction::Sleep { seconds: GRACE_POLL_SECONDS },
            )
        } else {
            (LaunchState::GateProbe, LaunchAction::ProbePort)
        },
        (LaunchState::GraceSleep { polls }, LaunchEvent::Slept) => (
            LaunchState::GraceProbe { polls },
            LaunchAction::ProbePort,
        ),
        (LaunchState::GraceProbe { polls }, LaunchEvent::PortProbed { in_use }) => if in_use
            && polls + 1 < GRACE_POLLS {
            (
                LaunchState::GraceSleep { polls: (polls + 1) as u8 },
                LaunchAction::Sleep { seconds: GRACE_POLL_SECONDS },
            )
        } else {
            (LaunchState::GateProbe, LaunchAction::ProbePort)
        },
        (LaunchState::GateProbe, LaunchEvent::PortProbed { in_use }) => if in_use {
            (LaunchState::AwaitChoice, LaunchAction::AskUser)
        } else {
            (LaunchState::Spawning, LaunchAction::Spawn)
        },
        (LaunchState::AwaitChoice, LaunchEvent::Chose { quit }) => if quit {
            (LaunchState::Quit, LaunchAction::Exit { code: QUIT_EXIT_CODE })
        } else {
            (LaunchState::GateProbe, LaunchAction::ProbePort)
        },
        (LaunchState::Spawning, LaunchEvent::Spawned { group_id }) => (
            LaunchState::Guarding { group_id },
            LaunchAction::RegisterWatchdog { group_id },
        ),
        (LaunchState::Spawning, LaunchEvent::SpawnFailed) => (
            LaunchState::Failed,
            LaunchAction::Abort { failure: LaunchFailure::Worker },
        ),
        (LaunchState::Guarding { group_id }, LaunchEvent::WatchdogSpawned) => (
            LaunchState::Running { group_id },
            LaunchAction::WatchWorker { group_id },
        ),
        (LaunchState::Guarding { group_id }, LaunchEvent::WatchdogFailed) => (
            LaunchState::Failed,
            LaunchAction::Abort { failure: LaunchFailure::Watchdog },
        ),
        _ => (state, LaunchAction::Nothing),
    }
}

/// Sleeps the grace period may still ask for from `state`.
pub open spec fn sleeps_left(state: LaunchState) -> nat {
    match state {
        LaunchState::UpdateProbe => GRACE_POLLS as nat,
        LaunchState::GraceSleep { polls } | LaunchState::GraceProbe { polls } => if polls + 1
            < GRACE_POLLS {
            (GRACE_POLLS - 1 - polls) as nat
        } else {
            0
        },
        _ => 0,
    }
}

/// State reached from `state` after `events`, oldest first.
pub open spec fn launch_run(state: LaunchState, events: Seq<LaunchEvent>) -> LaunchState
    decreases events.len(),
{
    if events.len() == 0 {
        state
    } else {
        launch_run(launch_step(state, events.first()).0, events.drop_first())
    }
}

/// Number of sleeps requested while `events` are fed in from `state`.
pub open spec fn sleeps_during(state: LaunchState, events: Seq<LaunchEvent>) -> nat
    decreases events.len(),
{
    if events.len() == 0 {
        0
    } else {
        let (next, action) = launch_step(state, events.first());
        (if action is Sleep {
            1nat
        } else {
            0nat
        }) + sleeps_during(next, events.drop_first())
    }
}

/// Number of spawns requested while `events` are fed in from `state`.
pub open spec fn spawns_during(state: LaunchState, events: Seq<LaunchEvent>) -> nat
    decreases events.len(),
{
    if events.len() == 0 {
        0
    } else {
        let (next, action) = launch_step(state, events.first());
        (if action is Spawn {
            1nat
        } else {
            0nat
        }) + spawns_during(next, events.drop_first())
    }
}

impl LaunchState {
    /// Begins a launch. `is_app_updated` says whether this is the first run
    /// after a self-update, the only case that earns a grace period.
    pub fn start(is_app_updated: bool) -> (begun: (LaunchState, LaunchAction))
        ensures
            begun == launch_start(is_app_updated),
    {
        if is_app_updated {
            (LaunchState::UpdateProbe, LaunchAction::ProbePort)
        } else {
            (LaunchState::GateProbe, LaunchAction::ProbePort)
        }
    }

    /// Advances the protocol by one reported outcome.
    pub fn step(self, event: LaunchEvent) -> (moved: (LaunchState, LaunchAction))
        ensures
            moved == launch_step(self, event),
    {
        match (self, event) {
            (LaunchState::UpdateProbe, LaunchEvent::PortProbed { in_use }) => {
                if in_use {
                    (
                        LaunchState::GraceSleep { polls: 0 },
                        LaunchAction::Sleep { seconds: GRACE_POLL_SECONDS },
                    )
                } else {
                    (LaunchState::GateProbe, LaunchAction::ProbePort)
                }
            },
            (LaunchState::GraceSleep { polls }, LaunchEvent::Slept) => {
                (LaunchState::GraceProbe { polls }, LaunchAction::ProbePort)
            },
            (LaunchState::GraceProbe { polls }, LaunchEvent::PortProbed { in_use }) => {
                if in_use && polls < GRACE_POLLS - 1 {
                    (
                        LaunchState::GraceSleep { polls: polls + 1 },
                        LaunchAction::Sleep { seconds: GRACE_POLL_SECONDS },
                    )
                } else {
                    (LaunchState::GateProbe, LaunchAction::ProbePort)
                }
            },
            (LaunchState::GateProbe, LaunchEvent::PortProbed { in_use }) => {
                if in_use {
                    (LaunchState::AwaitChoice, LaunchAction::AskUser)
                } else {
                    (LaunchState::Spawning, LaunchAction::Spawn)
                }
            },
            (LaunchState::AwaitChoice, LaunchEvent::Chose { quit }) => {
                if quit {
                    (LaunchState::Quit, LaunchAction::Exit { code: QUIT_EXIT_CODE })
                } else {
                    (LaunchState::GateProbe, LaunchAction::ProbePort)
                }
            },
            (LaunchState::Spawning, LaunchEvent::Spawned { group_id }) => {
                (LaunchState::Guarding { group_id }, LaunchAction::RegisterWatchdog { group_id })
            },
            (LaunchState::Spawning, LaunchEvent::SpawnFailed) => {
                (LaunchState::Failed, LaunchAction::Abort { failure: LaunchFailure::Worker })
            },
            (LaunchState::Guarding { group_id }, LaunchEvent::WatchdogSpawned) => {
                (LaunchState::Running { group_id }, LaunchAction::WatchWorker { group_id })
            },
            (LaunchState::Guarding { group_id }, LaunchEvent::WatchdogFailed) => {
                (LaunchState::Failed, LaunchAction::Abort { failure: LaunchFailure::Watchdog })
            },
            _ => (self, LaunchAction::Nothing),
        }
    }

    /// Whether the protocol has ended: the worker runs under guard, the user
    /// quit, or the launch failed.
    pub open spec fn ended(self) -> bool {
        self is Running || self is Quit || self is Failed
    }

    /// Whether the protocol has ended.
    pub fn is_final(&self) -> (ended: bool)
        ensures
            ended == self.ended(),
    {
        match self {
            LaunchState::Running { .. } | LaunchState::Quit | LaunchState::Failed => true,
            _ => false,
        }
    }
}

/// Whether a worker has been asked for, or exists, in `state`.
pub open spec fn past_the_port(state: LaunchState) -> bool {
    state is Spawning || state is Guarding || state is Running || state is Failed
}

/// The worker is never started on a contended port: a spawn is requested
/// exactly in answer to a probe, made at the last moment, that found the port
/// free.
pub proof fn lemma_spawn_only_on_free_port(state: LaunchState, event: LaunchEvent)
    ensures
        launch_step(state, event).1 is Spawn <==> (state is GateProbe && event
            == (LaunchEvent::PortProbed { in_use: false })),
        launch_step(state, event).1 is Spawn ==> launch_step(state, event).0 is Spawning,
{
}

/// The user is asked exactly when the last probe found the port in use, and
/// the shell exits exactly when the user then chooses to quit, with code 0.
/// "Try again" leads to a new probe and to nothing else.
pub proof fn lemma_contention_is_the_users_call(state: LaunchState, event: LaunchEvent)
    ensures
        launch_step(state, event).1 is AskUser <==> (state is GateProbe && event
            == (LaunchEvent::PortProbed { in_use: true })),
        launch_step(state, event).1 is Exit <==> (state is AwaitChoice && event
            == (LaunchEvent::Chose { quit: true })),
        launch_step(state, event).1 is Exit ==> launch_step(state, event)
            == (LaunchState::Quit, LaunchAction::Exit { code: 0 }),
        (state is AwaitChoice && event == (LaunchEvent::Chose { quit: false })) ==> launch_step(
            state,
            event,
        ) == (LaunchState::GateProbe, LaunchAction::ProbePort),
{
}

/// The watchdog is bound to the very process group the spawn reported, as
/// the first thing after the spawn, and the worker is handed to the crash
/// monitor only once its watchdog runs.
pub proof fn lemma_worker_is_guarded_before_it_is_watched(
    state: LaunchState,
    event: LaunchEvent,
    spawned: u32,
)
    ensures
        launch_step(LaunchState::Spawning, LaunchEvent::Spawned { group_id: spawned }) == (
            LaunchState::Guarding { group_id: spawned },
            LaunchAction::RegisterWatchdog { group_id: spawned },
        ),
        launch_step(LaunchState::Guarding { group_id: spawned }, LaunchEvent::WatchdogSpawned) == (
            LaunchState::Running { group_id: spawned },
            LaunchAction::WatchWorker { group_id: spawned },
        ),
        launch_step(state, event).1 matches LaunchAction::RegisterWatchdog { group_id } ==> state
            is Spawning && event == (LaunchEvent::Spawned { group_id }),
        launch_step(state, event).1 matches LaunchAction::WatchWorker { group_id } ==> state == (
        LaunchState::Guarding { group_id }) && event is WatchdogSpawned && launch_step(
            state,
            event,
        ).0 == (LaunchState::Running { group_id }),
        launch_step(state, event).0 is Running ==> state is Running || launch_step(
            state,
            event,
        ).1 is WatchWorker,
{
}

/// A worker or a watchdog that cannot be spawned ends the launch: the shell
/// is never left to run without its worker, or with an unguarded one.
pub proof fn lemma_spawn_failures_are_fatal(state: LaunchState, event: LaunchEvent)
    ensures
        (state is Spawning && event is SpawnFailed) ==> launch_step(state, event) == (
            LaunchState::Failed,
            LaunchAction::Abort { failure: LaunchFailure::Worker },
        ),
        (state is Guarding && event is WatchdogFailed) ==> launch_step(state, event) == (
            LaunchState::Failed,
            LaunchAction::Abort { failure: LaunchFailure::Watchdog },
        ),
        launch_step(state, event).1 is Abort <==> ((state is Spawning && event is SpawnFailed)
            || (state is Guarding && event is WatchdogFailed)),
        launch_step(state, event).0 is Failed <==> (state is Failed || launch_step(
            state,
            event,
        ).1 is Abort),
{
}

/// Whether `event` reports the outcome of `action`.
pub open spec fn answers(action: LaunchAction, event: LaunchEvent) -> bool {
    match action {
        LaunchAction::ProbePort => event is PortProbed,
        LaunchAction::Sleep { .. } => event is Slept,
        LaunchAction::AskUser => event is Chose,
        LaunchAction::Spawn => event is Spawned || event is SpawnFailed,
        LaunchAction::RegisterWatchdog { .. } => event is WatchdogSpawned || event
            is WatchdogFailed,
        LaunchAction::WatchWorker { .. } | LaunchAction::Exit { .. } | LaunchAction::Abort { .. }
        | LaunchAction::Nothing => false,
    }
}

/// Whether `action` asks for a report.
pub open spec fn expects_answer(action: LaunchAction) -> bool {
    action is ProbePort || action is Sleep || action is AskUser || action is Spawn || action
        is RegisterWatchdog
}

/// The protocol is coherent. After an action that expects an answer, the
/// events that are acted upon are exactly the answers to that action, so a
/// caller who reports what it was asked for is never ignored and the launch
/// never stalls; an action that expects none ends the launch.
pub proof fn lemma_answers_are_never_dropped(
    state: LaunchState,
    event: LaunchEvent,
    report: LaunchEvent,
)
    requires
        !(launch_step(state, event).1 is Nothing),
    ensures
        expects_answer(launch_step(state, event).1) ==> (answers(
            launch_step(state, event).1,
            report,
        ) <==> !(launch_step(launch_step(state, event).0, report).1 is Nothing)),
        !expects_answer(launch_step(state, event).1) <==> launch_step(state, event).0.ended(),
{
}

/// The first action of a launch is a probe, and the first state awaits its
/// answer.
pub proof fn lemma_start_awaits_a_probe(is_app_updated: bool, report: LaunchEvent)
    ensures
        launch_start(is_app_updated).1 is ProbePort,
        report is PortProbed <==> !(launch_step(launch_start(is_app_updated).0, report).1
            is Nothing),
{
}

/// Final states absorb every event and ask for nothing more.
pub proof fn lemma_final_states_absorb(state: LaunchState, event: LaunchEvent)
    requires
        state.ended(),
    ensures
        launch_step(state, event) == (state, LaunchAction::Nothing),
{
}

/// Each requested sleep uses up one of the sleeps left; no step adds any.
/// Every sleep is of one second.
pub proof fn lemma_step_spends_sleeps(state: LaunchState, event: LaunchEvent)
    ensures
        launch_step(state, event).1 is Sleep ==> sleeps_left(launch_step(state, event).0) + 1
            == sleeps_left(state),
        sleeps_left(launch_step(state, event).0) <= sleeps_left(state),
        launch_step(state, event).1 is Sleep ==> launch_step(state, event).1
            == (LaunchAction::Sleep { seconds: 1 }),
{
}

/// The grace period is bounded: whatever is reported, and in whatever order,
/// a launch sleeps at most as often as its state has sleeps left.
pub proof fn lemma_sleeps_bounded(state: LaunchState, events: Seq<LaunchEvent>)
    ensures
        sleeps_during(state, events) <= sleeps_left(state),
    decreases events.len(),
{
    if events.len() > 0 {
        lemma_step_spends_sleeps(state, events.first());
        lemma_sleeps_bounded(launch_step(state, events.first()).0, events.drop_first());
    }
}

/// A launch sleeps at most ten times, and never unless the shell was just
/// updated.
pub proof fn lemma_grace_period_bounded(is_app_updated: bool, events: Seq<LaunchEvent>)
    ensures
        sleeps_during(launch_start(is_app_updated).0, events) <= 10,
        !is_app_updated ==> sleeps_during(launch_start(is_app_updated).0, events) == 0,
{
    lemma_sleeps_bounded(launch_start(is_app_updated).0, events);
}

/// Once a worker has been asked for, the launch never goes back to the port.
pub proof fn lemma_no_way_back_to_the_port(state: LaunchState, event: LaunchEvent)
    requires
        past_the_port(state),
    ensures
        past_the_port(launch_step(state, event).0),
        !(launch_step(state, event).1 is Spawn),
{
}

/// At most one worker is started per launch, whatever is reported: no two
/// workers of one shell are ever alive together.
pub proof fn lemma_at_most_one_spawn(state: LaunchState, events: Seq<LaunchEvent>)
    ensures
        spawns_during(state, events) <= 1,
        past_the_port(state) || state is Quit ==> spawns_during(state, events) == 0,
    decreases events.len(),
{
    if events.len() > 0 {
        let next = launch_step(state, events.first()).0;
        lemma_no_way_back_to_the_port(LaunchState::Spawning, events.first());
        if past_the_port(state) {
            lemma_no_way_back_to_the_port(state, events.first());
        }
        lemma_at_most_one_spawn(next, events.drop_first());
    }
}

} // verus!
