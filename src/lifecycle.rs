//! The decisions of the container lifecycle, as a state machine: each
//! outcome reported by the runtime leads to the next state and the next
//! operation to perform. Building precedes creating, a stale container is
//! removed before one is created, creating precedes starting, starting
//! precedes the setup commands, and those precede entering. A failure
//! stops and removes the container before the run ends.

use vstd::prelude::*;
use crate::cli::Action;

verus! {

/// Where the lifecycle stands, and what outcome it waits for.
#[derive(Clone, Copy, Debug, PartialEq, Eq, Structural)]
pub enum Phase {
    CheckExisting,
    CheckImages,
    Building,
    CheckStale,
    Removing,
    Creating,
    Starting,
    Setup(usize),
    Restarting,
    Entering,
    CountingSessions,
    CheckRunning,
    Stopping,
    CleanupCheck,
    CleanupRemoving,
    FailStopCheck,
    FailStopping,
    FailRemoveCheck,
    FailRemoving,
    Done,
}

/// The state of the named container, as the runtime lists it.
#[derive(Clone, Copy, Debug, PartialEq, Eq, Structural)]
pub enum ContainerState {
    Absent,
    Stopped,
    Running,
}

/// What the runtime reported for the last operation.
#[derive(Clone, Copy, Debug, PartialEq, Eq, Structural)]
pub enum Event {
    /// The container's state, for an inspection.
    Container(ContainerState),
    /// How many images carry the resolved image name.
    Images(usize),
    /// Whether a session is still attached to the container.
    Attached(bool),
    /// The operation succeeded.
    Succeeded,
    /// The operation failed.
    Failed,
}

/// A command line to run with `docker`.
#[derive(Clone, Copy, Debug, PartialEq, Eq, Structural)]
pub enum RunKind {
    Build,
    Create,
    Setup(usize),
    CountSessions,
}

/// The next operation on the runtime.
#[derive(Clone, Copy, Debug, PartialEq, Eq, Structural)]
pub enum Operation {
    /// List the container by name.
    Inspect,
    /// List the images by the resolved image name.
    ListImages,
    Run(RunKind),
    /// Run the entry command attached to the terminal.
    Enter,
    Remove,
    Start,
    /// Stop the container at once.
    Stop,
    /// Nothing more: the run is over.
    Finish,
}

/// One run of the lifecycle for one action.
#[derive(Clone, Copy, Debug, PartialEq, Eq, Structural)]
pub struct Lifecycle {
    pub action: Action,
    pub cleanup: bool,
    pub has_dockerfile: bool,
    pub setup_count: usize,
    pub phase: Phase,
    /// Whether an operation of the run failed.
    pub failed: bool,
}

/// Creating a new environment begins with the image where a Dockerfile is
/// declared, and otherwise with the stale container.
pub open spec fn begin_create(s: Lifecycle) -> (Lifecycle, Operation) {
    if s.has_dockerfile {
        (Lifecycle { phase: Phase::CheckImages, ..s }, Operation::ListImages)
    } else {
        (Lifecycle { phase: Phase::CheckStale, ..s }, Operation::Inspect)
    }
}

/// After the setup commands, `up` enters the container and `build` stops it.
pub open spec fn after_setup(s: Lifecycle) -> (Lifecycle, Operation) {
    match s.action {
        Action::Up => (Lifecycle { phase: Phase::Entering, ..s }, Operation::Enter),
        _ => (Lifecycle { phase: Phase::CheckRunning, ..s }, Operation::Inspect),
    }
}

/// The setup command `k`, or what follows the last one.
pub open spec fn setup_from(s: Lifecycle, k: usize) -> (Lifecycle, Operation) {
    if k < s.setup_count {
        (Lifecycle { phase: Phase::Setup(k), ..s }, Operation::Run(RunKind::Setup(k)))
    } else {
        after_setup(s)
    }
}

/// A run that succeeded ends, removing the container first if asked to.
pub open spec fn finish_ok(s: Lifecycle) -> (Lifecycle, Operation) {
    if s.cleanup {
        (Lifecycle { phase: Phase::CleanupCheck, ..s }, Operation::Inspect)
    } else {
        (Lifecycle { phase: Phase::Done, ..s }, Operation::Finish)
    }
}

/// A failure stops and removes the container before the run ends.
pub open spec fn fail(s: Lifecycle) -> (Lifecycle, Operation) {
    (Lifecycle { phase: Phase::FailStopCheck, failed: true, ..s }, Operation::Inspect)
}

pub open spec fn done(s: Lifecycle, failed: bool) -> (Lifecycle, Operation) {
    (Lifecycle { phase: Phase::Done, failed: failed, ..s }, Operation::Finish)
}

/// The state and operation after the outcome `e`.
pub open spec fn transition(s: Lifecycle, e: Event) -> (Lifecycle, Operation) {
    match s.phase {
        Phase::CheckExisting => match e {
            Event::Container(ContainerState::Absent) => begin_create(s),
            Event::Container(_) => (Lifecycle { phase: Phase::Restarting, ..s }, Operation::Start),
            _ => fail(s),
        },
        Phase::CheckImages => match e {
            Event::Images(n) => if n == 0 {
                (Lifecycle { phase: Phase::Building, ..s }, Operation::Run(RunKind::Build))
            } else {
                (Lifecycle { phase: Phase::CheckStale, ..s }, Operation::Inspect)
            },
            _ => fail(s),
        },
        Phase::Building => match e {
            Event::Succeeded => (Lifecycle { phase: Phase::CheckStale, ..s }, Operation::Inspect),
            _ => fail(s),
        },
        Phase::CheckStale => match e {
            Event::Container(ContainerState::Absent) => (
                Lifecycle { phase: Phase::Creating, ..s },
                Operation::Run(RunKind::Create),
            ),
            Event::Container(_) => (Lifecycle { phase: Phase::Removing, ..s }, Operation::Remove),
            _ => fail(s),
        },
        Phase::Removing => match e {
            Event::Succeeded => (Lifecycle { phase: Phase::Creating, ..s }, Operation::Run(RunKind::Create)),
            _ => fail(s),
        },
        Phase::Creating => match e {
            Event::Succeeded => (Lifecycle { phase: Phase::Starting, ..s }, Operation::Start),
            _ => fail(s),
        },
        Phase::Starting => match e {
            Event::Succeeded => setup_from(s, 0),
            _ => fail(s),
        },
        Phase::Setup(k) => match e {
            Event::Succeeded => if k < usize::MAX {
                setup_from(s, (k + 1) as usize)
            } else {
                after_setup(s)
            },
            _ => fail(s),
        },
        Phase::Restarting => match e {
            Event::Succeeded => (Lifecycle { phase: Phase::Entering, ..s }, Operation::Enter),
            _ => fail(s),
        },
        Phase::Entering => match e {
            Event::Succeeded => (
                Lifecycle { phase: Phase::CountingSessions, ..s },
                Operation::Run(RunKind::CountSessions),
            ),
            _ => fail(s),
        },
        Phase::CountingSessions => match e {
            Event::Attached(attached) => if attached {
                finish_ok(s)
            } else {
                (Lifecycle { phase: Phase::CheckRunning, ..s }, Operation::Inspect)
            },
            _ => fail(s),
        },
        Phase::CheckRunning => match e {
            Event::Container(ContainerState::Running) => (Lifecycle { phase: Phase::Stopping, ..s }, Operation::Stop),
            Event::Container(_) => finish_ok(s),
            _ => fail(s),
        },
        Phase::Stopping => match e {
            Event::Succeeded => finish_ok(s),
            _ => fail(s),
        },
        Phase::CleanupCheck => match e {
            Event::Container(ContainerState::Absent) => done(s, s.failed),
            Event::Container(_) => (Lifecycle { phase: Phase::CleanupRemoving, ..s }, Operation::Remove),
            _ => done(s, true),
        },
        Phase::CleanupRemoving => match e {
            Event::Succeeded => done(s, s.failed),
            _ => done(s, true),
        },
        Phase::FailStopCheck => match e {
            Event::Container(ContainerState::Running) => (
                Lifecycle { phase: Phase::FailStopping, ..s },
                Operation::Stop,
            ),
            _ => (Lifecycle { phase: Phase::FailRemoveCheck, ..s }, Operation::Inspect),
        },
        Phase::FailStopping => (Lifecycle { phase: Phase::FailRemoveCheck, ..s }, Operation::Inspect),
        Phase::FailRemoveCheck => match e {
            Event::Container(ContainerState::Stopped) => (
                Lifecycle { phase: Phase::FailRemoving, ..s },
                Operation::Remove,
            ),
            Event::Container(ContainerState::Running) => (
                Lifecycle { phase: Phase::FailRemoving, ..s },
                Operation::Remove,
            ),
            _ => done(s, true),
        },
        Phase::FailRemoving => done(s, true),
        Phase::Done => done(s, s.failed),
    }
}

/// The first state and operation of a run of `action`: `view` needs no
/// runtime, `up` first looks for the container, and `build` creates a new
/// environment.
pub open spec fn initial(action: Action, cleanup: bool, has_dockerfile: bool, setup_count: usize) -> (
    Lifecycle,
    Operation,
) {
    let s = Lifecycle {
        action,
        cleanup,
        has_dockerfile,
        setup_count,
        phase: Phase::CheckExisting,
        failed: false,
    };
    match action {
        Action::View => done(s, false),
        Action::Up => (s, Operation::Inspect),
        Action::Build => begin_create(s),
    }
}

impl Lifecycle {
    /// The first state and operation, as `initial` gives them.
    pub fn start(action: Action, cleanup: bool, has_dockerfile: bool, setup_count: usize) -> (r: (
        Lifecycle,
        Operation,
    ))
        ensures
            r == initial(action, cleanup, has_dockerfile, setup_count),
    {
        let s = Lifecycle {
            action,
            cleanup,
            has_dockerfile,
            setup_count,
            phase: Phase::CheckExisting,
            failed: false,
        };
        match action {
            Action::View => (Lifecycle { phase: Phase::Done, failed: false, ..s }, Operation::Finish),
            Action::Up => (s, Operation::Inspect),
            Action::Build => s.begin_create(),
        }
    }

    fn begin_create(self) -> (r: (Lifecycle, Operation))
        ensures
            r == begin_create(self),
    {
        if self.has_dockerfile {
            (Lifecycle { phase: Phase::CheckImages, ..self }, Operation::ListImages)
        } else {
            (Lifecycle { phase: Phase::CheckStale, ..self }, Operation::Inspect)
        }
    }

    fn after_setup(self) -> (r: (Lifecycle, Operation))
        ensures
            r == after_setup(self),
    {
        match self.action {
            Action::Up => (Lifecycle { phase: Phase::Entering, ..self }, Operation::Enter),
            _ => (Lifecycle { phase: Phase::CheckRunning, ..self }, Operation::Inspect),
        }
    }

    fn setup_from(self, k: usize) -> (r: (Lifecycle, Operation))
        ensures
            r == setup_from(self, k),
    {
        if k < self.setup_count {
            (Lifecycle { phase: Phase::Setup(k), ..self }, Operation::Run(RunKind::Setup(k)))
        } else {
            self.after_setup()
        }
    }

    fn finish_ok(self) -> (r: (Lifecycle, Operation))
        ensures
            r == finish_ok(self),
    {
        if self.cleanup {
            (Lifecycle { phase: Phase::CleanupCheck, ..self }, Operation::Inspect)
        } else {
            (Lifecycle { phase: Phase::Done, ..self }, Operation::Finish)
        }
    }

    fn fail(self) -> (r: (Lifecycle, Operation))
        ensures
            r == fail(self),
    {
        (Lifecycle { phase: Phase::FailStopCheck, failed: true, ..self }, Operation::Inspect)
    }

    fn done(self, failed: bool) -> (r: (Lifecycle, Operation))
        ensures
            r == done(self, failed),
    {
        (Lifecycle { phase: Phase::Done, failed, ..self }, Operation::Finish)
    }

    /// The next state and operation after the outcome `e`, as `transition`
    /// gives them.
    pub fn step(self, e: Event) -> (r: (Lifecycle, Operation))
        ensures
            r == transition(self, e),
    {
        match self.phase {
            Phase::CheckExisting => match e {
                Event::Container(ContainerState::Absent) => self.begin_create(),
                Event::Container(_) => (Lifecycle { phase: Phase::Restarting, ..self }, Operation::Start),
                _ => self.fail(),
            },
            Phase::CheckImages => match e {
                Event::Images(n) => if n == 0 {
                    (Lifecycle { phase: Phase::Building, ..self }, Operation::Run(RunKind::Build))
                } else {
                    (Lifecycle { phase: Phase::CheckStale, ..self }, Operation::Inspect)
                },
                _ => self.fail(),
            },
            Phase::Building => match e {
                Event::Succeeded => (Lifecycle { phase: Phase::CheckStale, ..self }, Operation::Inspect),
                _ => self.fail(),
            },
            Phase::CheckStale => match e {
                Event::Container(ContainerState::Absent) => (
                    Lifecycle { phase: Phase::Creating, ..self },
                    Operation::Run(RunKind::Create),
                ),
                Event::Container(_) => (Lifecycle { phase: Phase::Removing, ..self }, Operation::Remove),
                _ => self.fail(),
            },
            Phase::Removing => match e {
                Event::Succeeded => (
                    Lifecycle { phase: Phase::Creating, ..self },
                    Operation::Run(RunKind::Create),
                ),
                _ => self.fail(),
            },
            Phase::Creating => match e {
                Event::Succeeded => (Lifecycle { phase: Phase::Starting, ..self }, Operation::Start),
                _ => self.fail(),
            },
            Phase::Starting => match e {
                Event::Succeeded => self.setup_from(0),
                _ => self.fail(),
            },
            Phase::Setup(k) => match e {
                Event::Succeeded => if k < usize::MAX {
                    self.setup_from(k + 1)
                } else {
                    self.after_setup()
                },
                _ => self.fail(),
            },
            Phase::Restarting => match e {
                Event::Succeeded => (Lifecycle { phase: Phase::Entering, ..self }, Operation::Enter),
                _ => self.fail(),
            },
            Phase::Entering => match e {
                Event::Succeeded => (
                    Lifecycle { phase: Phase::CountingSessions, ..self },
                    Operation::Run(RunKind::CountSessions),
                ),
                _ => self.fail(),
            },
            Phase::CountingSessions => match e {
                Event::Attached(attached) => if attached {
                    self.finish_ok()
                } else {
                    (Lifecycle { phase: Phase::CheckRunning, ..self }, Operation::Inspect)
                },
                _ => self.fail(),
            },
            Phase::CheckRunning => match e {
                Event::Container(ContainerState::Running) => (
                    Lifecycle { phase: Phase::Stopping, ..self },
                    Operation::Stop,
                ),
                Event::Container(_) => self.finish_ok(),
                _ => self.fail(),
            },
            Phase::Stopping => match e {
                Event::Succeeded => self.finish_ok(),
                _ => self.fail(),
            },
            Phase::CleanupCheck => match e {
                Event::Container(ContainerState::Absent) => self.done(self.failed),
                Event::Container(_) => (
                    Lifecycle { phase: Phase::CleanupRemoving, ..self },
                    Operation::Remove,
                ),
                _ => self.done(true),
            },
            Phase::CleanupRemoving => match e {
                Event::Succeeded => self.done(self.failed),
                _ => self.done(true),
            },
            Phase::FailStopCheck => match e {
                Event::Container(ContainerState::Running) => (
                    Lifecycle { phase: Phase::FailStopping, ..self },
                    Operation::Stop,
                ),
                _ => (Lifecycle { phase: Phase::FailRemoveCheck, ..self }, Operation::Inspect),
            },
            Phase::FailStopping => (Lifecycle { phase: Phase::FailRemoveCheck, ..self }, Operation::Inspect),
            Phase::FailRemoveCheck => match e {
                Event::Container(ContainerState::Stopped) => (
                    Lifecycle { phase: Phase::FailRemoving, ..self },
                    Operation::Remove,
                ),
                Event::Container(ContainerState::Running) => (
                    Lifecycle { phase: Phase::FailRemoving, ..self },
                    Operation::Remove,
                ),
                _ => self.done(true),
            },
            Phase::FailRemoving => self.done(true),
            Phase::Done => self.done(self.failed),
        }
    }
}

/// The runtime as far as one container name goes: how many containers carry
/// it, and whether that container runs.
pub ghost struct Runtime {
    pub containers: nat,
    pub running: bool,
}

/// How the runtime answers an operation: an inspection reports the state, a
/// removal fails on a running container, a creation fails where the name is
/// taken, and starting needs a container.
pub open spec fn respond(rt: Runtime, op: Operation) -> (Runtime, Event) {
    match op {
        Operation::Inspect => (
            rt,
            Event::Container(
                if rt.containers == 0 {
                    ContainerState::Absent
                } else if rt.running {
                    ContainerState::Running
                } else {
                    ContainerState::Stopped
                },
            ),
        ),
        Operation::Remove => if rt.running {
            (rt, Event::Failed)
        } else {
            (Runtime { containers: 0, running: false }, Event::Succeeded)
        },
        Operation::Run(RunKind::Create) => if rt.containers == 0 {
            (Runtime { containers: 1, running: false }, Event::Succeeded)
        } else {
            (rt, Event::Failed)
        },
        Operation::Start => if rt.containers > 0 {
            (Runtime { running: true, ..rt }, Event::Succeeded)
        } else {
            (rt, Event::Failed)
        },
        Operation::Stop => (Runtime { running: false, ..rt }, Event::Succeeded),
        _ => (rt, Event::Succeeded),
    }
}

/// The lifecycle and the runtime after at most `fuel` operations, stopping
/// where the container is about to be started.
pub open spec fn run_until_start(s: Lifecycle, rt: Runtime, op: Operation, fuel: nat) -> (Lifecycle, Runtime, Operation)
    decreases fuel,
{
    if fuel == 0 || s.phase == Phase::Starting {
        (s, rt, op)
    } else {
        let (rt2, e) = respond(rt, op);
        let (s2, op2) = transition(s, e);
        run_until_start(s2, rt2, op2, (fuel - 1) as nat)
    }
}

/// Ensuring the container exists: from the check for a stale container,
/// remove it if there is one, then create a new one.
pub open spec fn ensure_container(s: Lifecycle, rt: Runtime) -> (Lifecycle, Runtime, Operation) {
    run_until_start(Lifecycle { phase: Phase::CheckStale, ..s }, rt, Operation::Inspect, 3)
}

/// Ensuring the container exists leaves exactly one container of its name,
/// created and about to be started, whether or not a stopped one was left
/// over.
pub proof fn lemma_ensure_leaves_one(s: Lifecycle, rt: Runtime)
    requires
        rt.containers <= 1,
        !rt.running,
    ensures
        ensure_container(s, rt).1.containers == 1,
        ensure_container(s, rt).0.phase == Phase::Starting,
        ensure_container(s, rt).2 == Operation::Start,
        !ensure_container(s, rt).1.running,
        !ensure_container(s, rt).0.failed || s.failed,
{
    let s0 = Lifecycle { phase: Phase::CheckStale, ..s };
    let (rt1, e1) = respond(rt, Operation::Inspect);
    let (s1, op1) = transition(s0, e1);
    let (rt2, e2) = respond(rt1, op1);
    let (s2, op2) = transition(s1, e2);
    assert(ensure_container(s, rt) == run_until_start(s1, rt1, op1, 2));
    assert(run_until_start(s1, rt1, op1, 2) == run_until_start(s2, rt2, op2, 1));
    if rt.containers == 0 {
        assert(s1.phase == Phase::Creating);
        assert(s2.phase == Phase::Starting);
        assert(run_until_start(s2, rt2, op2, 1) == (s2, rt2, op2));
    } else {
        assert(s1.phase == Phase::Removing);
        assert(s2.phase == Phase::Creating);
        let (rt3, e3) = respond(rt2, op2);
        let (s3, op3) = transition(s2, e3);
        assert(run_until_start(s2, rt2, op2, 1) == run_until_start(s3, rt3, op3, 0));
        assert(s3.phase == Phase::Starting);
        assert(run_until_start(s3, rt3, op3, 0) == (s3, rt3, op3));
    }
}

/// Ensuring the container twice in a row, as a run that finds a leftover
/// from an earlier one does, still leaves exactly one container.
pub proof fn lemma_ensure_twice_leaves_one(s: Lifecycle, rt: Runtime)
    requires
        rt.containers <= 1,
        !rt.running,
    ensures
        ({
            let first = ensure_container(s, rt);
            ensure_container(first.0, first.1).1.containers == 1
        }),
{
    lemma_ensure_leaves_one(s, rt);
    let first = ensure_container(s, rt);
    lemma_ensure_leaves_one(first.0, first.1);
}

} // verus!
