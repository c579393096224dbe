use berth::cli::Action;
use berth::docker::{command_outcome, count_lines, enter_outcome, DockerError, DockerHandler};
use berth::environment::Environment;
use berth::lifecycle::{ContainerState, Event, Lifecycle, Operation, Phase, RunKind};

fn sample_environment() -> Environment {
    Environment {
        name: "berth-Env-0123456789abcdef".to_string(),
        original_name: "Env".to_string(),
        image: "alpine:edge".to_string(),
        dockerfile: None,
        build_context: None,
        entry_cmd: "sh -c 'echo hi'".to_string(),
        entry_options: vec!["-it".to_string()],
        exec_cmds: vec!["apk add git".to_string()],
        exec_options: vec!["-u root".to_string()],
        create_options: vec!["-v /a:/b".to_string(), "--rm".to_string()],
        cp_cmds: Vec::new(),
    }
}

#[test]
fn two_terminal_lines_mean_no_one_is_connected() {
    assert!(!DockerHandler::is_anyone_connected(b"0\nptmx\n"));
    assert!(!DockerHandler::is_anyone_connected(b"0\nptmx"));
}

#[test]
fn three_terminal_lines_mean_someone_is_connected() {
    assert!(DockerHandler::is_anyone_connected(b"0\n1\nptmx\n"));
    assert!(DockerHandler::is_anyone_connected(b"0\n1\n2\nptmx\n"));
}

#[test]
fn lines_are_counted_like_str_lines() {
    assert_eq!(count_lines(b""), 0usize);
    assert_eq!(count_lines(b"a"), 1);
    assert_eq!(count_lines(b"a\n"), 1);
    assert_eq!(count_lines(b"a\nb"), 2);
    assert_eq!(count_lines(b"\n\n"), 2);
}

#[test]
fn enter_exit_codes_are_classified() {
    assert!(enter_outcome(Some(0)).is_ok());
    assert!(enter_outcome(Some(130)).is_ok());
    assert!(enter_outcome(Some(1)).is_ok());
    match enter_outcome(Some(125)) {
        Err(DockerError::EnteringContainer(m)) => assert_eq!(m, "Docker exec failed to run"),
        _ => panic!("125 is a failure"),
    }
    match enter_outcome(Some(126)) {
        Err(DockerError::EnteringContainer(m)) => assert_eq!(m, "Command cannot execute"),
        _ => panic!("126 is a failure"),
    }
    match enter_outcome(Some(127)) {
        Err(DockerError::EnteringContainer(m)) => assert_eq!(m, "Command not found"),
        _ => panic!("127 is a failure"),
    }
    assert!(enter_outcome(None).is_ok());
}

#[test]
fn command_outcomes_are_classified() {
    assert!(command_outcome("docker ps".to_string(), Some(0), String::new()).is_ok());
    match command_outcome("docker ps".to_string(), Some(2), "boom".to_string()) {
        Err(DockerError::CommandExitCode { cmd, stderr }) => {
            assert_eq!(cmd, "docker ps");
            assert_eq!(stderr, "boom");
        }
        _ => panic!("a nonzero code is a failure"),
    }
    match command_outcome("docker ps".to_string(), None, String::new()) {
        Err(DockerError::CommandKilled(cmd)) => assert_eq!(cmd, "docker ps"),
        _ => panic!("a signal is a failure"),
    }
}

#[test]
fn running_state_is_recognised() {
    assert!(DockerHandler::is_container_running("running"));
    assert!(!DockerHandler::is_container_running("exited"));
}

#[test]
fn create_arguments_split_options() {
    let handler = DockerHandler::new(sample_environment());
    let args = handler.create_args().unwrap();
    assert_eq!(
        args,
        vec![
            "create",
            "--name",
            "berth-Env-0123456789abcdef",
            "-v",
            "/a:/b",
            "--rm",
            "alpine:edge",
            "tail",
            "-f",
            "/dev/null"
        ]
    );
}

#[test]
fn exec_and_enter_arguments() {
    let handler = DockerHandler::new(sample_environment());
    assert_eq!(
        handler.setup_args(0).unwrap(),
        vec!["exec", "-u", "root", "berth-Env-0123456789abcdef", "apk", "add", "git"]
    );
    assert_eq!(
        handler.enter_args().unwrap(),
        vec!["exec", "-it", "berth-Env-0123456789abcdef", "sh", "-c", "echo hi"]
    );
    assert_eq!(
        handler.sessions_args(),
        vec!["exec", "berth-Env-0123456789abcdef", "ls", "/dev/pts"]
    );
    assert!(handler.build_args().is_none());
}

#[test]
fn unbalanced_quotes_are_an_error() {
    let mut env = sample_environment();
    env.entry_cmd = "sh -c 'unterminated".to_string();
    let handler = DockerHandler::new(env);
    assert!(matches!(handler.enter_args(), Err(DockerError::ShellWords(_))));
}

#[test]
fn command_text_quotes_words() {
    let args = vec!["exec".to_string(), "a b".to_string()];
    assert_eq!(DockerHandler::command_text(&args), "docker exec 'a b'");
}

#[test]
fn image_needs_building_only_with_a_dockerfile_and_no_image() {
    let mut env = sample_environment();
    let handler = DockerHandler::new(sample_environment());
    assert!(!handler.does_image_need_building(0));
    env.dockerfile = Some("/d/Dockerfile".to_string());
    env.build_context = Some("/d".to_string());
    let handler = DockerHandler::new(env);
    assert!(handler.does_image_need_building(0));
    assert!(!handler.does_image_need_building(1));
    assert_eq!(
        handler.build_args().unwrap(),
        vec!["build", "-t", "alpine:edge", "-f", "/d/Dockerfile", "/d"]
    );
}

/// A container runtime for one name: how many containers carry it and
/// whether it runs.
struct FakeRuntime {
    containers: usize,
    running: bool,
}

impl FakeRuntime {
    fn respond(&mut self, op: Operation) -> Event {
        match op {
            Operation::Inspect => Event::Container(if self.containers == 0 {
                ContainerState::Absent
            } else if self.running {
                ContainerState::Running
            } else {
                ContainerState::Stopped
            }),
            Operation::Remove => {
                if self.running {
                    Event::Failed
                } else {
                    self.containers = 0;
                    Event::Succeeded
                }
            }
            Operation::Run(RunKind::Create) => {
                if self.containers == 0 {
                    self.containers = 1;
                    Event::Succeeded
                } else {
                    Event::Failed
                }
            }
            Operation::Start => {
                self.running = true;
                Event::Succeeded
            }
            Operation::Stop => {
                self.running = false;
                Event::Succeeded
            }
            Operation::ListImages => Event::Images(0),
            Operation::Run(RunKind::CountSessions) => Event::Attached(false),
            _ => Event::Succeeded,
        }
    }
}

fn run_build(runtime: &mut FakeRuntime) -> (Lifecycle, Vec<Operation>) {
    let (mut state, mut op) = Lifecycle::start(Action::Build, false, true, 1);
    let mut ops = vec![op];
    while op != Operation::Finish {
        let event = runtime.respond(op);
        let next = state.step(event);
        state = next.0;
        op = next.1;
        ops.push(op);
    }
    (state, ops)
}

#[test]
fn build_runs_in_order() {
    let mut runtime = FakeRuntime { containers: 0, running: false };
    let (state, ops) = run_build(&mut runtime);
    assert_eq!(
        ops,
        vec![
            Operation::ListImages,
            Operation::Run(RunKind::Build),
            Operation::Inspect,
            Operation::Run(RunKind::Create),
            Operation::Start,
            Operation::Run(RunKind::Setup(0)),
            Operation::Inspect,
            Operation::Stop,
            Operation::Finish,
        ]
    );
    assert!(!state.failed);
    assert_eq!(state.phase, Phase::Done);
    assert_eq!(runtime.containers, 1);
}

#[test]
fn ensuring_twice_leaves_one_container() {
    let mut runtime = FakeRuntime { containers: 0, running: false };
    run_build(&mut runtime);
    run_build(&mut runtime);
    assert_eq!(runtime.containers, 1);
}

#[test]
fn a_failed_step_stops_and_removes_the_container() {
    let (state, op) = Lifecycle::start(Action::Up, false, false, 0);
    assert_eq!(op, Operation::Inspect);
    let (state, op) = state.step(Event::Container(ContainerState::Running));
    assert_eq!(op, Operation::Start);
    let (state, op) = state.step(Event::Failed);
    assert_eq!(op, Operation::Inspect);
    let (state, op) = state.step(Event::Container(ContainerState::Running));
    assert_eq!(op, Operation::Stop);
    let (state, op) = state.step(Event::Succeeded);
    assert_eq!(op, Operation::Inspect);
    let (state, op) = state.step(Event::Container(ContainerState::Stopped));
    assert_eq!(op, Operation::Remove);
    let (state, op) = state.step(Event::Succeeded);
    assert_eq!(op, Operation::Finish);
    assert!(state.failed);
}

#[test]
fn up_leaves_the_container_running_while_someone_is_attached() {
    let (state, _) = Lifecycle::start(Action::Up, false, false, 0);
    let (state, op) = state.step(Event::Container(ContainerState::Stopped));
    assert_eq!(op, Operation::Start);
    let (state, op) = state.step(Event::Succeeded);
    assert_eq!(op, Operation::Enter);
    let (state, op) = state.step(Event::Succeeded);
    assert_eq!(op, Operation::Run(RunKind::CountSessions));
    let (state, op) = state.step(Event::Attached(true));
    assert_eq!(op, Operation::Finish);
    assert!(!state.failed);
}

#[test]
fn view_needs_no_runtime() {
    let (_, op) = Lifecycle::start(Action::View, false, false, 0);
    assert_eq!(op, Operation::Finish);
}
