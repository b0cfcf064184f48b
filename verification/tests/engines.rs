use dfaudit::container::docker::Docker;
use dfaudit::container::podman::Podman;
use dfaudit::container::session::{EngineAction, EngineEvent, Invocation, Operation};
use dfaudit::container::{select_engine, EngineChoice};

fn exited(success: bool, stdout: &[u8], stderr: &[u8]) -> EngineEvent {
    EngineEvent::Exited {
        success,
        status: if success { "exit status: 0".into() } else { "exit status: 1".into() },
        stdout: stdout.to_vec(),
        stderr: stderr.to_vec(),
    }
}

fn invocation(a: &EngineAction) -> (&Invocation, bool) {
    match a {
        EngineAction::Status(i) => (i, false),
        EngineAction::Capture(i) => (i, true),
        EngineAction::Finish(_) => panic!("finished early"),
    }
}

fn finish(a: EngineAction) -> Result<Vec<u8>, String> {
    match a {
        EngineAction::Finish(r) => r,
        _ => panic!("not finished"),
    }
}

#[test]
fn docker_build_checks_install_then_builds() {
    let docker = Docker::new(0);
    let (s, a) = docker.start(Operation::Build("dir/Dockerfile".into()));
    let (i, capture) = invocation(&a);
    assert_eq!((i.program.as_str(), i.args.clone(), i.silence, capture), ("docker", vec!["--version".to_string()], true, false));
    let (s, a) = s.step(exited(true, b"", b""));
    let (i, _) = invocation(&a);
    assert_eq!(i.args, vec!["build", "-t", "temp-image", "--format", "docker", "-f", "dir/Dockerfile"]);
    let (s, a) = s.step(exited(false, b"", b""));
    assert!(s.is_done());
    assert_eq!(finish(a), Err("Docker build failed.".into()));
}

#[test]
fn docker_missing_ends_the_operation() {
    let (s, _) = Docker::new(3).start(Operation::Build("Dockerfile".into()));
    let (s, a) = s.step(exited(false, b"", b""));
    assert!(s.is_done());
    assert_eq!(finish(a), Err("Docker is not installed or is unavailable.".into()));
    let (s, _) = Docker::new(3).start(Operation::Run("img".into(), vec![]));
    let (_, a) = s.step(EngineEvent::SpawnFailed("No such file or directory (os error 2)".into()));
    assert_eq!(finish(a), Err("No such file or directory (os error 2)".into()));
}

#[test]
fn docker_run_returns_output_or_error_stream() {
    let (s, _) = Docker::new(2).start(Operation::Run("img".into(), vec!["echo".into(), "hi".into()]));
    let (s, a) = s.step(exited(true, b"", b""));
    let (i, capture) = invocation(&a);
    assert!(capture && !i.silence);
    assert_eq!(i.args, vec!["run", "--rm", "img", "echo", "hi"]);
    let (_, a) = s.step(exited(true, b"hi\n", b""));
    assert_eq!(finish(a), Ok(b"hi\n".to_vec()));
    let (s, _) = Docker::new(2).start(Operation::Run("img".into(), vec![]));
    let (s, _) = s.step(exited(true, b"", b""));
    let (_, a) = s.step(exited(false, b"", b"no such image\xff"));
    assert_eq!(finish(a), Err("no such image\u{fffd}".into()));
}

#[test]
fn docker_remove_and_clean_skip_the_install_check() {
    let (s, a) = Docker::new(1).start(Operation::Remove("temp-image".into()));
    let (i, _) = invocation(&a);
    assert_eq!(i.args, vec!["rmi", "temp-image", "--force"]);
    assert!(i.silence);
    let (_, a) = s.step(exited(false, b"", b""));
    assert_eq!(finish(a), Err("Failed to remove temporary image.".into()));
    let (s, a) = Docker::new(2).start(Operation::Clean);
    let (i, _) = invocation(&a);
    assert_eq!(i.args, vec!["system", "prune", "-af"]);
    assert!(!i.silence);
    let (_, a) = s.step(exited(false, b"", b""));
    assert_eq!(finish(a), Err("docker system prune failed with status: exit status: 1".into()));
}

#[test]
fn podman_on_linux_needs_no_machine() {
    let (s, a) = Podman::new(0).start(Operation::Build("Containerfile".into()), "linux");
    assert_eq!(invocation(&a).0.args, vec!["--version"]);
    let (s, a) = s.step(exited(true, b"", b""));
    assert_eq!(invocation(&a).0.args, vec!["build", "-t", "temp-image", "-f", "Containerfile"]);
    let (s, a) = s.step(exited(true, b"", b""));
    assert!(s.is_done());
    assert_eq!(finish(a), Ok(vec![]));
}

#[test]
fn podman_on_macos_starts_a_stopped_machine() {
    let (s, _) = Podman::new(0).start(Operation::Run("img".into(), vec![]), "macos");
    let (s, a) = s.step(exited(true, b"", b""));
    let (i, capture) = invocation(&a);
    assert!(capture);
    assert_eq!(i.args, vec!["machine", "info"]);
    let (s, a) = s.step(exited(true, b"host:\n  machinestate: Stopped\n", b""));
    assert_eq!(invocation(&a).0.args, vec!["machine", "start"]);
    let (s, a) = s.step(exited(true, b"", b""));
    assert_eq!(invocation(&a).0.args, vec!["run", "--rm", "img"]);
    let (_, a) = s.step(exited(true, b"out", b""));
    assert_eq!(finish(a), Ok(b"out".to_vec()));
}

#[test]
fn podman_on_windows_uses_a_running_machine() {
    let (s, _) = Podman::new(0).start(Operation::Build("Containerfile".into()), "windows");
    let (s, _) = s.step(exited(true, b"", b""));
    let (s, a) = s.step(exited(true, b"Host:\r\n  MachineState: x\r\n   machinestate: Running \r\n", b""));
    assert_eq!(invocation(&a).0.args, vec!["build", "-t", "temp-image", "-f", "Containerfile"]);
    let (_, a) = s.step(exited(false, b"", b""));
    assert_eq!(finish(a), Err("Podman build failed.".into()));
}

#[test]
fn podman_machine_failures() {
    let (s, _) = Podman::new(0).start(Operation::Build("C".into()), "macos");
    let (s, _) = s.step(exited(true, b"", b""));
    let (_, a) = s.step(exited(false, b"", b""));
    assert_eq!(finish(a), Err("Failed to query Podman machine.".into()));
    let (s, _) = Podman::new(0).start(Operation::Build("C".into()), "macos");
    let (s, _) = s.step(exited(true, b"", b""));
    let (s, _) = s.step(exited(true, b"machinestate: Running now", b""));
    let (_, a) = s.step(exited(false, b"", b""));
    assert_eq!(finish(a), Err("Failed to start Podman machine.".into()));
    let (s, _) = Podman::new(0).start(Operation::Build("C".into()), "linux");
    let (_, a) = s.step(exited(false, b"", b""));
    assert_eq!(finish(a), Err("Podman is not installed or is unavailable.".into()));
}

#[test]
fn podman_remove_goes_straight_to_its_command() {
    let (s, a) = Podman::new(0).start(Operation::Remove("temp-image".into()), "macos");
    assert_eq!(invocation(&a).0.args, vec!["rmi", "temp-image", "--force"]);
    let (_, a) = s.step(exited(true, b"", b""));
    assert_eq!(finish(a), Ok(vec![]));
}

#[test]
fn engine_names() {
    assert_eq!(select_engine("podman"), Ok(EngineChoice::Podman));
    assert_eq!(select_engine("docker"), Ok(EngineChoice::Docker));
    assert_eq!(select_engine("lxc"), Err("Unknown container engine: lxc".to_string()));
}

#[test]
fn podman_run_keeps_the_image_for_removal() {
    let (s, _) = Podman::new(0).start(
        Operation::Run("temp-image".into(), vec!["python3".into(), "-V".into()]),
        "linux",
    );
    let (_, a) = s.step(exited(true, b"", b""));
    let (i, capture) = invocation(&a);
    assert!(capture);
    assert_eq!(i.program, "podman");
    assert_eq!(i.args, vec!["run", "--rm", "temp-image", "python3", "-V"]);
    assert!(!i.args.iter().any(|a| a == "--rmi"));
    // The removal that follows names the same image.
    let (_, a) = Podman::new(0).start(Operation::Remove("temp-image".into()), "linux");
    assert_eq!(invocation(&a).0.args, vec!["rmi", "temp-image", "--force"]);
}
