use tauri_spy::{
    exit_status, Action, ErrorKind, Event, FileFacts, Launch, LaunchRequest, Phase, FAILURE_STATUS,
};

fn elf_pie() -> Vec<u8> {
    let mut b = vec![0u8; 64];
    b[..4].copy_from_slice(&[0x7F, b'E', b'L', b'F']);
    b[4] = 2;
    b[16] = 3;
    b[18] = 0x3E;
    b
}

fn request(target: &str, auto_open: bool) -> LaunchRequest {
    LaunchRequest {
        target: target.to_string(),
        auto_open,
        args: vec!["--flag".to_string(), "-x".to_string()],
    }
}

fn begun(target: &str) -> Launch {
    let mut l = Launch::new(request(target, false), "/opt/spy/bin".to_string());
    assert_eq!(l.step(Event::Begin), Action::InspectTarget);
    assert_eq!(l.phase, Phase::Validating);
    l
}

fn executable_755() -> FileFacts {
    FileFacts { exists: true, is_file: true, mode: 0o755 }
}

#[test]
fn missing_target_aborts_with_failure_status() {
    let mut l = begun("/tmp/missing");
    let facts = FileFacts { exists: false, is_file: false, mode: 0 };
    assert_eq!(l.step(Event::TargetInspected(facts, Vec::new())), Action::Abort);
    assert_eq!(l.phase, Phase::Aborted(ErrorKind::TargetNotFound));
    assert_eq!(l.exit_code(), Some(1));
    assert!(l.is_finished());
    // nothing moves a finished launch, so no spawn can follow
    assert_eq!(l.step(Event::PreloadRead(None)), Action::Ignore);
    assert_eq!(l.step(Event::Spawned), Action::Ignore);
    assert_eq!(l.phase, Phase::Aborted(ErrorKind::TargetNotFound));
}

#[test]
fn valid_target_runs_and_mirrors_exit_code() {
    let mut l = begun("/opt/app/app");
    let probe = l.step(Event::TargetInspected(executable_755(), elf_pie()));
    assert_eq!(
        probe,
        Action::ProbeArtifact(vec![
            "/opt/spy/bin/libspy.so".to_string(),
            "/opt/spy/bin/../lib/libspy.so".to_string(),
        ])
    );
    assert_eq!(l.phase, Phase::Locating);
    let found = vec![Some("/opt/spy/bin/libspy.so".to_string()), None];
    assert_eq!(l.step(Event::ArtifactProbed(found)), Action::ReadPreload);
    assert_eq!(l.phase, Phase::ComposingEnv("/opt/spy/bin/libspy.so".to_string()));
    match l.step(Event::PreloadRead(Some("/usr/lib/other.so".to_string()))) {
        Action::Spawn(env) => {
            assert_eq!(env[0].0, "LD_PRELOAD");
            assert_eq!(env[0].1, "/opt/spy/bin/libspy.so:/usr/lib/other.so");
            assert_eq!(env[1], ("TAURI_SPY_AUTO_OPEN".to_string(), "0".to_string()));
        }
        other => panic!("expected a spawn, got {:?}", other),
    }
    assert_eq!(l.phase, Phase::Spawning);
    assert_eq!(l.step(Event::Spawned), Action::Wait);
    assert_eq!(l.phase, Phase::Running);
    assert_eq!(l.exit_code(), None);
    assert_eq!(l.step(Event::Exited(Some(42))), Action::Exit(42));
    assert_eq!(l.phase, Phase::Terminated(42));
    assert_eq!(l.exit_code(), Some(42));
    assert_eq!(l.request.args, vec!["--flag".to_string(), "-x".to_string()]);
}

#[test]
fn installed_layout_artifact_is_used() {
    let mut l = begun("/opt/app/app");
    l.step(Event::TargetInspected(executable_755(), elf_pie()));
    let found = vec![None, Some("/opt/spy/lib/libspy.so".to_string())];
    assert_eq!(l.step(Event::ArtifactProbed(found)), Action::ReadPreload);
    assert_eq!(l.phase, Phase::ComposingEnv("/opt/spy/lib/libspy.so".to_string()));
}

#[test]
fn absent_artifact_aborts_before_spawn() {
    let mut l = begun("/opt/app/app");
    l.step(Event::TargetInspected(executable_755(), elf_pie()));
    assert_eq!(l.step(Event::ArtifactProbed(vec![None, None])), Action::Abort);
    assert_eq!(l.phase, Phase::Aborted(ErrorKind::LibraryNotFound));
    assert_eq!(l.exit_code(), Some(FAILURE_STATUS));
    assert_eq!(l.step(Event::PreloadRead(None)), Action::Ignore);
}

#[test]
fn spawn_failure_is_reported() {
    let mut l = begun("/opt/app/app");
    l.step(Event::TargetInspected(executable_755(), elf_pie()));
    l.step(Event::ArtifactProbed(vec![Some("/x/libspy.so".to_string())]));
    l.step(Event::PreloadRead(None));
    assert_eq!(l.step(Event::SpawnFailed("Permission denied".to_string())), Action::Abort);
    assert_eq!(
        l.phase,
        Phase::Aborted(ErrorKind::LaunchFailed("Permission denied".to_string()))
    );
    assert_eq!(l.exit_code(), Some(1));
}

#[test]
fn wrong_arch_aborts_validation() {
    let mut l = begun("/opt/app/app");
    let mut b = elf_pie();
    b[18] = 0xB7;
    assert_eq!(l.step(Event::TargetInspected(executable_755(), b)), Action::Abort);
    assert_eq!(l.phase, Phase::Aborted(ErrorKind::WrongArch(0xB7)));
}

#[test]
fn foreign_events_are_ignored() {
    let mut l = Launch::new(request("/opt/app/app", true), "/opt/spy/bin".to_string());
    assert_eq!(l.step(Event::Spawned), Action::Ignore);
    assert_eq!(l.phase, Phase::Start);
    l.step(Event::Begin);
    assert_eq!(l.step(Event::Exited(Some(3))), Action::Ignore);
    assert_eq!(l.phase, Phase::Validating);
}

fn run_once(preload: Option<String>) -> (Phase, Option<u8>) {
    let mut l = begun("/opt/app/app");
    l.step(Event::TargetInspected(executable_755(), elf_pie()));
    l.step(Event::ArtifactProbed(vec![Some("/opt/spy/bin/libspy.so".to_string()), None]));
    l.step(Event::PreloadRead(preload));
    l.step(Event::Spawned);
    l.step(Event::Exited(Some(7)));
    (l.phase.clone(), l.exit_code())
}

#[test]
fn repeated_runs_give_same_outcome() {
    let first = run_once(None);
    let second = run_once(Some("/opt/spy/bin/libspy.so".to_string()));
    assert_eq!(first, second);
    assert_eq!(first, (Phase::Terminated(7), Some(7)));
}

#[test]
fn exit_status_mirrors_child() {
    assert_eq!(exit_status(Some(0)), 0);
    assert_eq!(exit_status(Some(42)), 42);
    assert_eq!(exit_status(Some(255)), 255);
    assert_eq!(exit_status(Some(256)), 0);
    assert_eq!(exit_status(Some(-1)), 255);
    assert_eq!(exit_status(None), 1);
}
