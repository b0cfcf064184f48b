use dfaudit::workflow::{Ending, Outcome, Step, Workflow};

fn names(v: &[&str]) -> Vec<String> {
    v.iter().map(|s| s.to_string()).collect()
}

fn kind(s: &Step) -> String {
    match s {
        Step::Build(i) => format!("build {}", i),
        Step::Audit(i) => format!("audit {}", i),
        Step::Describe(i) => format!("describe {}", i),
        Step::Write(i) => format!("write {}", i),
        Step::Remove(i) => format!("remove {}", i),
        Step::Clean(i) => format!("clean {}", i),
        Step::ReportFailures(f) => format!("report {:?}", f),
        Step::WriteIndex => "index".to_string(),
        Step::Stop(Ending::Completed(f)) => format!("completed {:?}", f),
        Step::Stop(Ending::Aborted(e)) => format!("aborted {}", e),
    }
}

/// Runs a workflow, answering each step from `answer`, and lists the steps.
fn trace(
    files: &[&str],
    prune: bool,
    html: bool,
    answer: impl Fn(&Step) -> Outcome,
) -> Vec<String> {
    let (mut run, mut step) = Workflow::start(names(files), prune, html);
    let mut seen = vec![kind(&step)];
    while !matches!(step, Step::Stop(_)) {
        let o = answer(&step);
        let (r, s) = run.next(o);
        run = r;
        step = s;
        seen.push(kind(&step));
    }
    assert!(run.is_finished());
    seen
}

#[test]
fn every_definition_goes_through_every_step() {
    let seen = trace(&["a/Dockerfile", "b/Containerfile"], true, true, |_| Outcome::Done);
    assert_eq!(
        seen,
        vec![
            "build 0", "audit 0", "describe 0", "write 0", "remove 0", "clean 0", "build 1",
            "audit 1", "describe 1", "write 1", "remove 1", "clean 1", "index", "completed []",
        ]
    );
}

#[test]
fn failed_builds_are_recorded_and_skipped() {
    let seen = trace(&["a/Dockerfile", "b/Dockerfile"], false, false, |s| match s {
        Step::Build(0) => Outcome::Failed("Docker build failed.".into()),
        _ => Outcome::Done,
    });
    assert_eq!(
        seen,
        vec![
            "build 0",
            "build 1",
            "audit 1",
            "describe 1",
            "write 1",
            "remove 1",
            "report [\"a/Dockerfile: Docker build failed.\"]",
            "completed [\"a/Dockerfile: Docker build failed.\"]",
        ]
    );
}

#[test]
fn failed_builds_are_reported_before_the_index_page() {
    let seen = trace(&["a/Dockerfile"], false, true, |s| match s {
        Step::Build(0) => Outcome::Failed("Podman build failed.".into()),
        _ => Outcome::Done,
    });
    assert_eq!(
        seen,
        vec![
            "build 0",
            "report [\"a/Dockerfile: Podman build failed.\"]",
            "index",
            "completed [\"a/Dockerfile: Podman build failed.\"]",
        ]
    );
}

#[test]
fn reported_failures_survive_a_failed_index_page() {
    let seen = trace(&["a/Dockerfile", "b/Dockerfile"], false, true, |s| match s {
        Step::Build(1) => Outcome::Failed("Docker build failed.".into()),
        Step::WriteIndex => Outcome::Failed("no such directory".into()),
        _ => Outcome::Done,
    });
    assert_eq!(
        seen,
        vec![
            "build 0",
            "audit 0",
            "describe 0",
            "write 0",
            "remove 0",
            "build 1",
            "report [\"b/Dockerfile: Docker build failed.\"]",
            "index",
            "aborted no such directory",
        ]
    );
}

#[test]
fn other_failures_abort_the_run() {
    let seen = trace(&["a/Dockerfile", "b/Dockerfile"], false, true, |s| match s {
        Step::Write(0) => Outcome::Failed("cannot get directory name".into()),
        _ => Outcome::Done,
    });
    assert_eq!(
        seen,
        vec!["build 0", "audit 0", "describe 0", "write 0", "aborted cannot get directory name"]
    );
}

#[test]
fn reporting_only_writes_the_index() {
    assert_eq!(trace(&[], false, true, |_| Outcome::Done), vec!["index", "completed []"]);
    assert_eq!(trace(&[], true, false, |_| Outcome::Done), vec!["completed []"]);
}
