//! Docker: each operation as the `docker` commands it runs.

use vstd::prelude::*;

use super::session::{
    captured_outcome, checks_first, extend_strings, finish_captured, finish_plain,
    owned, plain_outcome, quiet_children, silenced, strings_view, ActionV, EngineAction,
    EngineEvent, EventV, Invocation, InvocationV, Operation, OperationV,
};
use crate::text::lossy_utf8;

verus! {

/// The Docker engine, showing the output of its commands from verbosity 2
/// on.
pub struct Docker {
    verbose: u8,
}

pub enum DockerStage {
    /// Waiting for `docker --version`, before the operation itself.
    CheckingInstall(Operation),
    /// Waiting for the operation's own command.
    Working(Operation),
    Done,
}

pub enum DockerStageV {
    CheckingInstall(OperationV),
    Working(OperationV),
    Done,
}

/// One Docker operation under way.
pub struct DockerSession {
    verbose: u8,
    stage: DockerStage,
}

pub struct DockerSessionV {
    pub verbose: u8,
    pub stage: DockerStageV,
}

impl View for DockerSession {
    type V = DockerSessionV;

    closed spec fn view(&self) -> DockerSessionV {
        DockerSessionV {
            verbose: self.verbose,
            stage: match self.stage {
                DockerStage::CheckingInstall(op) => DockerStageV::CheckingInstall(op@),
                DockerStage::Working(op) => DockerStageV::Working(op@),
                DockerStage::Done => DockerStageV::Done,
            },
        }
    }
}

pub open spec fn docker_invocation(args: Seq<Seq<char>>, silence: bool) -> InvocationV {
    InvocationV { program: "docker"@, args, silence }
}

/// The check that Docker is installed.
pub open spec fn docker_version_check(verbose: u8) -> ActionV {
    ActionV::Status(docker_invocation(seq!["--version"@], silenced(verbose)))
}

/// The command that performs `op`. Images are built under the name
/// `temp-image`; commands run in a container that is removed afterwards.
pub open spec fn docker_command(verbose: u8, op: OperationV) -> ActionV {
    match op {
        OperationV::Build(file) => ActionV::Status(
            docker_invocation(
                seq!["build"@, "-t"@, "temp-image"@, "--format"@, "docker"@, "-f"@, file],
                silenced(verbose),
            ),
        ),
        OperationV::Run(image, command) => ActionV::Capture(
            docker_invocation(seq!["run"@, "--rm"@, image] + command, false),
        ),
        OperationV::Remove(image) => ActionV::Status(
            docker_invocation(seq!["rmi"@, image, "--force"@], silenced(verbose)),
        ),
        OperationV::Clean => ActionV::Status(
            docker_invocation(seq!["system"@, "prune"@, "-af"@], silenced(verbose)),
        ),
    }
}

/// The outcome of `op` once its command exited.
pub open spec fn docker_outcome(
    op: OperationV,
    success: bool,
    status: Seq<char>,
    stdout: Seq<u8>,
    stderr: Seq<u8>,
) -> Result<Seq<u8>, Seq<char>> {
    match op {
        OperationV::Build(_) => plain_outcome(success, "Docker build failed."@),
        OperationV::Run(_, _) => captured_outcome(success, stdout, stderr),
        OperationV::Remove(_) => plain_outcome(success, "Failed to remove temporary image."@),
        OperationV::Clean => plain_outcome(
            success,
            "docker system prune failed with status: "@ + status,
        ),
    }
}

/// How an operation starts: builds and runs first check that Docker is
/// installed; removal and pruning go straight to their command.
pub open spec fn docker_start(verbose: u8, op: OperationV) -> (DockerSessionV, ActionV) {
    if checks_first(op) {
        (
            DockerSessionV { verbose, stage: DockerStageV::CheckingInstall(op) },
            docker_version_check(verbose),
        )
    } else {
        (DockerSessionV { verbose, stage: DockerStageV::Working(op) }, docker_command(verbose, op))
    }
}

/// What follows the report `ev` on the program a session asked for.
pub open spec fn docker_step(s: DockerSessionV, ev: EventV) -> (DockerSessionV, ActionV) {
    let done = DockerSessionV { verbose: s.verbose, stage: DockerStageV::Done };
    match s.stage {
        DockerStageV::CheckingInstall(op) => match ev {
            EventV::SpawnFailed(e) => (done, ActionV::Finish(Err(e))),
            EventV::Exited { success, .. } => if success {
                (
                    DockerSessionV { verbose: s.verbose, stage: DockerStageV::Working(op) },
                    docker_command(s.verbose, op),
                )
            } else {
                (done, ActionV::Finish(Err("Docker is not installed or is unavailable."@)))
            },
        },
        DockerStageV::Working(op) => match ev {
            EventV::SpawnFailed(e) => (done, ActionV::Finish(Err(e))),
            EventV::Exited { success, status, stdout, stderr } => (
                done,
                ActionV::Finish(docker_outcome(op, success, status, stdout, stderr)),
            ),
        },
        DockerStageV::Done => (done, ActionV::Finish(Err(Seq::empty()))),
    }
}

fn invocation(args: Vec<String>, silence: bool) -> (i: Invocation)
    ensures
        i@ == docker_invocation(strings_view(args@), silence),
{
    Invocation { program: owned("docker"), args, silence }
}

fn command_action(verbose: u8, op: &Operation) -> (a: EngineAction)
    ensures
        a@ == docker_command(verbose, op@),
{
    let silence = quiet_children(verbose);
    match op {
        Operation::Build(file) => {
            let args = vec![
                owned("build"),
                owned("-t"),
                owned("temp-image"),
                owned("--format"),
                owned("docker"),
                owned("-f"),
                file.clone(),
            ];
            assert(strings_view(args@) =~= seq![
                "build"@,
                "-t"@,
                "temp-image"@,
                "--format"@,
                "docker"@,
                "-f"@,
                file@,
            ]);
            EngineAction::Status(invocation(args, silence))
        },
        Operation::Run(image, command) => {
            let mut args = vec![owned("run"), owned("--rm"), image.clone()];
            assert(strings_view(args@) =~= seq!["run"@, "--rm"@, image@]);
            extend_strings(&mut args, command);
            EngineAction::Capture(invocation(args, false))
        },
        Operation::Remove(image) => {
            let args = vec![owned("rmi"), image.clone(), owned("--force")];
            assert(strings_view(args@) =~= seq!["rmi"@, image@, "--force"@]);
            EngineAction::Status(invocation(args, silence))
        },
        Operation::Clean => {
            let args = vec![owned("system"), owned("prune"), owned("-af")];
            assert(strings_view(args@) =~= seq!["system"@, "prune"@, "-af"@]);
            EngineAction::Status(invocation(args, silence))
        },
    }
}

impl Docker {
    pub fn new(verbose: u8) -> (d: Docker)
        ensures
            d.verbosity() == verbose,
    {
        Docker { verbose }
    }

    pub closed spec fn verbosity(&self) -> u8 {
        self.verbose
    }

    /// Starts `op`: the session and the first program it asks for.
    pub fn start(&self, op: Operation) -> (r: (DockerSession, EngineAction))
        ensures
            (r.0@, r.1@) == docker_start(self.verbosity(), op@),
    {
        match op {
            Operation::Build(_) | Operation::Run(_, _) => {
                let silence = quiet_children(self.verbose);
                let args = vec![owned("--version")];
                assert(strings_view(args@) =~= seq!["--version"@]);
                let action = EngineAction::Status(invocation(args, silence));
                (DockerSession { verbose: self.verbose, stage: DockerStage::CheckingInstall(op) }, action)
            },
            _ => {
                let action = command_action(self.verbose, &op);
                (DockerSession { verbose: self.verbose, stage: DockerStage::Working(op) }, action)
            },
        }
    }
}

impl DockerSession {
    pub fn is_done(&self) -> (b: bool)
        ensures
            b == (self@.stage is Done),
    {
        match self.stage {
            DockerStage::Done => true,
            _ => false,
        }
    }

    /// Takes the report `ev` on the program last asked for: the session
    /// that follows and what it asks for next.
    pub fn step(self, ev: EngineEvent) -> (r: (DockerSession, EngineAction))
        ensures
            (r.0@, r.1@) == docker_step(self@, ev@),
    {
        let verbose = self.verbose;
        let done = DockerSession { verbose, stage: DockerStage::Done };
        match self.stage {
            DockerStage::CheckingInstall(op) => match ev {
                EngineEvent::SpawnFailed(e) => (done, EngineAction::Finish(Err(e))),
                EngineEvent::Exited { success, .. } => {
                    if success {
                        let action = command_action(verbose, &op);
                        (DockerSession { verbose, stage: DockerStage::Working(op) }, action)
                    } else {
                        (
                            done,
                            EngineAction::Finish(
                                Err(owned("Docker is not installed or is unavailable.")),
                            ),
                        )
                    }
                },
            },
            DockerStage::Working(op) => match ev {
                EngineEvent::SpawnFailed(e) => (done, EngineAction::Finish(Err(e))),
                EngineEvent::Exited { success, status, stdout, stderr } => {
                    let action = match op {
                        Operation::Build(_) => finish_plain(success, owned("Docker build failed.")),
                        Operation::Run(_, _) => finish_captured(success, stdout, stderr),
                        Operation::Remove(_) => finish_plain(
                            success,
                            owned("Failed to remove temporary image."),
                        ),
                        Operation::Clean => {
                            let mut m = owned("docker system prune failed with status: ");
                            m.append(status.as_str());
                            finish_plain(success, m)
                        },
                    };
                    (done, action)
                },
            },
            DockerStage::Done => (done, EngineAction::Finish(Err(String::new()))),
        }
    }
}

/// Every Docker operation is over after at most two reports: one on the
/// installation check where there is one, one on its own command.
pub proof fn lemma_docker_finishes(verbose: u8, op: OperationV, first: EventV, second: EventV)
    ensures
        ({
            let (s1, a1) = docker_start(verbose, op);
            let (s2, a2) = docker_step(s1, first);
            let (s3, a3) = docker_step(s2, second);
            &&& a1 !is Finish
            &&& (a2 is Finish <==> s2.stage is Done)
            &&& a3 is Finish && s3.stage is Done
        }),
{
}

/// A build or run asks for its own command only once Docker answered the
/// installation check with success; any other answer ends it with an error.
pub proof fn lemma_docker_checks_install(verbose: u8, op: OperationV, first: EventV)
    requires
        checks_first(op),
    ensures
        ({
            let (s1, a1) = docker_start(verbose, op);
            let (s2, a2) = docker_step(s1, first);
            &&& a1 == docker_version_check(verbose)
            &&& (first matches EventV::Exited { success, .. } && success) ==> a2 == docker_command(
                verbose,
                op,
            )
            &&& !(first matches EventV::Exited { success, .. } && success) ==> a2 matches ActionV::Finish(
                Err(_),
            )
        }),
{
}

/// A command run in a container answers what it printed on standard
/// output when it exits with success, whatever it wrote on its error
/// stream, and the error stream, decoded, when it fails; either way the
/// session is then over.
pub proof fn lemma_docker_run_answers(
    s: DockerSessionV,
    image: Seq<char>,
    command: Seq<Seq<char>>,
    success: bool,
    status: Seq<char>,
    stdout: Seq<u8>,
    stderr: Seq<u8>,
)
    requires
        s.stage == DockerStageV::Working(OperationV::Run(image, command)),
    ensures
        ({
            let (s2, a) = docker_step(s, EventV::Exited { success, status, stdout, stderr });
            &&& s2.stage is Done
            &&& success ==> a == ActionV::Finish(Ok(stdout))
            &&& !success ==> a == ActionV::Finish(Err(lossy_utf8(stderr)))
        }),
{
}

/// Running a command: once Docker is found installed, the command runs as
/// `docker run --rm <image> <command>` with its output captured, and a
/// run that exits with success gives back what it printed on standard
/// output, whatever it wrote on its error stream.
pub proof fn lemma_docker_run_returns_stdout(
    verbose: u8,
    image: Seq<char>,
    command: Seq<Seq<char>>,
    check: EventV,
    status: Seq<char>,
    stdout: Seq<u8>,
    stderr: Seq<u8>,
)
    requires
        check matches EventV::Exited { success, .. } && success,
    ensures
        ({
            let (s1, a1) = docker_start(verbose, OperationV::Run(image, command));
            let (s2, a2) = docker_step(s1, check);
            let (s3, a3) = docker_step(
                s2,
                EventV::Exited { success: true, status, stdout, stderr },
            );
            &&& a2 == ActionV::Capture(
                InvocationV {
                    program: "docker"@,
                    args: seq!["run"@, "--rm"@, image] + command,
                    silence: false,
                },
            )
            &&& a3 == ActionV::Finish(Ok::<Seq<u8>, Seq<char>>(stdout))
        }),
{
}

} // verus!
