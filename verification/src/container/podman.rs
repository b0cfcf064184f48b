//! Podman: each operation as the `podman` commands it runs. On macOS and
//! Windows, where Podman runs inside a virtual machine, a build or run first
//! makes sure that machine is running.

use vstd::prelude::*;

use super::session::{
    captured_outcome, checks_first, extend_strings, finish_captured, finish_plain,
    machine_running, owned, plain_outcome, quiet_children, reports_running, silenced,
    strings_view, ActionV, EngineAction, EngineEvent, EventV, Invocation, InvocationV, Operation,
    OperationV,
};
use super::session::trim_white;
use crate::text::{lines, lossy_utf8, same_text};

verus! {

/// The Podman engine, showing the output of its commands from verbosity 2
/// on.
pub struct Podman {
    verbose: u8,
}

pub enum PodmanStage {
    /// Waiting for `podman --version`.
    CheckingInstall(Operation),
    /// Waiting for `podman machine info`.
    QueryingMachine(Operation),
    /// Waiting for `podman machine start`.
    StartingMachine(Operation),
    /// Waiting for the operation's own command.
    Working(Operation),
    Done,
}

pub enum PodmanStageV {
    CheckingInstall(OperationV),
    QueryingMachine(OperationV),
    StartingMachine(OperationV),
    Working(OperationV),
    Done,
}

/// One Podman operation under way.
pub struct PodmanSession {
    verbose: u8,
    machine: bool,
    stage: PodmanStage,
}

pub struct PodmanSessionV {
    pub verbose: u8,
    /// Whether the system runs Podman in a machine.
    pub machine: bool,
    pub stage: PodmanStageV,
}

impl View for PodmanSession {
    type V = PodmanSessionV;

    closed spec fn view(&self) -> PodmanSessionV {
        PodmanSessionV {
            verbose: self.verbose,
            machine: self.machine,
            stage: match self.stage {
                PodmanStage::CheckingInstall(op) => PodmanStageV::CheckingInstall(op@),
                PodmanStage::QueryingMachine(op) => PodmanStageV::QueryingMachine(op@),
                PodmanStage::StartingMachine(op) => PodmanStageV::StartingMachine(op@),
                PodmanStage::Working(op) => PodmanStageV::Working(op@),
                PodmanStage::Done => PodmanStageV::Done,
            },
        }
    }
}

/// Whether Podman runs in a machine on the operating system named `os`
/// (as `std::env::consts::OS` names it): on macOS and Windows.
pub open spec fn needs_machine(os: Seq<char>) -> bool {
    os == "macos"@ || os == "windows"@
}

pub open spec fn podman_invocation(args: Seq<Seq<char>>, silence: bool) -> InvocationV {
    InvocationV { program: "podman"@, args, silence }
}

/// The check that Podman is installed.
pub open spec fn podman_version_check(verbose: u8) -> ActionV {
    ActionV::Status(podman_invocation(seq!["--version"@], silenced(verbose)))
}

/// The query of the machine's state, whose output is read.
pub open spec fn machine_info() -> ActionV {
    ActionV::Capture(podman_invocation(seq!["machine"@, "info"@], false))
}

/// The start of the machine.
pub open spec fn machine_start(verbose: u8) -> ActionV {
    ActionV::Status(podman_invocation(seq!["machine"@, "start"@], silenced(verbose)))
}

/// The command that performs `op`. Images are built under the name
/// `temp-image`; commands run in a container that is removed afterwards,
/// while the image stays for its own removal step.
///
/// Podman's pruning is this library's own addition: a run may ask either
/// engine to prune, and nothing else fixes what Podman does then. It is
/// made to mirror Docker's, with `podman system prune -af`.
pub open spec fn podman_command(verbose: u8, op: OperationV) -> ActionV {
    match op {
        OperationV::Build(file) => ActionV::Status(
            podman_invocation(
                seq!["build"@, "-t"@, "temp-image"@, "-f"@, file],
                silenced(verbose),
            ),
        ),
        OperationV::Run(image, command) => ActionV::Capture(
            podman_invocation(seq!["run"@, "--rm"@, image] + command, false),
        ),
        OperationV::Remove(image) => ActionV::Status(
            podman_invocation(seq!["rmi"@, image, "--force"@], silenced(verbose)),
        ),
        OperationV::Clean => ActionV::Status(
            podman_invocation(seq!["system"@, "prune"@, "-af"@], silenced(verbose)),
        ),
    }
}

/// The outcome of `op` once its command exited. A failed pruning is
/// reported with its exit status, in words of this library's choosing
/// that mirror Docker's.
pub open spec fn podman_outcome(
    op: OperationV,
    success: bool,
    status: Seq<char>,
    stdout: Seq<u8>,
    stderr: Seq<u8>,
) -> Result<Seq<u8>, Seq<char>> {
    match op {
        OperationV::Build(_) => plain_outcome(success, "Podman build failed."@),
        OperationV::Run(_, _) => captured_outcome(success, stdout, stderr),
        OperationV::Remove(_) => plain_outcome(success, "Failed to remove temporary image."@),
        OperationV::Clean => plain_outcome(
            success,
            "podman system prune failed with status: "@ + status,
        ),
    }
}

/// How an operation starts on the system named `os`: builds and runs first
/// check that Podman is installed; removal and pruning go straight to
/// their command.
pub open spec fn podman_start(verbose: u8, os: Seq<char>, op: OperationV) -> (
    PodmanSessionV,
    ActionV,
) {
    let machine = needs_machine(os);
    if checks_first(op) {
        (
            PodmanSessionV { verbose, machine, stage: PodmanStageV::CheckingInstall(op) },
            podman_version_check(verbose),
        )
    } else {
        (
            PodmanSessionV { verbose, machine, stage: PodmanStageV::Working(op) },
            podman_command(verbose, op),
        )
    }
}

/// The session that goes on to the operation's own command.
pub open spec fn podman_working(s: PodmanSessionV, op: OperationV) -> (PodmanSessionV, ActionV) {
    (
        PodmanSessionV { verbose: s.verbose, machine: s.machine, stage: PodmanStageV::Working(op) },
        podman_command(s.verbose, op),
    )
}

/// What follows the report `ev` on the program a session asked for.
pub open spec fn podman_step(s: PodmanSessionV, ev: EventV) -> (PodmanSessionV, ActionV) {
    let done = PodmanSessionV { verbose: s.verbose, machine: s.machine, stage: PodmanStageV::Done };
    match s.stage {
        PodmanStageV::CheckingInstall(op) => match ev {
            EventV::SpawnFailed(e) => (done, ActionV::Finish(Err(e))),
            EventV::Exited { success, .. } => if !success {
                (done, ActionV::Finish(Err("Podman is not installed or is unavailable."@)))
            } else if s.machine {
                (
                    PodmanSessionV {
                        verbose: s.verbose,
                        machine: s.machine,
                        stage: PodmanStageV::QueryingMachine(op),
                    },
                    machine_info(),
                )
            } else {
                podman_working(s, op)
            },
        },
        PodmanStageV::QueryingMachine(op) => match ev {
            EventV::SpawnFailed(e) => (done, ActionV::Finish(Err(e))),
            EventV::Exited { success, stdout, .. } => if !success {
                (done, ActionV::Finish(Err("Failed to query Podman machine."@)))
            } else if reports_running(lossy_utf8(stdout)) {
                podman_working(s, op)
            } else {
                (
                    PodmanSessionV {
                        verbose: s.verbose,
                        machine: s.machine,
                        stage: PodmanStageV::StartingMachine(op),
                    },
                    machine_start(s.verbose),
                )
            },
        },
        PodmanStageV::StartingMachine(op) => match ev {
            EventV::SpawnFailed(e) => (done, ActionV::Finish(Err(e))),
            EventV::Exited { success, .. } => if success {
                podman_working(s, op)
            } else {
                (done, ActionV::Finish(Err("Failed to start Podman machine."@)))
            },
        },
        PodmanStageV::Working(op) => match ev {
            EventV::SpawnFailed(e) => (done, ActionV::Finish(Err(e))),
            EventV::Exited { success, status, stdout, stderr } => (
                done,
                ActionV::Finish(podman_outcome(op, success, status, stdout, stderr)),
            ),
        },
        PodmanStageV::Done => (done, ActionV::Finish(Err(Seq::empty()))),
    }
}

fn invocation(args: Vec<String>, silence: bool) -> (i: Invocation)
    ensures
        i@ == podman_invocation(strings_view(args@), silence),
{
    Invocation { program: owned("podman"), args, silence }
}

fn command_action(verbose: u8, op: &Operation) -> (a: EngineAction)
    ensures
        a@ == podman_command(verbose, op@),
{
    let silence = quiet_children(verbose);
    match op {
        Operation::Build(file) => {
            let args = vec![
                owned("build"),
                owned("-t"),
                owned("temp-image"),
                owned("-f"),
                file.clone(),
            ];
            assert(strings_view(args@) =~= seq!["build"@, "-t"@, "temp-image"@, "-f"@, file@]);
            EngineAction::Status(invocation(args, silence))
        },
        Operation::Run(image, command) => {
            let mut args = vec![owned("run"), owned("--rm"), image.clone()];
            assert(strings_view(args@) =~= seq!["run"@, "--rm"@, image@]);
            extend_strings(&mut args, command);
            EngineAction::Capture(invocation(args, false))
        },
        Operation::Remove(image) => {
            let args = vec![owned("rmi"), image.clone(), owned("--force")];
            assert(strings_view(args@) =~= seq!["rmi"@, image@, "--force"@]);
            EngineAction::Status(invocation(args, silence))
        },
        Operation::Clean => {
            let args = vec![owned("system"), owned("prune"), owned("-af")];
            assert(strings_view(args@) =~= seq!["system"@, "prune"@, "-af"@]);
            EngineAction::Status(invocation(args, silence))
        },
    }
}

fn machine_info_action() -> (a: EngineAction)
    ensures
        a@ == machine_info(),
{
    let args = vec![owned("machine"), owned("info")];
    assert(strings_view(args@) =~= seq!["machine"@, "info"@]);
    EngineAction::Capture(invocation(args, false))
}

fn machine_start_action(verbose: u8) -> (a: EngineAction)
    ensures
        a@ == machine_start(verbose),
{
    let args = vec![owned("machine"), owned("start")];
    assert(strings_view(args@) =~= seq!["machine"@, "start"@]);
    EngineAction::Status(invocation(args, quiet_children(verbose)))
}

impl Podman {
    pub fn new(verbose: u8) -> (p: Podman)
        ensures
            p.verbosity() == verbose,
    {
        Podman { verbose }
    }

    pub closed spec fn verbosity(&self) -> u8 {
        self.verbose
    }

    /// Starts `op` on the operating system named `os`: the session and the
    /// first program it asks for.
    pub fn start(&self, op: Operation, os: &str) -> (r: (PodmanSession, EngineAction))
        ensures
            (r.0@, r.1@) == podman_start(self.verbosity(), os@, op@),
    {
        let machine = same_text(os, "macos") || same_text(os, "windows");
        match op {
            Operation::Build(_) | Operation::Run(_, _) => {
                let args = vec![owned("--version")];
                assert(strings_view(args@) =~= seq!["--version"@]);
                let action = EngineAction::Status(invocation(args, quiet_children(self.verbose)));
                (
                    PodmanSession {
                        verbose: self.verbose,
                        machine,
                        stage: PodmanStage::CheckingInstall(op),
                    },
                    action,
                )
            },
            _ => {
                let action = command_action(self.verbose, &op);
                (PodmanSession { verbose: self.verbose, machine, stage: PodmanStage::Working(op) }, action)
            },
        }
    }
}

impl PodmanSession {
    pub fn is_done(&self) -> (b: bool)
        ensures
            b == (self@.stage is Done),
    {
        match self.stage {
            PodmanStage::Done => true,
            _ => false,
        }
    }

    /// Takes the report `ev` on the program last asked for: the session
    /// that follows and what it asks for next.
    pub fn step(self, ev: EngineEvent) -> (r: (PodmanSession, EngineAction))
        ensures
            (r.0@, r.1@) == podman_step(self@, ev@),
    {
        let verbose = self.verbose;
        let machine = self.machine;
        let done = PodmanSession { verbose, machine, stage: PodmanStage::Done };
        match self.stage {
            PodmanStage::CheckingInstall(op) => match ev {
                EngineEvent::SpawnFailed(e) => (done, EngineAction::Finish(Err(e))),
                EngineEvent::Exited { success, .. } => {
                    if !success {
                        (
                            done,
                            EngineAction::Finish(
                                Err(owned("Podman is not installed or is unavailable.")),
                            ),
                        )
                    } else if machine {
                        (
                            PodmanSession { verbose, machine, stage: PodmanStage::QueryingMachine(op) },
                            machine_info_action(),
                        )
                    } else {
                        let action = command_action(verbose, &op);
                        (PodmanSession { verbose, machine, stage: PodmanStage::Working(op) }, action)
                    }
                },
            },
            PodmanStage::QueryingMachine(op) => match ev {
                EngineEvent::SpawnFailed(e) => (done, EngineAction::Finish(Err(e))),
                EngineEvent::Exited { success, stdout, .. } => {
                    if !success {
                        (done, EngineAction::Finish(Err(owned("Failed to query Podman machine."))))
                    } else if machine_running(&stdout) {
                        let action = command_action(verbose, &op);
                        (PodmanSession { verbose, machine, stage: PodmanStage::Working(op) }, action)
                    } else {
                        (
                            PodmanSession { verbose, machine, stage: PodmanStage::StartingMachine(op) },
                            machine_start_action(verbose),
                        )
                    }
                },
            },
            PodmanStage::StartingMachine(op) => match ev {
                EngineEvent::SpawnFailed(e) => (done, EngineAction::Finish(Err(e))),
                EngineEvent::Exited { success, .. } => {
                    if success {
                        let action = command_action(verbose, &op);
                        (PodmanSession { verbose, machine, stage: PodmanStage::Working(op) }, action)
                    } else {
                        (done, EngineAction::Finish(Err(owned("Failed to start Podman machine."))))
                    }
                },
            },
            PodmanStage::Working(op) => match ev {
                EngineEvent::SpawnFailed(e) => (done, EngineAction::Finish(Err(e))),
                EngineEvent::Exited { success, status, stdout, stderr } => {
                    let action = match op {
                        Operation::Build(_) => finish_plain(success, owned("Podman build failed.")),
                        Operation::Run(_, _) => finish_captured(success, stdout, stderr),
                        Operation::Remove(_) => finish_plain(
                            success,
                            owned("Failed to remove temporary image."),
                        ),
                        Operation::Clean => {
                            let mut m = owned("podman system prune failed with status: ");
                            m.append(status.as_str());
                            finish_plain(success, m)
                        },
                    };
                    (done, action)
                },
            },
            PodmanStage::Done => (done, EngineAction::Finish(Err(String::new()))),
        }
    }
}

/// Every Podman operation is over after at most four reports: on the
/// installation check, the machine query and the machine start where they
/// happen, and on its own command.
pub proof fn lemma_podman_finishes(
    verbose: u8,
    os: Seq<char>,
    op: OperationV,
    e1: EventV,
    e2: EventV,
    e3: EventV,
    e4: EventV,
)
    ensures
        ({
            let (s1, a1) = podman_start(verbose, os, op);
            let (s2, a2) = podman_step(s1, e1);
            let (s3, a3) = podman_step(s2, e2);
            let (s4, a4) = podman_step(s3, e3);
            let (s5, a5) = podman_step(s4, e4);
            &&& a1 !is Finish
            &&& (a2 is Finish <==> s2.stage is Done)
            &&& (a3 is Finish <==> s3.stage is Done)
            &&& (a4 is Finish <==> s4.stage is Done)
            &&& a5 is Finish && s5.stage is Done
        }),
{
}

/// On a system without a machine, Podman is never asked about one: after
/// the installation check a build or run goes straight to its command.
pub proof fn lemma_podman_machine_only_where_needed(
    verbose: u8,
    os: Seq<char>,
    op: OperationV,
    e1: EventV,
)
    requires
        checks_first(op),
        !needs_machine(os),
    ensures
        ({
            let (s1, a1) = podman_start(verbose, os, op);
            let (s2, a2) = podman_step(s1, e1);
            &&& a1 == podman_version_check(verbose)
            &&& (e1 matches EventV::Exited { success, .. } && success) ==> a2 == podman_command(
                verbose,
                op,
            )
            &&& !(e1 matches EventV::Exited { success, .. } && success) ==> a2 matches ActionV::Finish(
                Err(_),
            )
        }),
{
}

/// Where the machine already runs, it is not started again.
pub proof fn lemma_running_machine_not_restarted(s: PodmanSessionV, stdout: Seq<u8>, status: Seq<char>, stderr: Seq<u8>)
    requires
        s.stage is QueryingMachine,
        reports_running(lossy_utf8(stdout)),
    ensures
        podman_step(s, EventV::Exited { success: true, status, stdout, stderr }).1 == podman_command(
            s.verbose,
            s.stage->QueryingMachine_0,
        ),
{
}

/// A command run in a container answers what it printed on standard
/// output when it exits with success, whatever it wrote on its error
/// stream, and the error stream, decoded, when it fails.
pub proof fn lemma_podman_run_answers(
    s: PodmanSessionV,
    image: Seq<char>,
    command: Seq<Seq<char>>,
    success: bool,
    status: Seq<char>,
    stdout: Seq<u8>,
    stderr: Seq<u8>,
)
    requires
        s.stage == PodmanStageV::Working(OperationV::Run(image, command)),
    ensures
        ({
            let (s2, a) = podman_step(s, EventV::Exited { success, status, stdout, stderr });
            &&& s2.stage is Done
            &&& success ==> a == ActionV::Finish(Ok(stdout))
            &&& !success ==> a == ActionV::Finish(Err(lossy_utf8(stderr)))
        }),
{
}

/// A machine whose `podman machine info` has a line reading
/// `machinestate: Running` once trimmed, wherever that line stands, is
/// taken as running: the operation's own command follows.
pub proof fn lemma_running_line_anywhere(
    s: PodmanSessionV,
    status: Seq<char>,
    stdout: Seq<u8>,
    stderr: Seq<u8>,
    i: int,
)
    requires
        s.stage is QueryingMachine,
        0 <= i < lines(lossy_utf8(stdout)).len(),
        trim_white(lines(lossy_utf8(stdout))[i]) == "machinestate: Running"@,
    ensures
        podman_step(s, EventV::Exited { success: true, status, stdout, stderr }).1 == podman_command(
            s.verbose,
            s.stage->QueryingMachine_0,
        ),
{
    assert(reports_running(lossy_utf8(stdout)));
}

/// A machine whose `podman machine info` has no such line is started
/// before the operation's own command.
pub proof fn lemma_stopped_machine_started(
    s: PodmanSessionV,
    status: Seq<char>,
    stdout: Seq<u8>,
    stderr: Seq<u8>,
)
    requires
        s.stage is QueryingMachine,
        forall|i: int|
            0 <= i < lines(lossy_utf8(stdout)).len() ==> trim_white(#[trigger] lines(lossy_utf8(stdout))[i])
                != "machinestate: Running"@,
    ensures
        podman_step(s, EventV::Exited { success: true, status, stdout, stderr }).1 == machine_start(
            s.verbose,
        ),
{
}

} // verus!
