//! What an engine session asks of its caller and what it is told back.
//!
//! An engine operation is a short conversation: the session names the
//! next program to run, its caller runs it and reports how it went, and the
//! session decides what comes next, until it finishes with the operation's
//! outcome.

use vstd::prelude::*;

use crate::text::{chars_of, decode_lossy, lines, lossy_utf8, split_lines, string_from_chars, white_space, is_white_space};

verus! {

/// One program to run: its name, its arguments, and whether its output is
/// to be discarded rather than shown.
pub struct Invocation {
    pub program: String,
    pub args: Vec<String>,
    pub silence: bool,
}

pub struct InvocationV {
    pub program: Seq<char>,
    pub args: Seq<Seq<char>>,
    pub silence: bool,
}

pub open spec fn strings_view(v: Seq<String>) -> Seq<Seq<char>> {
    v.map_values(|s: String| s@)
}

impl View for Invocation {
    type V = InvocationV;

    open spec fn view(&self) -> InvocationV {
        InvocationV { program: self.program@, args: strings_view(self.args@), silence: self.silence }
    }
}

/// What a session asks its caller to do next.
pub enum EngineAction {
    /// Run the program and report whether it succeeded.
    Status(Invocation),
    /// Run the program capturing what it prints, and report that too.
    Capture(Invocation),
    /// The operation is over, with this outcome: what the command printed
    /// (empty for operations that print nothing of interest) or an error.
    Finish(Result<Vec<u8>, String>),
}

pub enum ActionV {
    Status(InvocationV),
    Capture(InvocationV),
    Finish(Result<Seq<u8>, Seq<char>>),
}

impl View for EngineAction {
    type V = ActionV;

    open spec fn view(&self) -> ActionV {
        match self {
            EngineAction::Status(i) => ActionV::Status(i@),
            EngineAction::Capture(i) => ActionV::Capture(i@),
            EngineAction::Finish(Ok(b)) => ActionV::Finish(Ok(b@)),
            EngineAction::Finish(Err(e)) => ActionV::Finish(Err(e@)),
        }
    }
}

/// How running a program went.
pub enum EngineEvent {
    /// The program could not be started; the error as text.
    SpawnFailed(String),
    /// The program ran: whether it succeeded, its exit status as text, and
    /// what it printed (empty unless it was captured).
    Exited { success: bool, status: String, stdout: Vec<u8>, stderr: Vec<u8> },
}

pub enum EventV {
    SpawnFailed(Seq<char>),
    Exited { success: bool, status: Seq<char>, stdout: Seq<u8>, stderr: Seq<u8> },
}

impl View for EngineEvent {
    type V = EventV;

    open spec fn view(&self) -> EventV {
        match self {
            EngineEvent::SpawnFailed(e) => EventV::SpawnFailed(e@),
            EngineEvent::Exited { success, status, stdout, stderr } => EventV::Exited {
                success: *success,
                status: status@,
                stdout: stdout@,
                stderr: stderr@,
            },
        }
    }
}

/// What an engine is asked to do.
pub enum Operation {
    /// Build the image defined by the file at this path.
    Build(String),
    /// Run a command in a fresh container of an image.
    Run(String, Vec<String>),
    /// Remove an image.
    Remove(String),
    /// Prune the engine's caches.
    Clean,
}

pub enum OperationV {
    Build(Seq<char>),
    Run(Seq<char>, Seq<Seq<char>>),
    Remove(Seq<char>),
    Clean,
}

impl View for Operation {
    type V = OperationV;

    open spec fn view(&self) -> OperationV {
        match self {
            Operation::Build(f) => OperationV::Build(f@),
            Operation::Run(i, c) => OperationV::Run(i@, strings_view(c@)),
            Operation::Remove(i) => OperationV::Remove(i@),
            Operation::Clean => OperationV::Clean,
        }
    }
}

/// Whether an operation first checks that the engine is installed: builds
/// and runs do, removal and pruning do not.
pub open spec fn checks_first(op: OperationV) -> bool {
    op is Build || op is Run
}

/// Whether the output of engine commands is discarded at this verbosity.
pub open spec fn silenced(verbose: u8) -> bool {
    verbose <= 1
}

pub fn quiet_children(verbose: u8) -> (b: bool)
    ensures
        b == silenced(verbose),
{
    verbose <= 1
}

pub fn owned(s: &str) -> (r: String)
    ensures
        r@ == s@,
{
    s.to_string()
}

proof fn lemma_strings_view_push(s: Seq<String>, x: String)
    ensures
        strings_view(s.push(x)) == strings_view(s).push(x@),
{
    assert(strings_view(s.push(x)) =~= strings_view(s).push(x@));
}

/// Appends the words of `tail` to `head`.
pub fn extend_strings(head: &mut Vec<String>, tail: &Vec<String>)
    ensures
        strings_view(final(head)@) == strings_view(old(head)@) + strings_view(tail@),
{
    let mut i: usize = 0;
    while i < tail.len()
        invariant
            i <= tail.len(),
            strings_view(head@) == strings_view(old(head)@) + strings_view(tail@.take(i as int)),
        decreases tail.len() - i,
    {
        let c = tail[i].clone();
        assert(c == tail@[i as int]);
        proof {
            lemma_strings_view_push(head@, c);
            lemma_strings_view_push(tail@.take(i as int), c);
            assert(tail@.take(i + 1) =~= tail@.take(i as int).push(c));
        }
        head.push(c);
        i = i + 1;
        assert(strings_view(head@) =~= strings_view(old(head)@) + strings_view(
            tail@.take(i as int),
        ));
    }
    assert(tail@.take(tail.len() as int) =~= tail@);
}

/// The outcome of a command that prints nothing of interest: success, or
/// the error `message`.
pub open spec fn plain_outcome(success: bool, message: Seq<char>) -> Result<Seq<u8>, Seq<char>> {
    if success {
        Ok(Seq::empty())
    } else {
        Err(message)
    }
}

pub fn finish_plain(success: bool, message: String) -> (a: EngineAction)
    ensures
        a@ == ActionV::Finish(plain_outcome(success, message@)),
{
    if success {
        EngineAction::Finish(Ok(Vec::new()))
    } else {
        EngineAction::Finish(Err(message))
    }
}

/// The outcome of running a command in a container: what it printed, or
/// what it printed on its error stream when it failed.
pub open spec fn captured_outcome(success: bool, stdout: Seq<u8>, stderr: Seq<u8>) -> Result<
    Seq<u8>,
    Seq<char>,
> {
    if success {
        Ok(stdout)
    } else {
        Err(lossy_utf8(stderr))
    }
}

pub fn finish_captured(success: bool, stdout: Vec<u8>, stderr: Vec<u8>) -> (a: EngineAction)
    ensures
        a@ == ActionV::Finish(captured_outcome(success, stdout@, stderr@)),
{
    if success {
        EngineAction::Finish(Ok(stdout))
    } else {
        EngineAction::Finish(Err(decode_lossy(stderr.as_slice())))
    }
}

// ---------------------------------------------------------------------
// Trimming white space
// ---------------------------------------------------------------------
pub open spec fn trim_white_start(s: Seq<char>) -> Seq<char>
    decreases s.len(),
{
    if s.len() > 0 && is_white_space(s[0]) {
        trim_white_start(s.drop_first())
    } else {
        s
    }
}

pub open spec fn trim_white_end(s: Seq<char>) -> Seq<char>
    decreases s.len(),
{
    if s.len() > 0 && is_white_space(s.last()) {
        trim_white_end(s.drop_last())
    } else {
        s
    }
}

/// `s` without leading and trailing white space: `str::trim`.
pub open spec fn trim_white(s: Seq<char>) -> Seq<char> {
    trim_white_end(trim_white_start(s))
}

proof fn lemma_trim_white_start_skip(s: Seq<char>, i: int)
    requires
        0 <= i <= s.len(),
        forall|j: int| 0 <= j < i ==> is_white_space(s[j]),
    ensures
        trim_white_start(s) == trim_white_start(s.skip(i)),
    decreases i,
{
    if i > 0 {
        assert(s.drop_first().skip(i - 1) =~= s.skip(i));
        lemma_trim_white_start_skip(s.drop_first(), i - 1);
    } else {
        assert(s.skip(0) =~= s);
    }
}

proof fn lemma_trim_white_end_take(s: Seq<char>, k: int)
    requires
        0 <= k <= s.len(),
        forall|j: int| k <= j < s.len() ==> is_white_space(s[j]),
    ensures
        trim_white_end(s) == trim_white_end(s.take(k)),
    decreases s.len() - k,
{
    if k < s.len() {
        assert(s.drop_last().take(k) =~= s.take(k));
        lemma_trim_white_end_take(s.drop_last(), k);
    } else {
        assert(s.take(k) =~= s);
    }
}

pub fn trim_white_chars(s: &Vec<char>) -> (out: Vec<char>)
    ensures
        out@ == trim_white(s@),
{
    let mut a: usize = 0;
    while a < s.len() && white_space(s[a])
        invariant
            a <= s.len(),
            forall|j: int| 0 <= j < a ==> is_white_space(s@[j]),
        decreases s.len() - a,
    {
        a = a + 1;
    }
    proof {
        lemma_trim_white_start_skip(s@, a as int);
    }
    let mut b: usize = s.len();
    while b > a && white_space(s[b - 1])
        invariant
            a <= b <= s.len(),
            forall|j: int| b <= j < s.len() ==> is_white_space(s@[j]),
        decreases b,
    {
        b = b - 1;
    }
    proof {
        let rest = s@.skip(a as int);
        if a < s.len() {
            assert(rest[0] == s@[a as int]);
            assert(trim_white_start(rest) == rest);
        } else {
            assert(rest.len() == 0);
        }
        assert forall|j: int| (b - a) <= j < rest.len() implies is_white_space(rest[j]) by {
            assert(rest[j] == s@[j + a]);
        }
        lemma_trim_white_end_take(rest, b - a);
        let kept = rest.take(b - a);
        if b > a {
            assert(kept.last() == s@[b - 1]);
        }
        assert(kept =~= s@.subrange(a as int, b as int));
    }
    crate::text::slice_chars(s, a, b)
}

// ---------------------------------------------------------------------
// Podman machine state
// ---------------------------------------------------------------------
pub open spec fn running_line() -> Seq<char> {
    "machinestate: Running"@
}

/// Whether `podman machine info` reported a running machine: one of its
/// lines, trimmed, reads `machinestate: Running`.
pub open spec fn reports_running(info: Seq<char>) -> bool {
    exists|i: int| 0 <= i < lines(info).len() && trim_white(#[trigger] lines(info)[i]) == running_line()
}

pub fn machine_running(stdout: &Vec<u8>) -> (b: bool)
    ensures
        b == reports_running(lossy_utf8(stdout@)),
        b <==> exists|i: int|
            0 <= i < lines(lossy_utf8(stdout@)).len() && trim_white(
                #[trigger] lines(lossy_utf8(stdout@))[i],
            ) == "machinestate: Running"@,
{
    let text = decode_lossy(stdout.as_slice());
    let chars = chars_of(text.as_str());
    let ls = split_lines(&chars);
    let ghost lv = ls@.map_values(|l: Vec<char>| l@);
    let target = "machinestate: Running";
    assert(target@ == running_line());
    let mut i: usize = 0;
    while i < ls.len()
        invariant
            i <= ls.len(),
            lv == ls@.map_values(|l: Vec<char>| l@),
            lv == lines(lossy_utf8(stdout@)),
            target@ == running_line(),
            forall|j: int| 0 <= j < i ==> trim_white(#[trigger] lv[j]) != running_line(),
        decreases ls.len() - i,
    {
        let trimmed = trim_white_chars(&ls[i]);
        let line = string_from_chars(&trimmed);
        assert(lv[i as int] == ls@[i as int]@);
        assert(line@ == trim_white(lv[i as int]));
        if crate::text::same_text(line.as_str(), target) {
            assert(trim_white(lines(lossy_utf8(stdout@))[i as int]) == running_line());
            return true;
        }
        i = i + 1;
    }
    false
}

} // verus!
