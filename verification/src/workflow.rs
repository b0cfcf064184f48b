//! The order of a run: for each definition, build its image, audit it,
//! read its description, write its report, remove the image and, if asked,
//! prune the engine; then report the builds that failed, if any; then, if
//! asked, write the index page.
//!
//! A failed build is recorded and the run goes on with the next
//! definition; any other failure ends the run with that error.

use vstd::prelude::*;

verus! {

/// What a run has to do next.
pub enum Step {
    /// Build the image of the definition with this index.
    Build(usize),
    /// Audit the image built from it.
    Audit(usize),
    /// Read its description.
    Describe(usize),
    /// Write its report.
    Write(usize),
    /// Remove its image.
    Remove(usize),
    /// Prune the engine's caches.
    Clean(usize),
    /// Report these failed builds, each as `definition: error`.
    ReportFailures(Vec<String>),
    /// Write the index page.
    WriteIndex,
    /// The run is over.
    Stop(Ending),
}

/// How a run ends.
pub enum Ending {
    /// Every step after a build succeeded; these builds failed, each as
    /// `definition: error`.
    Completed(Vec<String>),
    /// A step other than a build failed with this error.
    Aborted(String),
}

/// How the last step went.
pub enum Outcome {
    Done,
    Failed(String),
}

pub enum Phase {
    Building,
    Auditing,
    Describing,
    Writing,
    Removing,
    Cleaning,
    Reporting,
    Indexing,
    Finished,
}

/// A run under way.
pub struct Workflow {
    names: Vec<String>,
    prune: bool,
    html: bool,
    current: usize,
    phase: Phase,
    failures: Vec<String>,
}

pub enum StepV {
    Build(int),
    Audit(int),
    Describe(int),
    Write(int),
    Remove(int),
    Clean(int),
    ReportFailures(Seq<Seq<char>>),
    WriteIndex,
    Completed(Seq<Seq<char>>),
    Aborted(Seq<char>),
}

pub struct WorkflowV {
    pub names: Seq<Seq<char>>,
    pub prune: bool,
    pub html: bool,
    pub current: int,
    pub phase: Phase,
    pub failures: Seq<Seq<char>>,
}

pub open spec fn texts(v: Seq<String>) -> Seq<Seq<char>> {
    v.map_values(|s: String| s@)
}

impl View for Step {
    type V = StepV;

    open spec fn view(&self) -> StepV {
        match self {
            Step::Build(i) => StepV::Build(*i as int),
            Step::Audit(i) => StepV::Audit(*i as int),
            Step::Describe(i) => StepV::Describe(*i as int),
            Step::Write(i) => StepV::Write(*i as int),
            Step::Remove(i) => StepV::Remove(*i as int),
            Step::Clean(i) => StepV::Clean(*i as int),
            Step::ReportFailures(f) => StepV::ReportFailures(texts(f@)),
            Step::WriteIndex => StepV::WriteIndex,
            Step::Stop(Ending::Completed(f)) => StepV::Completed(texts(f@)),
            Step::Stop(Ending::Aborted(e)) => StepV::Aborted(e@),
        }
    }
}

impl View for Workflow {
    type V = WorkflowV;

    closed spec fn view(&self) -> WorkflowV {
        WorkflowV {
            names: texts(self.names@),
            prune: self.prune,
            html: self.html,
            current: self.current as int,
            phase: self.phase,
            failures: texts(self.failures@),
        }
    }
}

/// What comes once every definition is done with and the failed builds are
/// reported: the index page, if asked for, or the end.
pub open spec fn finish(w: WorkflowV) -> (WorkflowV, StepV) {
    if w.html {
        (WorkflowV { phase: Phase::Indexing, ..w }, StepV::WriteIndex)
    } else {
        (WorkflowV { phase: Phase::Finished, ..w }, StepV::Completed(w.failures))
    }
}

/// What comes once the definition `i` is done with: the next definition's
/// build; or, after the last one, the report of the failed builds if there
/// are any, else what `finish` gives.
pub open spec fn after(w: WorkflowV, i: int) -> (WorkflowV, StepV) {
    let v = WorkflowV { current: i + 1, ..w };
    if i + 1 < w.names.len() {
        (WorkflowV { phase: Phase::Building, ..v }, StepV::Build(i + 1))
    } else if w.failures.len() > 0 {
        (WorkflowV { phase: Phase::Reporting, ..v }, StepV::ReportFailures(w.failures))
    } else {
        finish(v)
    }
}

/// How a run over the definitions `names` starts.
pub open spec fn start_of(names: Seq<Seq<char>>, prune: bool, html: bool) -> (WorkflowV, StepV) {
    let w = WorkflowV {
        names,
        prune,
        html,
        current: 0,
        phase: Phase::Building,
        failures: Seq::empty(),
    };
    if names.len() > 0 {
        (w, StepV::Build(0))
    } else {
        after(w, -1)
    }
}

/// What follows the outcome `o` of the step a run last asked for.
pub open spec fn next_of(w: WorkflowV, o: Outcome) -> (WorkflowV, StepV) {
    let i = w.current;
    let stopped = WorkflowV { phase: Phase::Finished, ..w };
    match o {
        Outcome::Failed(e) => match w.phase {
            Phase::Building => after(
                WorkflowV { failures: w.failures.push(w.names[i] + ": "@ + e@), ..w },
                i,
            ),
            _ => (stopped, StepV::Aborted(e@)),
        },
        Outcome::Done => match w.phase {
            Phase::Building => (WorkflowV { phase: Phase::Auditing, ..w }, StepV::Audit(i)),
            Phase::Auditing => (WorkflowV { phase: Phase::Describing, ..w }, StepV::Describe(i)),
            Phase::Describing => (WorkflowV { phase: Phase::Writing, ..w }, StepV::Write(i)),
            Phase::Writing => (WorkflowV { phase: Phase::Removing, ..w }, StepV::Remove(i)),
            Phase::Removing => if w.prune {
                (WorkflowV { phase: Phase::Cleaning, ..w }, StepV::Clean(i))
            } else {
                after(w, i)
            },
            Phase::Cleaning => after(w, i),
            Phase::Reporting => finish(w),
            _ => (stopped, StepV::Completed(w.failures)),
        },
    }
}

/// Whether a run's state is one a run can be in.
pub open spec fn valid(w: WorkflowV) -> bool {
    match w.phase {
        Phase::Reporting | Phase::Indexing | Phase::Finished => 0 <= w.current <= w.names.len(),
        _ => 0 <= w.current < w.names.len(),
    }
}

pub open spec fn rank(p: Phase) -> int {
    match p {
        Phase::Building => 0,
        Phase::Auditing => 1,
        Phase::Describing => 2,
        Phase::Writing => 3,
        Phase::Removing => 4,
        Phase::Cleaning => 5,
        _ => 0,
    }
}

/// An upper bound on the steps a run still has to take.
pub open spec fn remaining(w: WorkflowV) -> int {
    match w.phase {
        Phase::Finished => 0,
        Phase::Indexing => 1,
        Phase::Reporting => 2,
        _ => (w.names.len() - w.current) * 6 - rank(w.phase) + 2,
    }
}

impl Workflow {
    pub closed spec fn well_formed(&self) -> bool {
        &&& valid(self@)
        &&& self.names@.len() < usize::MAX
    }

    fn finish_exec(self) -> (r: (Workflow, Step))
        requires
            self.current <= self.names@.len() < usize::MAX,
        ensures
            (r.0@, r.1@) == finish(self@),
            r.0.well_formed(),
    {
        if self.html {
            (Workflow { phase: Phase::Indexing, ..self }, Step::WriteIndex)
        } else {
            let fs = copy_texts(&self.failures);
            (Workflow { phase: Phase::Finished, ..self }, Step::Stop(Ending::Completed(fs)))
        }
    }

    fn after_exec(self, i: usize) -> (r: (Workflow, Step))
        requires
            i < self.names@.len() < usize::MAX,
        ensures
            (r.0@, r.1@) == after(self@, i as int),
            r.0.well_formed(),
    {
        let Workflow { names, prune, html, current, phase, failures } = self;
        if i + 1 < names.len() {
            (Workflow { names, prune, html, current: i + 1, phase: Phase::Building, failures }, Step::Build(i + 1))
        } else if failures.len() > 0 {
            let fs = copy_texts(&failures);
            (
                Workflow { names, prune, html, current: i + 1, phase: Phase::Reporting, failures },
                Step::ReportFailures(fs),
            )
        } else {
            let v = Workflow { names, prune, html, current: i + 1, phase, failures };
            v.finish_exec()
        }
    }

    /// Starts a run over the definitions named `names` (as they are shown).
    pub fn start(names: Vec<String>, prune: bool, html: bool) -> (r: (Workflow, Step))
        requires
            names@.len() < usize::MAX,
        ensures
            (r.0@, r.1@) == start_of(texts(names@), prune, html),
            r.0.well_formed(),
    {
        let failures: Vec<String> = Vec::new();
        let none: Vec<String> = Vec::new();
        assert(texts(failures@) =~= Seq::<Seq<char>>::empty());
        assert(texts(none@) =~= Seq::<Seq<char>>::empty());
        if names.len() > 0 {
            (Workflow { names, prune, html, current: 0, phase: Phase::Building, failures }, Step::Build(0))
        } else if html {
            (Workflow { names, prune, html, current: 0, phase: Phase::Indexing, failures }, Step::WriteIndex)
        } else {
            (
                Workflow { names, prune, html, current: 0, phase: Phase::Finished, failures },
                Step::Stop(Ending::Completed(none)),
            )
        }
    }

    pub fn is_finished(&self) -> (b: bool)
        ensures
            b == (self@.phase is Finished),
    {
        match self.phase {
            Phase::Finished => true,
            _ => false,
        }
    }

    /// Takes the outcome of the step last asked for: the run that follows
    /// and its next step.
    pub fn next(self, o: Outcome) -> (r: (Workflow, Step))
        requires
            self.well_formed(),
        ensures
            (r.0@, r.1@) == next_of(self@, o),
            r.0.well_formed(),
    {
        let ghost w = self@;
        let i = self.current;
        match o {
            Outcome::Failed(e) => match self.phase {
                Phase::Building => {
                    let Workflow { names, prune, html, current, phase, mut failures } = self;
                    let mut line = names[i].clone();
                    line.append(": ");
                    line.append(e.as_str());
                    proof {
                        lemma_texts_push(failures@, line);
                        assert(names@[i as int]@ == w.names[i as int]);
                    }
                    failures.push(line);
                    let r = Workflow { names, prune, html, current, phase, failures };
                    r.after_exec(i)
                },
                _ => {
                    let Workflow { names, prune, html, current, phase, failures } = self;
                    (
                        Workflow { names, prune, html, current, phase: Phase::Finished, failures },
                        Step::Stop(Ending::Aborted(e)),
                    )
                },
            },
            Outcome::Done => match self.phase {
                Phase::Building => (Workflow { phase: Phase::Auditing, ..self }, Step::Audit(i)),
                Phase::Auditing => (Workflow { phase: Phase::Describing, ..self }, Step::Describe(i)),
                Phase::Describing => (Workflow { phase: Phase::Writing, ..self }, Step::Write(i)),
                Phase::Writing => (Workflow { phase: Phase::Removing, ..self }, Step::Remove(i)),
                Phase::Removing => {
                    if self.prune {
                        (Workflow { phase: Phase::Cleaning, ..self }, Step::Clean(i))
                    } else {
                        self.after_exec(i)
                    }
                },
                Phase::Cleaning => self.after_exec(i),
                Phase::Reporting => self.finish_exec(),
                _ => {
                    let fs = copy_texts(&self.failures);
                    (Workflow { phase: Phase::Finished, ..self }, Step::Stop(Ending::Completed(fs)))
                },
            },
        }
    }
}

proof fn lemma_texts_push(s: Seq<String>, x: String)
    ensures
        texts(s.push(x)) == texts(s).push(x@),
{
    assert(texts(s.push(x)) =~= texts(s).push(x@));
}

fn copy_texts(v: &Vec<String>) -> (r: Vec<String>)
    ensures
        texts(r@) == texts(v@),
{
    let mut r: Vec<String> = Vec::new();
    let mut i: usize = 0;
    while i < v.len()
        invariant
            i <= v.len(),
            texts(r@) == texts(v@.take(i as int)),
        decreases v.len() - i,
    {
        let c = v[i].clone();
        assert(c == v@[i as int]);
        proof {
            lemma_texts_push(r@, c);
            lemma_texts_push(v@.take(i as int), c);
            assert(v@.take(i + 1) =~= v@.take(i as int).push(c));
        }
        r.push(c);
        i = i + 1;
    }
    assert(v@.take(v.len() as int) =~= v@);
    r
}

/// Every run ends: each step it takes brings it closer to its end, and
/// only a finished run asks for nothing more.
pub proof fn lemma_run_ends(w: WorkflowV, o: Outcome)
    requires
        valid(w),
        !(w.phase is Finished),
    ensures
        remaining(next_of(w, o).0) < remaining(w),
        valid(next_of(w, o).0),
        next_of(w, o).0.phase is Finished <==> (next_of(w, o).1 is Completed || next_of(
            w,
            o,
        ).1 is Aborted),
{
}

/// A failed build is recorded as `definition: error` and its image goes no
/// further: the run moves on to the next definition, the index page or its
/// end. Failures are only ever recorded for builds.
pub proof fn lemma_failed_build_skips(w: WorkflowV, e: String)
    requires
        valid(w),
        w.phase is Building,
    ensures
        next_of(w, Outcome::Failed(e)).0.failures == w.failures.push(
            w.names[w.current] + ": "@ + e@,
        ),
        next_of(w, Outcome::Failed(e)).1 is Build || next_of(w, Outcome::Failed(e)).1 is ReportFailures,
        next_of(w, Outcome::Failed(e)).1 matches StepV::Build(j) ==> j == w.current + 1,
{
}

/// Failed builds are reported before the index page is written and before
/// the run ends: once a build has failed, no step of a definition leads
/// straight to the index page or to the end; the step after the last
/// definition reports exactly the failures recorded.
pub proof fn lemma_failures_reported_first(w: WorkflowV, o: Outcome)
    requires
        valid(w),
        !(w.phase is Reporting || w.phase is Indexing || w.phase is Finished),
        next_of(w, o).0.failures.len() > 0,
    ensures
        !(next_of(w, o).1 is WriteIndex),
        !(next_of(w, o).1 is Completed),
        next_of(w, o).1 matches StepV::ReportFailures(f) ==> f == next_of(w, o).0.failures
            && next_of(w, o).0.phase is Reporting,
{
}

/// Once the failures are reported, the run goes on to the index page if it
/// was asked for, and otherwise ends with those failures.
pub proof fn lemma_report_then_finish(w: WorkflowV)
    requires
        valid(w),
        w.phase is Reporting,
    ensures
        w.html ==> next_of(w, Outcome::Done).1 is WriteIndex,
        !w.html ==> next_of(w, Outcome::Done).1 == StepV::Completed(w.failures),
{
}

/// A failure of any step but a build ends the run at once with that
/// error: a failed audit, description, report, removal, pruning, failure
/// report or index page is neither skipped nor recorded.
pub proof fn lemma_other_failures_abort(w: WorkflowV, e: String)
    requires
        valid(w),
        !(w.phase is Building),
        !(w.phase is Finished),
    ensures
        next_of(w, Outcome::Failed(e)).1 == StepV::Aborted(e@),
        next_of(w, Outcome::Failed(e)).0.phase is Finished,
        next_of(w, Outcome::Failed(e)).0.failures == w.failures,
{
}

/// Only a failed build is recorded; a step that succeeds records nothing.
pub proof fn lemma_failures_only_from_builds(w: WorkflowV, o: Outcome)
    requires
        valid(w),
        !(w.phase is Building && o is Failed),
    ensures
        next_of(w, o).0.failures == w.failures,
{
}

} // verus!
