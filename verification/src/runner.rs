//! The registry of test cases and the machine that runs them in order.

use vstd::prelude::*;
use crate::client::ClientError;
use crate::outcome::Outcome;
use crate::scenario::Scenario;

verus! {

/// A test case: a display name and the script to run.
#[derive(Debug, PartialEq, Eq)]
pub struct TestCase {
    pub name: String,
    pub scenario: Scenario,
}

/// Where a run of the suite stands.
#[derive(Clone, Copy, Debug, PartialEq, Eq)]
pub enum RunPhase {
    /// Nothing has happened yet.
    Idle,
    /// The reachability probe is under way.
    Probing,
    /// A case is under way.
    Running,
    /// The run is over.
    Finished,
}

/// What the runner asks its driver to do next.
#[derive(Debug, PartialEq, Eq)]
pub enum RunAction {
    /// Probe whether the service can be reached.
    Probe,
    /// Run the case at this place of the registry and hand back its outcome.
    Invoke { group: usize, case: usize },
    /// The run is over: so many cases passed, of so many that ran.
    Report { passed: usize, total: usize },
    /// The service could not be reached; no case ran.
    Unreachable(ClientError),
    /// The event answers nothing that the runner asked for; nothing changed.
    Rejected,
}

/// What the driver hands back to the runner.
#[derive(Debug, PartialEq, Eq)]
pub enum RunEvent {
    /// The run is to start.
    Begin,
    /// The result of the reachability probe.
    Probed(Result<String, ClientError>),
    /// The outcome of the case that was invoked last.
    CaseDone(Outcome),
}

/// Collects test cases in named groups and runs them one by one.
#[derive(Debug, PartialEq, Eq)]
pub struct TestRunner {
    groups: Vec<(&'static str, Vec<TestCase>)>,
    phase: RunPhase,
    group: usize,
    case: usize,
    passed: usize,
    total: usize,
}

/// The state of a runner as the contracts speak of it.
pub ghost struct RunnerModel {
    /// The groups in the order of their registration.
    pub groups: Seq<(&'static str, Vec<TestCase>)>,
    pub phase: RunPhase,
    /// While a case runs: the place of its group.
    pub group: usize,
    /// While a case runs: its place in its group.
    pub case: usize,
    /// The number of cases that passed.
    pub passed: usize,
    /// The number of cases that ran.
    pub total: usize,
}

/// The number of cases in the first `group` groups.
pub open spec fn cases_before(groups: Seq<(&'static str, Vec<TestCase>)>, group: int) -> nat
    decreases group,
{
    if group <= 0 || group > groups.len() {
        0
    } else {
        cases_before(groups, group - 1) + groups[group - 1].1@.len()
    }
}

/// The number of cases in all groups.
pub open spec fn total_cases(groups: Seq<(&'static str, Vec<TestCase>)>) -> nat {
    cases_before(groups, groups.len() as int)
}

/// The number of cases that stand before the place `(group, case)`.
pub open spec fn place_number(
    groups: Seq<(&'static str, Vec<TestCase>)>,
    group: int,
    case: int,
) -> int {
    cases_before(groups, group) + case
}

/// Whether a case stands at the place `(group, case)`.
pub open spec fn is_place(groups: Seq<(&'static str, Vec<TestCase>)>, group: int, case: int) -> bool {
    0 <= group < groups.len() && 0 <= case < groups[group].1@.len()
}

/// The first place at or behind `(group, case)` at which a case stands;
/// `(groups.len(), 0)` where there is none.
pub open spec fn seek(groups: Seq<(&'static str, Vec<TestCase>)>, group: int, case: int) -> (
    int,
    int,
)
    decreases groups.len() - group,
{
    if group < 0 || group >= groups.len() {
        (groups.len() as int, 0)
    } else if 0 <= case < groups[group].1@.len() {
        (group, case)
    } else {
        seek(groups, group + 1, 0)
    }
}

/// The runner that turns to the place `at`: it invokes the case there, or
/// reports where the places have run out.
pub open spec fn turned_to(s: RunnerModel, at: (int, int), passed: usize, total: usize) -> (
    RunnerModel,
    RunAction,
) {
    if at.0 < s.groups.len() {
        (
            RunnerModel {
                phase: RunPhase::Running,
                group: at.0 as usize,
                case: at.1 as usize,
                passed,
                total,
                ..s
            },
            RunAction::Invoke { group: at.0 as usize, case: at.1 as usize },
        )
    } else {
        (
            RunnerModel { phase: RunPhase::Finished, passed, total, ..s },
            RunAction::Report { passed, total },
        )
    }
}

/// The runner at the start of a run over `groups`: the probe is under way,
/// nothing has run and nothing has passed.
pub open spec fn begun(groups: Seq<(&'static str, Vec<TestCase>)>) -> RunnerModel {
    RunnerModel { groups, phase: RunPhase::Probing, group: 0, case: 0, passed: 0, total: 0 }
}

/// One step of the runner.
///
/// `Begin` starts a run, on a runner that has not run and on one whose run
/// is over alike: the counters start at zero and the runner asks for the
/// probe. If the probe fails, the run is over and no case has run.
/// Otherwise the cases run in the order of their registration, each once,
/// whatever the outcome of the one before; each counts, and each success
/// counts as passed. An event that answers nothing pending changes nothing.
/// No step changes the groups.
pub open spec fn advanced(s: RunnerModel, e: RunEvent) -> (RunnerModel, RunAction) {
    match (s.phase, e) {
        (RunPhase::Idle, RunEvent::Begin) => (begun(s.groups), RunAction::Probe),
        (RunPhase::Finished, RunEvent::Begin) => (begun(s.groups), RunAction::Probe),
        (RunPhase::Probing, RunEvent::Probed(Err(error))) => (
            RunnerModel { phase: RunPhase::Finished, ..s },
            RunAction::Unreachable(error),
        ),
        (RunPhase::Probing, RunEvent::Probed(Ok(_))) => turned_to(
            s,
            seek(s.groups, 0, 0),
            s.passed,
            s.total,
        ),
        (RunPhase::Running, RunEvent::CaseDone(outcome)) => turned_to(
            s,
            seek(s.groups, s.group as int, s.case + 1),
            if outcome is Success {
                (s.passed + 1) as usize
            } else {
                s.passed
            },
            (s.total + 1) as usize,
        ),
        _ => (s, RunAction::Rejected),
    }
}

/// The runner after it was handed each of `events` in turn.
pub open spec fn after_events(s: RunnerModel, events: Seq<RunEvent>) -> RunnerModel
    decreases events.len(),
{
    if events.len() == 0 {
        s
    } else {
        advanced(after_events(s, events.drop_last()), events.last()).0
    }
}

/// What the runner answers to each of `events` when it is handed them in
/// turn.
pub open spec fn answers(s: RunnerModel, events: Seq<RunEvent>) -> Seq<RunAction>
    decreases events.len(),
{
    if events.len() == 0 {
        Seq::empty()
    } else {
        answers(s, events.drop_last()).push(
            advanced(after_events(s, events.drop_last()), events.last()).1,
        )
    }
}

/// Whether no run is under way: the runner has not run, or its run is over.
pub open spec fn at_rest(s: RunnerModel) -> bool {
    s.phase is Idle || s.phase is Finished
}

/// The states that a runner can be in.
pub open spec fn sound(s: RunnerModel) -> bool {
    &&& s.groups.len() <= usize::MAX
    &&& total_cases(s.groups) <= usize::MAX
    &&& s.passed <= s.total
    &&& (s.phase is Idle || s.phase is Probing) ==> s.total == 0
    &&& s.phase is Running ==> is_place(s.groups, s.group as int, s.case as int) && s.total
        == place_number(s.groups, s.group as int, s.case as int)
}

/// The places are numbered in the order of the groups: the number of a place
/// is below the number of cases, and the count up to a group never exceeds
/// the count up to a later one.
pub proof fn lemma_cases_before_grows(
    groups: Seq<(&'static str, Vec<TestCase>)>,
    group: int,
    later: int,
)
    requires
        0 <= group <= later <= groups.len(),
    ensures
        cases_before(groups, group) <= cases_before(groups, later),
    decreases later - group,
{
    if group < later {
        lemma_cases_before_grows(groups, group, later - 1);
    }
}

/// Seeking skips no case: the place found has the number of the place asked
/// for, or, where the places have run out, that number is the number of all
/// cases.
pub proof fn lemma_seek(groups: Seq<(&'static str, Vec<TestCase>)>, group: int, case: int)
    requires
        0 <= group <= groups.len(),
        group < groups.len() ==> 0 <= case <= groups[group].1@.len(),
        group == groups.len() ==> case == 0,
    ensures
        ({
            let at = seek(groups, group, case);
            &&& at.0 <= groups.len()
            &&& at.0 < groups.len() ==> is_place(groups, at.0, at.1) && place_number(
                groups,
                at.0,
                at.1,
            ) == place_number(groups, group, case)
            &&& at.0 == groups.len() ==> at.1 == 0 && total_cases(groups) == place_number(
                groups,
                group,
                case,
            )
        }),
    decreases groups.len() - group,
{
    if group < groups.len() && !(case < groups[group].1@.len()) {
        lemma_seek(groups, group + 1, 0);
    }
}

/// A place's number is below the number of all cases.
pub proof fn lemma_place_is_counted(
    groups: Seq<(&'static str, Vec<TestCase>)>,
    group: int,
    case: int,
)
    requires
        is_place(groups, group, case),
    ensures
        place_number(groups, group, case) < total_cases(groups),
{
    lemma_cases_before_grows(groups, group + 1, groups.len() as int);
}

/// A group at the end leaves the numbers of the places before it as they
/// were.
pub proof fn lemma_push_keeps_places(
    groups: Seq<(&'static str, Vec<TestCase>)>,
    added: (&'static str, Vec<TestCase>),
    group: int,
)
    requires
        0 <= group <= groups.len(),
    ensures
        cases_before(groups.push(added), group) == cases_before(groups, group),
    decreases group,
{
    if group > 0 {
        lemma_push_keeps_places(groups, added, group - 1);
        assert(groups.push(added)[group - 1] == groups[group - 1]);
    }
}

/// A group at the end adds its cases to the number of all.
pub proof fn lemma_push_group(
    groups: Seq<(&'static str, Vec<TestCase>)>,
    added: (&'static str, Vec<TestCase>),
)
    ensures
        total_cases(groups.push(added)) == total_cases(groups) + added.1@.len(),
{
    lemma_push_keeps_places(groups, added, groups.len() as int);
    assert(groups.push(added)[groups.len() as int] == added);
}

/// Whatever event a runner is handed, it stays in a state that can be.
pub proof fn lemma_advance_keeps_sound(s: RunnerModel, e: RunEvent)
    requires
        sound(s),
    ensures
        sound(advanced(s, e).0),
        advanced(s, e).0.groups == s.groups,
{
    lemma_seek(s.groups, 0, 0);
    if s.phase is Running {
        lemma_seek(s.groups, s.group as int, s.case + 1);
        lemma_place_is_counted(s.groups, s.group as int, s.case as int);
    }
}

/// Cases run in the order of their registration, each once: the case that
/// is invoked stands at a place of the registry, and as many cases have run
/// before it as stand before it.
pub proof fn lemma_invoke_in_order(s: RunnerModel, e: RunEvent)
    requires
        sound(s),
        advanced(s, e).1 is Invoke,
    ensures
        ({
            let after = advanced(s, e);
            let group = after.1->Invoke_group;
            let case = after.1->Invoke_case;
            &&& is_place(s.groups, group as int, case as int)
            &&& place_number(s.groups, group as int, case as int) == after.0.total
            &&& after.0.phase is Running
        }),
{
    lemma_advance_keeps_sound(s, e);
}

/// The report counts every registered case, and no more passed than ran.
pub proof fn lemma_report_counts_all(s: RunnerModel, e: RunEvent)
    requires
        sound(s),
        advanced(s, e).1 is Report,
    ensures
        ({
            let after = advanced(s, e);
            &&& after.1->Report_total == total_cases(s.groups)
            &&& after.1->Report_passed <= after.1->Report_total
            &&& after.1->Report_passed == after.0.passed
            &&& after.1->Report_total == after.0.total
            &&& after.0.phase is Finished
        }),
{
    lemma_seek(s.groups, 0, 0);
    if s.phase is Running {
        lemma_seek(s.groups, s.group as int, s.case + 1);
        lemma_place_is_counted(s.groups, s.group as int, s.case as int);
    }
}

/// A failed probe ends the run before any case: nothing ran, nothing
/// passed, and the runner asks for nothing more until a run is begun anew.
pub proof fn lemma_unreachable_runs_nothing(s: RunnerModel, e: RunEvent, later: RunEvent)
    requires
        sound(s),
        advanced(s, e).1 is Unreachable,
    ensures
        ({
            let after = advanced(s, e).0;
            &&& s.phase is Probing
            &&& after.total == 0
            &&& after.passed == 0
            &&& after.phase is Finished
            &&& !(later is Begin) ==> advanced(after, later).1 is Rejected && advanced(
                after,
                later,
            ).0 == after
            &&& later is Begin ==> advanced(after, later).1 is Probe
        }),
{
}

/// No case runs before the probe has succeeded: a runner at rest asks for
/// the probe when it is told to begin, and for nothing else.
pub proof fn lemma_probe_comes_first(s: RunnerModel, e: RunEvent)
    requires
        at_rest(s),
    ensures
        !(advanced(s, e).1 is Invoke),
        advanced(s, e).1 is Probe <==> e is Begin,
        e is Begin ==> advanced(s, e).0 == begun(s.groups),
{
}

/// Running changes no registry: after any events the groups are those that
/// were there, in their order.
pub proof fn lemma_run_keeps_groups(s: RunnerModel, events: Seq<RunEvent>)
    ensures
        after_events(s, events).groups == s.groups,
    decreases events.len(),
{
    if events.len() > 0 {
        lemma_run_keeps_groups(s, events.drop_last());
    }
}

/// Whatever events a runner is handed, it stays in a state that can be.
pub proof fn lemma_run_keeps_sound(s: RunnerModel, events: Seq<RunEvent>)
    requires
        sound(s),
    ensures
        sound(after_events(s, events)),
    decreases events.len(),
{
    if events.len() > 0 {
        lemma_run_keeps_sound(s, events.drop_last());
        lemma_advance_keeps_sound(after_events(s, events.drop_last()), events.last());
    }
}

/// A run depends on the registry and on the events alone. Two runners at
/// rest with the same groups, handed the same events from `Begin` on, give
/// the same answers and end in the same state, whatever either did before.
pub proof fn lemma_runs_agree(s: RunnerModel, t: RunnerModel, events: Seq<RunEvent>)
    requires
        at_rest(s),
        at_rest(t),
        s.groups == t.groups,
        events.len() > 0,
        events[0] is Begin,
    ensures
        after_events(s, events) == after_events(t, events),
        answers(s, events) == answers(t, events),
    decreases events.len(),
{
    let front = events.drop_last();
    if front.len() == 0 {
        assert(after_events(s, front) == s);
        assert(after_events(t, front) == t);
        assert(events.last() == events[0]);
        assert(answers(s, front) =~= answers(t, front));
    } else {
        assert(front[0] == events[0]);
        lemma_runs_agree(s, t, front);
    }
}

/// A runner can be run again, with the same result. Once the events of a
/// run have brought the runner to its end, the same events bring it to the
/// same end once more, and it gives the same answers on the way, the report
/// among them.
pub proof fn lemma_second_run_reports_the_same(s: RunnerModel, events: Seq<RunEvent>)
    requires
        at_rest(s),
        events.len() > 0,
        events[0] is Begin,
        after_events(s, events).phase is Finished,
    ensures
        after_events(after_events(s, events), events) == after_events(s, events),
        answers(after_events(s, events), events) == answers(s, events),
        after_events(s, events).groups == s.groups,
{
    lemma_run_keeps_groups(s, events);
    lemma_runs_agree(after_events(s, events), s, events);
}

/// Each case counts once when it is done, and as passed exactly when its
/// outcome is a success; a failure stops nothing.
pub proof fn lemma_case_is_tallied(s: RunnerModel, outcome: Outcome)
    requires
        sound(s),
        s.phase is Running,
    ensures
        ({
            let after = advanced(s, RunEvent::CaseDone(outcome));
            &&& after.0.total == s.total + 1
            &&& after.0.passed == s.passed + (if outcome is Success {
                1int
            } else {
                0int
            })
            &&& after.1 is Invoke || after.1 is Report
        }),
{
    lemma_seek(s.groups, s.group as int, s.case + 1);
    lemma_place_is_counted(s.groups, s.group as int, s.case as int);
}

impl View for TestRunner {
    type V = RunnerModel;

    closed spec fn view(&self) -> RunnerModel {
        RunnerModel {
            groups: self.groups@,
            phase: self.phase,
            group: self.group,
            case: self.case,
            passed: self.passed,
            total: self.total,
        }
    }
}

impl TestRunner {
    /// Whether the runner is in a state that can be.
    pub open spec fn wf(&self) -> bool {
        sound(self@)
    }

    /// A runner without groups that has not begun.
    pub fn new() -> (r: Self)
        ensures
            r.wf(),
            r@ == (RunnerModel {
                groups: Seq::empty(),
                phase: RunPhase::Idle,
                group: 0,
                case: 0,
                passed: 0,
                total: 0,
            }),
    {
        TestRunner {
            groups: Vec::new(),
            phase: RunPhase::Idle,
            group: 0,
            case: 0,
            passed: 0,
            total: 0,
        }
    }

    /// Registers a named group of test cases behind the groups that are
    /// there. The number of all cases has to fit a `usize`.
    pub fn add_group(&mut self, name: &'static str, tests: Vec<TestCase>)
        requires
            old(self).wf(),
            total_cases(old(self)@.groups) + tests@.len() <= usize::MAX,
        ensures
            final(self).wf(),
            final(self)@ == (RunnerModel {
                groups: old(self)@.groups.push((name, tests)),
                ..old(self)@
            }),
    {
        proof {
            lemma_push_group(self.groups@, (name, tests));
            if self.phase is Running {
                lemma_push_keeps_places(self.groups@, (name, tests), self.group as int);
            }
        }
        self.groups.push((name, tests));
        assert(self.groups@.len() == self.groups.len());
    }

    /// The number of groups.
    pub fn group_count(&self) -> (r: usize)
        ensures
            r == self@.groups.len(),
    {
        self.groups.len()
    }

    /// The name of the group at `group`.
    pub fn group_name(&self, group: usize) -> (r: Option<&'static str>)
        ensures
            r == (if group < self@.groups.len() {
                Some(self@.groups[group as int].0)
            } else {
                None
            }),
    {
        if group < self.groups.len() {
            Some(self.groups[group].0)
        } else {
            None
        }
    }

    /// The case at the place `(group, case)`.
    pub fn case_at(&self, group: usize, case: usize) -> (r: Option<&TestCase>)
        ensures
            match r {
                Some(found) => is_place(self@.groups, group as int, case as int) && *found
                    == self@.groups[group as int].1@[case as int],
                None => !is_place(self@.groups, group as int, case as int),
            },
    {
        if group < self.groups.len() {
            let cases = &self.groups[group].1;
            if case < cases.len() {
                return Some(&cases[case]);
            }
        }
        None
    }

    /// Where the run stands.
    pub fn phase(&self) -> (r: RunPhase)
        ensures
            r == self@.phase,
    {
        self.phase
    }

    /// The number of cases that passed so far.
    pub fn passed(&self) -> (r: usize)
        ensures
            r == self@.passed,
    {
        self.passed
    }

    /// The number of cases that ran so far.
    pub fn total(&self) -> (r: usize)
        ensures
            r == self@.total,
    {
        self.total
    }

    fn find_place(&self, group: usize, case: usize) -> (r: (usize, usize))
        requires
            group <= self.groups@.len(),
        ensures
            (r.0 as int, r.1 as int) == seek(self.groups@, group as int, case as int),
    {
        let mut g = group;
        let mut c = case;
        while g < self.groups.len()
            invariant
                g <= self.groups@.len(),
                seek(self.groups@, group as int, case as int) == seek(
                    self.groups@,
                    g as int,
                    c as int,
                ),
            decreases self.groups@.len() - g,
        {
            if c < self.groups[g].1.len() {
                return (g, c);
            }
            g += 1;
            c = 0;
        }
        (g, 0)
    }

    fn turn_to(&mut self, at: (usize, usize), passed: usize, total: usize) -> (action: RunAction)
        ensures
            final(self)@ == turned_to(old(self)@, (at.0 as int, at.1 as int), passed, total).0,
            action == turned_to(old(self)@, (at.0 as int, at.1 as int), passed, total).1,
    {
        self.passed = passed;
        self.total = total;
        if at.0 < self.groups.len() {
            self.phase = RunPhase::Running;
            self.group = at.0;
            self.case = at.1;
            RunAction::Invoke { group: at.0, case: at.1 }
        } else {
            self.phase = RunPhase::Finished;
            RunAction::Report { passed, total }
        }
    }

    fn begin(&mut self) -> (action: RunAction)
        ensures
            final(self)@ == begun(old(self)@.groups),
            action == RunAction::Probe,
    {
        self.phase = RunPhase::Probing;
        self.group = 0;
        self.case = 0;
        self.passed = 0;
        self.total = 0;
        RunAction::Probe
    }

    /// Takes one step of the run: hands the runner the result of what it
    /// asked for last and returns what it asks for next. `Begin` starts a
    /// run; on a runner whose run is over it starts the next one. The
    /// groups stay as they are.
    pub fn run(&mut self, event: RunEvent) -> (action: RunAction)
        requires
            old(self).wf(),
        ensures
            final(self).wf(),
            final(self)@ == advanced(old(self)@, event).0,
            action == advanced(old(self)@, event).1,
            final(self)@.groups == old(self)@.groups,
    {
        match (self.phase, event) {
            (RunPhase::Idle, RunEvent::Begin) => self.begin(),
            (RunPhase::Finished, RunEvent::Begin) => self.begin(),
            (RunPhase::Probing, RunEvent::Probed(Err(error))) => {
                self.phase = RunPhase::Finished;
                RunAction::Unreachable(error)
            },
            (RunPhase::Probing, RunEvent::Probed(Ok(_))) => {
                proof {
                    lemma_seek(self.groups@, 0, 0);
                }
                let at = self.find_place(0, 0);
                let passed = self.passed;
                let total = self.total;
                self.turn_to(at, passed, total)
            },
            (RunPhase::Running, RunEvent::CaseDone(outcome)) => {
                proof {
                    lemma_seek(self.groups@, self.group as int, self.case + 1);
                    lemma_place_is_counted(self.groups@, self.group as int, self.case as int);
                }
                let at = self.find_place(self.group, self.case + 1);
                let passed = if outcome.is_success() {
                    self.passed + 1
                } else {
                    self.passed
                };
                let total = self.total + 1;
                self.turn_to(at, passed, total)
            },
            _ => RunAction::Rejected,
        }
    }
}

impl RunAction {
    /// Tells whether the run ended with every case passed: the condition
    /// for a clean exit.
    pub fn is_clean(&self) -> (r: bool)
        ensures
            r == (self matches RunAction::Report { passed, total } && passed == total),
    {
        match self {
            RunAction::Report { passed, total } => *passed == *total,
            _ => false,
        }
    }
}

} // verus!
