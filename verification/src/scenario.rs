//! The scenarios, each a script of calls to the service. A script is a step
//! machine: it is handed the result of the action it asked for last and
//! answers with the next action. Whoever drives it performs the actions.

use vstd::prelude::*;
use vstd::string::*;
use crate::client::ClientError;
use crate::fanout::{created_ids, fan_out_outcome, judge_fan_out, sort_slots};
use crate::hygiene::{lemma_step_keeps_well_formed, well_formed};
use crate::outcome::{Diagnostic, Outcome};
use crate::session::Session;
use crate::status::NO_CONTENT;
use crate::text::{decimal, decimal_text};

verus! {

/// The number of creations that the concurrency scenario launches at once.
pub const FAN_OUT: usize = 10;

/// The number of sessions that the pool scenario creates in each round.
pub const POOL_ROUND: usize = 3;

/// Seconds after which the service has dropped an untouched session: its
/// time to live.
pub const EXPIRY_SECS: u64 = 60;

/// Seconds between two sweeps of the service for expired sessions.
pub const SWEEP_SECS: u64 = 5;

/// Seconds that the expiry scenario waits before it looks for the session.
pub const EXPIRY_WAIT_SECS: u64 = 67;

/// Seconds that the recovery scenario gives the service to notice a crash.
pub const CRASH_GRACE_SECS: u64 = 3;

/// Seconds that the pool scenario lets the service settle between rounds.
pub const SETTLE_SECS: u64 = 1;

/// The scripts that the harness knows.
#[derive(Clone, Copy, Debug, PartialEq, Eq)]
pub enum Scenario {
    /// Create a session and look at what came back.
    CreateSession,
    /// Create a session and read it back.
    GetSession,
    /// Create a session, delete it, and see that it is gone.
    DeleteSession,
    /// Ask for a session that nobody created.
    MissingSession,
    /// Create several sessions at once.
    ConcurrentSessions,
    /// Let a session expire.
    SessionTtl,
    /// Fill the pool, empty it, and fill it again.
    PoolReuse,
    /// Crash the worker of a session and see the service recover.
    WorkerRecovery,
}

/// The payloads that the scripts send: an object whose member `user` names
/// the script, and the slot where several are sent.
#[derive(Clone, Copy, Debug, PartialEq, Eq)]
pub enum Payload {
    TestCreate,
    TestGet,
    TestDelete,
    TtlTest,
    CrashTest,
    PostCrash,
    Concurrent(usize),
    Churn(usize),
    Fresh(usize),
}

/// What a script asks its driver to do next.
#[derive(Debug, PartialEq, Eq)]
pub enum Action {
    /// Create a session with this payload.
    Create(Payload),
    /// Read the session of this id.
    Get(String),
    /// Read the session of the fabricated id.
    GetFabricated,
    /// Delete the session of this id.
    Delete(String),
    /// Make the service end the worker of this session.
    CrashWorker(String),
    /// Wait this many seconds.
    Sleep(u64),
    /// Create this many sessions at once, slot `i` with the payload
    /// `Concurrent(i)`, each over a connection of its own.
    FanOut(usize),
    /// The script is over, with this outcome.
    Finish(Outcome),
}

/// What the driver hands back: the result of the action asked for last.
#[derive(Debug, PartialEq, Eq)]
pub enum Event {
    /// The script is to start.
    Begin,
    Created(Result<Session, ClientError>),
    Fetched(Result<Session, ClientError>),
    Deleted(Result<u16, ClientError>),
    Crashed(Result<(), ClientError>),
    Slept,
    /// The results of a fan-out, slot by slot. A task that broke down
    /// stands there as a `TaskFailure`.
    FannedOut(Vec<Result<Session, ClientError>>),
}

/// Where a script stands: what it waits for.
#[derive(Clone, Copy, Debug, PartialEq, Eq)]
pub enum Phase {
    Ready,
    Creating,
    Fetching,
    Deleting,
    Crashing,
    Sleeping,
    FanningOut,
    Recreating,
    Filling,
    Draining,
    Refilling,
    Cleaning,
    Done,
}

/// One run of a script.
#[derive(Debug, PartialEq, Eq)]
pub struct ScenarioRun {
    scenario: Scenario,
    phase: Phase,
    subject: Option<String>,
    live: Vec<String>,
    verdict: Outcome,
}

/// The state of a run as the contracts speak of it.
pub ghost struct RunModel {
    /// The script that runs.
    pub scenario: Scenario,
    /// What it waits for.
    pub phase: Phase,
    /// The id of the session that the script is about, once it exists.
    pub subject: Option<String>,
    /// The ids of the sessions that the run created, whose deletion it has
    /// not yet asked for and which it has not seen gone, oldest first.
    pub live: Seq<String>,
    /// The outcome that is reported once the cleanup is over.
    pub verdict: Outcome,
}

/// The text of the member `user` in a payload.
pub open spec fn payload_user(payload: Payload) -> Seq<char> {
    match payload {
        Payload::TestCreate => "test_create"@,
        Payload::TestGet => "test_get"@,
        Payload::TestDelete => "test_delete"@,
        Payload::TtlTest => "ttl_test"@,
        Payload::CrashTest => "crash_test"@,
        Payload::PostCrash => "post_crash"@,
        Payload::Concurrent(i) => "concurrent_"@ + decimal(i as nat),
        Payload::Churn(i) => "churn_"@ + decimal(i as nat),
        Payload::Fresh(i) => "fresh_"@ + decimal(i as nat),
    }
}

/// The id that the missing-session script asks for.
pub open spec fn fabricated() -> Seq<char> {
    "nonexistent-session-id-12345"@
}

/// The id of a session that nobody created.
pub fn fabricated_id() -> (r: &'static str)
    ensures
        r@ == fabricated(),
{
    "nonexistent-session-id-12345"
}

fn numbered(stem: &str, i: usize) -> (r: String)
    ensures
        r@ == stem@ + decimal(i as nat),
{
    let mut r = String::from_str(stem);
    let digits = decimal_text(i as u64);
    r.append(digits.as_str());
    r
}

impl Payload {
    /// The text of the member `user`.
    pub fn user(&self) -> (r: String)
        ensures
            r@ == payload_user(*self),
    {
        match self {
            Payload::TestCreate => String::from_str("test_create"),
            Payload::TestGet => String::from_str("test_get"),
            Payload::TestDelete => String::from_str("test_delete"),
            Payload::TtlTest => String::from_str("ttl_test"),
            Payload::CrashTest => String::from_str("crash_test"),
            Payload::PostCrash => String::from_str("post_crash"),
            Payload::Concurrent(i) => numbered("concurrent_", *i),
            Payload::Churn(i) => numbered("churn_", *i),
            Payload::Fresh(i) => numbered("fresh_", *i),
        }
    }

    /// The payload as a JSON value: an object with the one member `user`.
    pub fn json(&self) -> (r: crate::json::Json)
        ensures
            r.text_member("user"@) == Some(payload_user(*self)),
            r is Object,
            r->Object_0@.len() == 1,
    {
        let user = self.user();
        crate::json::Json::user_payload(user.as_str())
    }
}

/// What a created session is checked for: an id that is not empty, a
/// creation time that is not null, and the member `user` of the payload.
pub open spec fn created_check(session: Session, payload: Payload) -> Outcome {
    if session.id@.len() == 0 {
        Outcome::Failure(Diagnostic::EmptyId)
    } else if session.created_at.null() {
        Outcome::Failure(Diagnostic::NullCreatedAt)
    } else if session.data.text_member("user"@) != Some(payload_user(payload)) {
        Outcome::Failure(Diagnostic::UnexpectedData(session.data))
    } else {
        Outcome::Success
    }
}

/// What a fetched session is checked for: the id of the created session and
/// the member `user` of the payload.
pub open spec fn fetched_check(session: Session, created: String, payload: Payload) -> Outcome {
    if session.id@ != created@ {
        Outcome::Failure(Diagnostic::IdMismatch { fetched: session.id, created })
    } else if session.data.text_member("user"@) != Some(payload_user(payload)) {
        Outcome::Failure(Diagnostic::UnexpectedData(session.data))
    } else {
        Outcome::Success
    }
}

/// The end of a script: while sessions are live, the deletion of the oldest;
/// then the outcome.
pub open spec fn wound_down(
    scenario: Scenario,
    subject: Option<String>,
    live: Seq<String>,
    verdict: Outcome,
) -> (RunModel, Action) {
    if live.len() == 0 {
        (
            RunModel { scenario, phase: Phase::Done, subject, live, verdict: Outcome::Success },
            Action::Finish(verdict),
        )
    } else {
        (
            RunModel { scenario, phase: Phase::Cleaning, subject, live: live.remove(0), verdict },
            Action::Delete(live[0]),
        )
    }
}

/// The step of a run that goes on: a new phase, the same sessions.
pub open spec fn moved_on(s: RunModel, phase: Phase, action: Action) -> (RunModel, Action) {
    (RunModel { phase, ..s }, action)
}

/// The step of a run that was handed an event it did not wait for.
pub open spec fn out_of_turn(s: RunModel) -> (RunModel, Action) {
    wound_down(s.scenario, s.subject, s.live, Outcome::Failure(Diagnostic::OutOfTurn))
}

/// The step of a run that fails with `diagnostic`.
pub open spec fn failed(s: RunModel, diagnostic: Diagnostic) -> (RunModel, Action) {
    wound_down(s.scenario, s.subject, s.live, Outcome::Failure(diagnostic))
}

/// The step of a run that has created the session it is about.
pub open spec fn adopted(s: RunModel, id: String, phase: Phase, action: Action) -> (
    RunModel,
    Action,
) {
    (RunModel { phase, subject: Some(id), live: s.live.push(id), ..s }, action)
}

/// The create script: create, check what came back, clean up.
pub open spec fn next_create(s: RunModel, e: Event) -> (RunModel, Action) {
    match (s.phase, e) {
        (Phase::Ready, Event::Begin) => moved_on(
            s,
            Phase::Creating,
            Action::Create(Payload::TestCreate),
        ),
        (Phase::Creating, Event::Created(Ok(session))) => wound_down(
            s.scenario,
            Some(session.id),
            s.live.push(session.id),
            created_check(session, Payload::TestCreate),
        ),
        (Phase::Creating, Event::Created(Err(error))) => failed(s, Diagnostic::Call(error)),
        _ => out_of_turn(s),
    }
}

/// The get script: create, read back, check, clean up.
pub open spec fn next_get(s: RunModel, e: Event) -> (RunModel, Action) {
    match (s.phase, e, s.subject) {
        (Phase::Ready, Event::Begin, _) => moved_on(
            s,
            Phase::Creating,
            Action::Create(Payload::TestGet),
        ),
        (Phase::Creating, Event::Created(Ok(session)), _) => adopted(
            s,
            session.id,
            Phase::Fetching,
            Action::Get(session.id),
        ),
        (Phase::Creating, Event::Created(Err(error)), _) => failed(s, Diagnostic::Call(error)),
        (Phase::Fetching, Event::Fetched(Ok(session)), Some(created)) => wound_down(
            s.scenario,
            s.subject,
            s.live,
            fetched_check(session, created, Payload::TestGet),
        ),
        (Phase::Fetching, Event::Fetched(Err(error)), _) => failed(s, Diagnostic::Call(error)),
        _ => out_of_turn(s),
    }
}

/// The delete script: create, delete, and see that the session is gone.
/// The deletion has to answer "no content".
pub open spec fn next_delete(s: RunModel, e: Event) -> (RunModel, Action) {
    match (s.phase, e, s.subject) {
        (Phase::Ready, Event::Begin, _) => moved_on(
            s,
            Phase::Creating,
            Action::Create(Payload::TestDelete),
        ),
        (Phase::Creating, Event::Created(Ok(session)), _) => (
            RunModel { phase: Phase::Deleting, subject: Some(session.id), ..s },
            Action::Delete(session.id),
        ),
        (Phase::Creating, Event::Created(Err(error)), _) => failed(s, Diagnostic::Call(error)),
        (Phase::Deleting, Event::Deleted(Ok(status)), Some(id)) => if status == NO_CONTENT {
            moved_on(s, Phase::Fetching, Action::Get(id))
        } else {
            failed(s, Diagnostic::DeleteStatus(status))
        },
        (Phase::Deleting, Event::Deleted(Err(error)), _) => failed(s, Diagnostic::Call(error)),
        (Phase::Fetching, Event::Fetched(Err(ClientError::NotFound)), _) => wound_down(
            s.scenario,
            s.subject,
            s.live,
            Outcome::Success,
        ),
        (Phase::Fetching, Event::Fetched(Ok(session)), _) => failed(
            s,
            Diagnostic::StillExists(session.id),
        ),
        (Phase::Fetching, Event::Fetched(Err(error)), _) => failed(s, Diagnostic::Call(error)),
        _ => out_of_turn(s),
    }
}

/// The missing-session script: ask for the fabricated id and expect
/// `NotFound`.
pub open spec fn next_missing(s: RunModel, e: Event) -> (RunModel, Action) {
    match (s.phase, e) {
        (Phase::Ready, Event::Begin) => moved_on(s, Phase::Fetching, Action::GetFabricated),
        (Phase::Fetching, Event::Fetched(Err(ClientError::NotFound))) => wound_down(
            s.scenario,
            s.subject,
            s.live,
            Outcome::Success,
        ),
        (Phase::Fetching, Event::Fetched(Ok(_))) => failed(s, Diagnostic::ExpectedMissing),
        (Phase::Fetching, Event::Fetched(Err(error))) => failed(s, Diagnostic::Call(error)),
        _ => out_of_turn(s),
    }
}

/// The concurrency script: create `FAN_OUT` sessions at once, judge the
/// slots, and delete every session that came into being.
pub open spec fn next_concurrent(s: RunModel, e: Event) -> (RunModel, Action) {
    match (s.phase, e) {
        (Phase::Ready, Event::Begin) => moved_on(s, Phase::FanningOut, Action::FanOut(FAN_OUT)),
        (Phase::FanningOut, Event::FannedOut(slots)) => wound_down(
            s.scenario,
            s.subject,
            s.live + created_ids(slots@),
            fan_out_outcome(slots@, FAN_OUT),
        ),
        _ => out_of_turn(s),
    }
}

/// The expiry script: create, wait out the expiry, and expect `NotFound`.
/// A session that is still there is deleted.
pub open spec fn next_ttl(s: RunModel, e: Event) -> (RunModel, Action) {
    match (s.phase, e, s.subject) {
        (Phase::Ready, Event::Begin, _) => moved_on(
            s,
            Phase::Creating,
            Action::Create(Payload::TtlTest),
        ),
        (Phase::Creating, Event::Created(Ok(session)), _) => adopted(
            s,
            session.id,
            Phase::Sleeping,
            Action::Sleep(EXPIRY_WAIT_SECS),
        ),
        (Phase::Creating, Event::Created(Err(error)), _) => failed(s, Diagnostic::Call(error)),
        (Phase::Sleeping, Event::Slept, Some(id)) => moved_on(s, Phase::Fetching, Action::Get(id)),
        (Phase::Fetching, Event::Fetched(Err(ClientError::NotFound)), _) => wound_down(
            s.scenario,
            s.subject,
            Seq::empty(),
            Outcome::Success,
        ),
        (Phase::Fetching, Event::Fetched(Ok(_)), _) => failed(s, Diagnostic::StillAlive),
        (Phase::Fetching, Event::Fetched(Err(error)), _) => failed(s, Diagnostic::Call(error)),
        _ => out_of_turn(s),
    }
}

/// The pool script: create `POOL_ROUND` sessions, delete them all, let the
/// service settle, and create as many again. A failure names its phase: 1
/// the first round, 2 the deletions, 4 the second round.
pub open spec fn next_pool(s: RunModel, e: Event) -> (RunModel, Action) {
    match (s.phase, e) {
        (Phase::Ready, Event::Begin) => moved_on(
            s,
            Phase::Filling,
            Action::Create(Payload::Churn(0)),
        ),
        (Phase::Filling, Event::Created(Ok(session))) => {
            let live = s.live.push(session.id);
            if live.len() < POOL_ROUND {
                (
                    RunModel { live, ..s },
                    Action::Create(Payload::Churn(live.len() as usize)),
                )
            } else {
                (
                    RunModel { phase: Phase::Draining, live: live.remove(0), ..s },
                    Action::Delete(live[0]),
                )
            }
        },
        (Phase::Filling, Event::Created(Err(error))) => failed(
            s,
            Diagnostic::Phase { phase: 1, error },
        ),
        (Phase::Draining, Event::Deleted(Ok(_))) => if s.live.len() > 0 {
            (RunModel { live: s.live.remove(0), ..s }, Action::Delete(s.live[0]))
        } else {
            moved_on(s, Phase::Sleeping, Action::Sleep(SETTLE_SECS))
        },
        (Phase::Draining, Event::Deleted(Err(error))) => failed(
            s,
            Diagnostic::Phase { phase: 2, error },
        ),
        (Phase::Sleeping, Event::Slept) => moved_on(
            s,
            Phase::Refilling,
            Action::Create(Payload::Fresh(0)),
        ),
        (Phase::Refilling, Event::Created(Ok(session))) => {
            let live = s.live.push(session.id);
            if live.len() < POOL_ROUND {
                (
                    RunModel { live, ..s },
                    Action::Create(Payload::Fresh(live.len() as usize)),
                )
            } else {
                wound_down(s.scenario, s.subject, live, Outcome::Success)
            }
        },
        (Phase::Refilling, Event::Created(Err(error))) => failed(
            s,
            Diagnostic::Phase { phase: 4, error },
        ),
        _ => out_of_turn(s),
    }
}

/// The recovery script: create a session (phase 1), crash its worker (2),
/// wait (3), expect the session to be gone (4), and create another (5).
/// Every failure names its phase.
pub open spec fn next_recovery(s: RunModel, e: Event) -> (RunModel, Action) {
    match (s.phase, e, s.subject) {
        (Phase::Ready, Event::Begin, _) => moved_on(
            s,
            Phase::Creating,
            Action::Create(Payload::CrashTest),
        ),
        (Phase::Creating, Event::Created(Ok(session)), _) => adopted(
            s,
            session.id,
            Phase::Crashing,
            Action::CrashWorker(session.id),
        ),
        (Phase::Creating, Event::Created(Err(error)), _) => failed(
            s,
            Diagnostic::Phase { phase: 1, error },
        ),
        (Phase::Crashing, Event::Crashed(Ok(_)), _) => moved_on(
            s,
            Phase::Sleeping,
            Action::Sleep(CRASH_GRACE_SECS),
        ),
        (Phase::Crashing, Event::Crashed(Err(error)), _) => failed(
            s,
            Diagnostic::Phase { phase: 2, error },
        ),
        (Phase::Sleeping, Event::Slept, Some(id)) => moved_on(s, Phase::Fetching, Action::Get(id)),
        (Phase::Fetching, Event::Fetched(Err(ClientError::NotFound)), _) => (
            RunModel { phase: Phase::Recreating, live: Seq::empty(), ..s },
            Action::Create(Payload::PostCrash),
        ),
        (Phase::Fetching, Event::Fetched(Ok(_)), _) => failed(s, Diagnostic::CrashedSessionAlive),
        (Phase::Fetching, Event::Fetched(Err(error)), _) => failed(
            s,
            Diagnostic::Phase { phase: 4, error },
        ),
        (Phase::Recreating, Event::Created(Ok(session)), _) => wound_down(
            s.scenario,
            s.subject,
            s.live.push(session.id),
            Outcome::Success,
        ),
        (Phase::Recreating, Event::Created(Err(error)), _) => failed(
            s,
            Diagnostic::Phase { phase: 5, error },
        ),
        _ => out_of_turn(s),
    }
}

/// One step of a run: the state after the event `e`, and the action that the
/// script asks for next.
///
/// A run that is over answers every event with `Finish` and a failure. A run
/// that cleans up goes on cleaning whatever the deletion gave. Otherwise the
/// script of the scenario decides.
pub open spec fn next(s: RunModel, e: Event) -> (RunModel, Action) {
    match s.phase {
        Phase::Done => (s, Action::Finish(Outcome::Failure(Diagnostic::OutOfTurn))),
        Phase::Cleaning => wound_down(s.scenario, s.subject, s.live, s.verdict),
        _ => match s.scenario {
            Scenario::CreateSession => next_create(s, e),
            Scenario::GetSession => next_get(s, e),
            Scenario::DeleteSession => next_delete(s, e),
            Scenario::MissingSession => next_missing(s, e),
            Scenario::ConcurrentSessions => next_concurrent(s, e),
            Scenario::SessionTtl => next_ttl(s, e),
            Scenario::PoolReuse => next_pool(s, e),
            Scenario::WorkerRecovery => next_recovery(s, e),
        },
    }
}

impl View for ScenarioRun {
    type V = RunModel;

    closed spec fn view(&self) -> RunModel {
        RunModel {
            scenario: self.scenario,
            phase: self.phase,
            subject: self.subject,
            live: self.live@,
            verdict: self.verdict,
        }
    }
}

fn check_created(session: Session, payload: Payload) -> (r: (String, Outcome))
    ensures
        r.0 == session.id,
        r.1 == created_check(session, payload),
{
    let user = payload.user();
    let Session { id, created_at, data } = session;
    let verdict = if id.as_str().is_empty() {
        Outcome::Failure(Diagnostic::EmptyId)
    } else if created_at.is_null() {
        Outcome::Failure(Diagnostic::NullCreatedAt)
    } else if !data.has_text_member("user", user.as_str()) {
        Outcome::Failure(Diagnostic::UnexpectedData(data))
    } else {
        Outcome::Success
    };
    (id, verdict)
}

fn check_fetched(session: Session, created: String, payload: Payload) -> (r: Outcome)
    ensures
        r == fetched_check(session, created, payload),
{
    let user = payload.user();
    let Session { id, created_at, data } = session;
    if id != created {
        Outcome::Failure(Diagnostic::IdMismatch { fetched: id, created })
    } else if !data.has_text_member("user", user.as_str()) {
        Outcome::Failure(Diagnostic::UnexpectedData(data))
    } else {
        Outcome::Success
    }
}

fn wind_down(scenario: Scenario, subject: Option<String>, live: Vec<String>, verdict: Outcome) -> (r:
    (ScenarioRun, Action))
    ensures
        r.0@ == wound_down(scenario, subject, live@, verdict).0,
        r.1 == wound_down(scenario, subject, live@, verdict).1,
{
    let mut live = live;
    if live.len() == 0 {
        (
            ScenarioRun { scenario, phase: Phase::Done, subject, live, verdict: Outcome::Success },
            Action::Finish(verdict),
        )
    } else {
        let id = live.remove(0);
        (ScenarioRun { scenario, phase: Phase::Cleaning, subject, live, verdict }, Action::Delete(id))
    }
}

impl ScenarioRun {
    /// A run of `scenario` that has not begun.
    pub fn new(scenario: Scenario) -> (r: Self)
        ensures
            r@ == (RunModel {
                scenario,
                phase: Phase::Ready,
                subject: None,
                live: Seq::empty(),
                verdict: Outcome::Success,
            }),
            well_formed(r@),
    {
        ScenarioRun {
            scenario,
            phase: Phase::Ready,
            subject: None,
            live: Vec::new(),
            verdict: Outcome::Success,
        }
    }

    /// The script that runs.
    pub fn scenario(&self) -> (r: Scenario)
        ensures
            r == self@.scenario,
    {
        self.scenario
    }

    /// What the run waits for.
    pub fn phase(&self) -> (r: Phase)
        ensures
            r == self@.phase,
    {
        self.phase
    }

    /// The ids of the sessions that the run has yet to clean up.
    pub fn live(&self) -> (r: &Vec<String>)
        ensures
            r@ == self@.live,
    {
        &self.live
    }

    /// Tells whether the run is over.
    pub fn is_done(&self) -> (r: bool)
        ensures
            r == (self@.phase is Done),
    {
        match self.phase {
            Phase::Done => true,
            _ => false,
        }
    }

    fn go(self, phase: Phase, action: Action) -> (r: (ScenarioRun, Action))
        ensures
            r.0@ == moved_on(self@, phase, action).0,
            r.1 == action,
    {
        let ScenarioRun { scenario, phase: _, subject, live, verdict } = self;
        (ScenarioRun { scenario, phase, subject, live, verdict }, action)
    }

    fn fail(self, diagnostic: Diagnostic) -> (r: (ScenarioRun, Action))
        ensures
            r.0@ == failed(self@, diagnostic).0,
            r.1 == failed(self@, diagnostic).1,
    {
        let ScenarioRun { scenario, phase: _, subject, live, verdict: _ } = self;
        wind_down(scenario, subject, live, Outcome::Failure(diagnostic))
    }

    fn conclude(self, verdict: Outcome) -> (r: (ScenarioRun, Action))
        ensures
            r.0@ == wound_down(self@.scenario, self@.subject, self@.live, verdict).0,
            r.1 == wound_down(self@.scenario, self@.subject, self@.live, verdict).1,
    {
        let ScenarioRun { scenario, phase: _, subject, live, verdict: _ } = self;
        wind_down(scenario, subject, live, verdict)
    }

    fn adopt(self, id: String, phase: Phase, action: Action) -> (r: (ScenarioRun, Action))
        ensures
            r.0@ == adopted(self@, id, phase, action).0,
            r.1 == action,
    {
        let ScenarioRun { scenario, phase: _, subject: _, live, verdict } = self;
        let mut live = live;
        live.push(id.clone());
        (ScenarioRun { scenario, phase, subject: Some(id), live, verdict }, action)
    }

    fn forget_live(self) -> (r: ScenarioRun)
        ensures
            r@ == (RunModel { live: Seq::empty(), ..self@ }),
    {
        let ScenarioRun { scenario, phase, subject, live: _, verdict } = self;
        ScenarioRun { scenario, phase, subject, live: Vec::new(), verdict }
    }

    fn step_create(self, event: Event) -> (r: (ScenarioRun, Action))
        ensures
            r.0@ == next_create(self@, event).0,
            r.1 == next_create(self@, event).1,
    {
        match (self.phase, event) {
            (Phase::Ready, Event::Begin) => self.go(
                Phase::Creating,
                Action::Create(Payload::TestCreate),
            ),
            (Phase::Creating, Event::Created(Ok(session))) => {
                let (id, verdict) = check_created(session, Payload::TestCreate);
                let ScenarioRun { scenario, phase: _, subject: _, live, verdict: _ } = self;
                let mut live = live;
                live.push(id.clone());
                wind_down(scenario, Some(id), live, verdict)
            },
            (Phase::Creating, Event::Created(Err(error))) => self.fail(Diagnostic::Call(error)),
            _ => self.fail(Diagnostic::OutOfTurn),
        }
    }

    fn step_get(self, event: Event) -> (r: (ScenarioRun, Action))
        ensures
            r.0@ == next_get(self@, event).0,
            r.1 == next_get(self@, event).1,
    {
        match (self.phase, event) {
            (Phase::Ready, Event::Begin) => self.go(
                Phase::Creating,
                Action::Create(Payload::TestGet),
            ),
            (Phase::Creating, Event::Created(Ok(session))) => {
                let id = session.id;
                let action = Action::Get(id.clone());
                self.adopt(id, Phase::Fetching, action)
            },
            (Phase::Creating, Event::Created(Err(error))) => self.fail(Diagnostic::Call(error)),
            (Phase::Fetching, Event::Fetched(Ok(session))) => {
                match &self.subject {
                    Some(created) => {
                        let verdict = check_fetched(session, created.clone(), Payload::TestGet);
                        self.conclude(verdict)
                    },
                    None => self.fail(Diagnostic::OutOfTurn),
                }
            },
            (Phase::Fetching, Event::Fetched(Err(error))) => self.fail(Diagnostic::Call(error)),
            _ => self.fail(Diagnostic::OutOfTurn),
        }
    }

    fn step_delete(self, event: Event) -> (r: (ScenarioRun, Action))
        ensures
            r.0@ == next_delete(self@, event).0,
            r.1 == next_delete(self@, event).1,
    {
        match (self.phase, event) {
            (Phase::Ready, Event::Begin) => self.go(
                Phase::Creating,
                Action::Create(Payload::TestDelete),
            ),
            (Phase::Creating, Event::Created(Ok(session))) => {
                let id = session.id;
                let action = Action::Delete(id.clone());
                let ScenarioRun { scenario, phase: _, subject: _, live, verdict } = self;
                (
                    ScenarioRun { scenario, phase: Phase::Deleting, subject: Some(id), live, verdict },
                    action,
                )
            },
            (Phase::Creating, Event::Created(Err(error))) => self.fail(Diagnostic::Call(error)),
            (Phase::Deleting, Event::Deleted(Ok(status))) => {
                match &self.subject {
                    Some(id) => {
                        if status == NO_CONTENT {
                            let action = Action::Get(id.clone());
                            self.go(Phase::Fetching, action)
                        } else {
                            self.fail(Diagnostic::DeleteStatus(status))
                        }
                    },
                    None => self.fail(Diagnostic::OutOfTurn),
                }
            },
            (Phase::Deleting, Event::Deleted(Err(error))) => self.fail(Diagnostic::Call(error)),
            (Phase::Fetching, Event::Fetched(Err(ClientError::NotFound))) => self.conclude(
                Outcome::Success,
            ),
            (Phase::Fetching, Event::Fetched(Ok(session))) => self.fail(
                Diagnostic::StillExists(session.id),
            ),
            (Phase::Fetching, Event::Fetched(Err(error))) => self.fail(Diagnostic::Call(error)),
            _ => self.fail(Diagnostic::OutOfTurn),
        }
    }

    fn step_missing(self, event: Event) -> (r: (ScenarioRun, Action))
        ensures
            r.0@ == next_missing(self@, event).0,
            r.1 == next_missing(self@, event).1,
    {
        match (self.phase, event) {
            (Phase::Ready, Event::Begin) => self.go(Phase::Fetching, Action::GetFabricated),
            (Phase::Fetching, Event::Fetched(Err(ClientError::NotFound))) => self.conclude(
                Outcome::Success,
            ),
            (Phase::Fetching, Event::Fetched(Ok(_))) => self.fail(Diagnostic::ExpectedMissing),
            (Phase::Fetching, Event::Fetched(Err(error))) => self.fail(Diagnostic::Call(error)),
            _ => self.fail(Diagnostic::OutOfTurn),
        }
    }

    fn step_concurrent(self, event: Event) -> (r: (ScenarioRun, Action))
        ensures
            r.0@ == next_concurrent(self@, event).0,
            r.1 == next_concurrent(self@, event).1,
    {
        match (self.phase, event) {
            (Phase::Ready, Event::Begin) => self.go(Phase::FanningOut, Action::FanOut(FAN_OUT)),
            (Phase::FanningOut, Event::FannedOut(slots)) => {
                let (ids, errors) = sort_slots(slots);
                let verdict = judge_fan_out(&ids, errors, FAN_OUT);
                let ScenarioRun { scenario, phase: _, subject, live, verdict: _ } = self;
                let mut live = live;
                let mut ids = ids;
                live.append(&mut ids);
                wind_down(scenario, subject, live, verdict)
            },
            _ => self.fail(Diagnostic::OutOfTurn),
        }
    }

    fn step_ttl(self, event: Event) -> (r: (ScenarioRun, Action))
        ensures
            r.0@ == next_ttl(self@, event).0,
            r.1 == next_ttl(self@, event).1,
    {
        match (self.phase, event) {
            (Phase::Ready, Event::Begin) => self.go(
                Phase::Creating,
                Action::Create(Payload::TtlTest),
            ),
            (Phase::Creating, Event::Created(Ok(session))) => self.adopt(
                session.id,
                Phase::Sleeping,
                Action::Sleep(EXPIRY_WAIT_SECS),
            ),
            (Phase::Creating, Event::Created(Err(error))) => self.fail(Diagnostic::Call(error)),
            (Phase::Sleeping, Event::Slept) => {
                match &self.subject {
                    Some(id) => {
                        let action = Action::Get(id.clone());
                        self.go(Phase::Fetching, action)
                    },
                    None => self.fail(Diagnostic::OutOfTurn),
                }
            },
            (Phase::Fetching, Event::Fetched(Err(ClientError::NotFound))) => {
                self.forget_live().conclude(Outcome::Success)
            },
            (Phase::Fetching, Event::Fetched(Ok(_))) => self.fail(Diagnostic::StillAlive),
            (Phase::Fetching, Event::Fetched(Err(error))) => self.fail(Diagnostic::Call(error)),
            _ => self.fail(Diagnostic::OutOfTurn),
        }
    }

    fn step_pool(self, event: Event) -> (r: (ScenarioRun, Action))
        ensures
            r.0@ == next_pool(self@, event).0,
            r.1 == next_pool(self@, event).1,
    {
        match (self.phase, event) {
            (Phase::Ready, Event::Begin) => self.go(
                Phase::Filling,
                Action::Create(Payload::Churn(0)),
            ),
            (Phase::Filling, Event::Created(Ok(session))) => {
                let ScenarioRun { scenario, phase, subject, live, verdict } = self;
                let mut live = live;
                live.push(session.id);
                if live.len() < POOL_ROUND {
                    let action = Action::Create(Payload::Churn(live.len()));
                    (ScenarioRun { scenario, phase, subject, live, verdict }, action)
                } else {
                    let id = live.remove(0);
                    (
                        ScenarioRun { scenario, phase: Phase::Draining, subject, live, verdict },
                        Action::Delete(id),
                    )
                }
            },
            (Phase::Filling, Event::Created(Err(error))) => self.fail(
                Diagnostic::Phase { phase: 1, error },
            ),
            (Phase::Draining, Event::Deleted(Ok(_))) => {
                if self.live.len() > 0 {
                    let ScenarioRun { scenario, phase, subject, live, verdict } = self;
                    let mut live = live;
                    let id = live.remove(0);
                    (ScenarioRun { scenario, phase, subject, live, verdict }, Action::Delete(id))
                } else {
                    self.go(Phase::Sleeping, Action::Sleep(SETTLE_SECS))
                }
            },
            (Phase::Draining, Event::Deleted(Err(error))) => self.fail(
                Diagnostic::Phase { phase: 2, error },
            ),
            (Phase::Sleeping, Event::Slept) => self.go(
                Phase::Refilling,
                Action::Create(Payload::Fresh(0)),
            ),
            (Phase::Refilling, Event::Created(Ok(session))) => {
                let ScenarioRun { scenario, phase, subject, live, verdict } = self;
                let mut live = live;
                live.push(session.id);
                if live.len() < POOL_ROUND {
                    let action = Action::Create(Payload::Fresh(live.len()));
                    (ScenarioRun { scenario, phase, subject, live, verdict }, action)
                } else {
                    wind_down(scenario, subject, live, Outcome::Success)
                }
            },
            (Phase::Refilling, Event::Created(Err(error))) => self.fail(
                Diagnostic::Phase { phase: 4, error },
            ),
            _ => self.fail(Diagnostic::OutOfTurn),
        }
    }

    fn step_recovery(self, event: Event) -> (r: (ScenarioRun, Action))
        ensures
            r.0@ == next_recovery(self@, event).0,
            r.1 == next_recovery(self@, event).1,
    {
        match (self.phase, event) {
            (Phase::Ready, Event::Begin) => self.go(
                Phase::Creating,
                Action::Create(Payload::CrashTest),
            ),
            (Phase::Creating, Event::Created(Ok(session))) => {
                let id = session.id;
                let action = Action::CrashWorker(id.clone());
                self.adopt(id, Phase::Crashing, action)
            },
            (Phase::Creating, Event::Created(Err(error))) => self.fail(
                Diagnostic::Phase { phase: 1, error },
            ),
            (Phase::Crashing, Event::Crashed(Ok(_))) => self.go(
                Phase::Sleeping,
                Action::Sleep(CRASH_GRACE_SECS),
            ),
            (Phase::Crashing, Event::Crashed(Err(error))) => self.fail(
                Diagnostic::Phase { phase: 2, error },
            ),
            (Phase::Sleeping, Event::Slept) => {
                match &self.subject {
                    Some(id) => {
                        let action = Action::Get(id.clone());
                        self.go(Phase::Fetching, action)
                    },
                    None => self.fail(Diagnostic::OutOfTurn),
                }
            },
            (Phase::Fetching, Event::Fetched(Err(ClientError::NotFound))) => {
                self.forget_live().go(Phase::Recreating, Action::Create(Payload::PostCrash))
            },
            (Phase::Fetching, Event::Fetched(Ok(_))) => self.fail(
                Diagnostic::CrashedSessionAlive,
            ),
            (Phase::Fetching, Event::Fetched(Err(error))) => self.fail(
                Diagnostic::Phase { phase: 4, error },
            ),
            (Phase::Recreating, Event::Created(Ok(session))) => {
                let ScenarioRun { scenario, phase: _, subject, live, verdict: _ } = self;
                let mut live = live;
                live.push(session.id);
                wind_down(scenario, subject, live, Outcome::Success)
            },
            (Phase::Recreating, Event::Created(Err(error))) => self.fail(
                Diagnostic::Phase { phase: 5, error },
            ),
            _ => self.fail(Diagnostic::OutOfTurn),
        }
    }

    /// Takes one step: hands the run the result of the action it asked for
    /// last (`Begin` at the start) and returns the run after it with the
    /// action it asks for next.
    pub fn step(self, event: Event) -> (r: (ScenarioRun, Action))
        ensures
            r.0@ == next(self@, event).0,
            r.1 == next(self@, event).1,
            well_formed(self@) ==> well_formed(r.0@),
    {
        proof {
            if well_formed(self@) {
                lemma_step_keeps_well_formed(self@, event);
            }
        }
        match self.phase {
            Phase::Done => (self, Action::Finish(Outcome::Failure(Diagnostic::OutOfTurn))),
            Phase::Cleaning => {
                let ScenarioRun { scenario, phase: _, subject, live, verdict } = self;
                wind_down(scenario, subject, live, verdict)
            },
            _ => match self.scenario {
                Scenario::CreateSession => self.step_create(event),
                Scenario::GetSession => self.step_get(event),
                Scenario::DeleteSession => self.step_delete(event),
                Scenario::MissingSession => self.step_missing(event),
                Scenario::ConcurrentSessions => self.step_concurrent(event),
                Scenario::SessionTtl => self.step_ttl(event),
                Scenario::PoolReuse => self.step_pool(event),
                Scenario::WorkerRecovery => self.step_recovery(event),
            },
        }
    }
}

} // verus!
