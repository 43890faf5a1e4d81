//! The suite as it ships: the groups of cases and their order.

use vstd::prelude::*;
use vstd::string::*;
use crate::runner::{total_cases, RunPhase, TestCase, TestRunner};
use crate::scenario::Scenario;

verus! {

/// Whether `case` is the named case of `scenario`.
pub open spec fn is_case(case: TestCase, name: Seq<char>, scenario: Scenario) -> bool {
    case.name@ == name && case.scenario == scenario
}

fn named(name: &str, scenario: Scenario) -> (r: TestCase)
    ensures
        is_case(r, name@, scenario),
{
    TestCase { name: String::from_str(name), scenario }
}

/// The cases on creating, reading and deleting a session.
pub fn crud_cases() -> (r: Vec<TestCase>)
    ensures
        r@.len() == 4,
        is_case(r@[0], "Create session"@, Scenario::CreateSession),
        is_case(r@[1], "Get session"@, Scenario::GetSession),
        is_case(r@[2], "Delete session"@, Scenario::DeleteSession),
        is_case(r@[3], "404 on missing session"@, Scenario::MissingSession),
{
    let mut r: Vec<TestCase> = Vec::new();
    r.push(named("Create session", Scenario::CreateSession));
    r.push(named("Get session", Scenario::GetSession));
    r.push(named("Delete session", Scenario::DeleteSession));
    r.push(named("404 on missing session", Scenario::MissingSession));
    r
}

/// The case on creating sessions side by side.
pub fn concurrent_cases() -> (r: Vec<TestCase>)
    ensures
        r@.len() == 1,
        is_case(r@[0], "Concurrent sessions (10 parallel)"@, Scenario::ConcurrentSessions),
{
    let mut r: Vec<TestCase> = Vec::new();
    r.push(named("Concurrent sessions (10 parallel)", Scenario::ConcurrentSessions));
    r
}

/// The case on the expiry of a session.
pub fn ttl_cases() -> (r: Vec<TestCase>)
    ensures
        r@.len() == 1,
        is_case(r@[0], "Session TTL expiration (60s)"@, Scenario::SessionTtl),
{
    let mut r: Vec<TestCase> = Vec::new();
    r.push(named("Session TTL expiration (60s)", Scenario::SessionTtl));
    r
}

/// The cases on recovery: after churn, and after the crash of a worker.
pub fn recovery_cases() -> (r: Vec<TestCase>)
    ensures
        r@.len() == 2,
        is_case(r@[0], "Pool reuse after churn"@, Scenario::PoolReuse),
        is_case(r@[1], "Worker failure recovery"@, Scenario::WorkerRecovery),
{
    let mut r: Vec<TestCase> = Vec::new();
    r.push(named("Pool reuse after churn", Scenario::PoolReuse));
    r.push(named("Worker failure recovery", Scenario::WorkerRecovery));
    r
}

/// A runner with the four groups of the suite, in their order, that has not
/// begun.
pub fn standard_suite() -> (r: TestRunner)
    ensures
        r.wf(),
        r@.phase is Idle,
        r@.groups.len() == 4,
        r@.groups[0].0@ == "CRUD Operations"@,
        r@.groups[1].0@ == "Concurrency"@,
        r@.groups[2].0@ == "TTL Expiration"@,
        r@.groups[3].0@ == "Recovery"@,
        r@.groups[0].1@.len() == 4,
        r@.groups[1].1@.len() == 1,
        r@.groups[2].1@.len() == 1,
        r@.groups[3].1@.len() == 2,
        is_case(r@.groups[0].1@[0], "Create session"@, Scenario::CreateSession),
        is_case(r@.groups[0].1@[1], "Get session"@, Scenario::GetSession),
        is_case(r@.groups[0].1@[2], "Delete session"@, Scenario::DeleteSession),
        is_case(r@.groups[0].1@[3], "404 on missing session"@, Scenario::MissingSession),
        is_case(
            r@.groups[1].1@[0],
            "Concurrent sessions (10 parallel)"@,
            Scenario::ConcurrentSessions,
        ),
        is_case(r@.groups[2].1@[0], "Session TTL expiration (60s)"@, Scenario::SessionTtl),
        is_case(r@.groups[3].1@[0], "Pool reuse after churn"@, Scenario::PoolReuse),
        is_case(r@.groups[3].1@[1], "Worker failure recovery"@, Scenario::WorkerRecovery),
        total_cases(r@.groups) == 8,
{
    let mut r = TestRunner::new();
    assert(total_cases(r@.groups) == 0);
    r.add_group("CRUD Operations", crud_cases());
    proof {
        crate::runner::lemma_push_group(Seq::empty(), r@.groups[0]);
        assert(r@.groups =~= Seq::empty().push(r@.groups[0]));
    }
    let ghost one = r@.groups;
    r.add_group("Concurrency", concurrent_cases());
    proof {
        crate::runner::lemma_push_group(one, r@.groups[1]);
    }
    let ghost two = r@.groups;
    r.add_group("TTL Expiration", ttl_cases());
    proof {
        crate::runner::lemma_push_group(two, r@.groups[2]);
    }
    let ghost three = r@.groups;
    r.add_group("Recovery", recovery_cases());
    proof {
        crate::runner::lemma_push_group(three, r@.groups[3]);
    }
    r
}

} // verus!
