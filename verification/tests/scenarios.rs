use steel_tester::client::ClientError;
use steel_tester::fanout::{count_distinct, judge_fan_out, sort_slots};
use steel_tester::json::Json;
use steel_tester::outcome::{Diagnostic, Outcome};
use steel_tester::scenario::{
    fabricated_id, Action, Event, Payload, Phase, Scenario, ScenarioRun, CRASH_GRACE_SECS,
    EXPIRY_SECS, EXPIRY_WAIT_SECS, FAN_OUT, POOL_ROUND, SETTLE_SECS, SWEEP_SECS,
};
use steel_tester::session::Session;

fn session(id: &str, user: &str) -> Session {
    Session {
        id: id.to_string(),
        created_at: Json::Text("2024-01-01T00:00:00Z".to_string()),
        data: Json::user_payload(user),
    }
}

fn created(id: &str, user: &str) -> Event {
    Event::Created(Ok(session(id, user)))
}

fn refused() -> ClientError {
    ClientError::Transport("connection refused".to_string())
}

/// Feeds the events to a fresh run and collects the actions it asks for.
fn play(scenario: Scenario, events: Vec<Event>) -> (ScenarioRun, Vec<Action>) {
    let mut run = ScenarioRun::new(scenario);
    let mut actions = Vec::new();
    for event in events {
        let (next, action) = run.step(event);
        run = next;
        actions.push(action);
    }
    (run, actions)
}

#[test]
fn create_scenario_passes_and_cleans_up() {
    let (run, actions) = play(
        Scenario::CreateSession,
        vec![Event::Begin, created("s-1", "test_create"), Event::Deleted(Ok(204))],
    );
    assert_eq!(
        actions,
        vec![
            Action::Create(Payload::TestCreate),
            Action::Delete("s-1".to_string()),
            Action::Finish(Outcome::Success),
        ]
    );
    assert!(run.is_done());
    assert!(run.live().is_empty());
    assert_eq!(run.scenario(), Scenario::CreateSession);
}

#[test]
fn create_scenario_swallows_a_failed_cleanup() {
    let (_, actions) = play(
        Scenario::CreateSession,
        vec![Event::Begin, created("s-1", "test_create"), Event::Deleted(Err(refused()))],
    );
    assert_eq!(actions[2], Action::Finish(Outcome::Success));
}

#[test]
fn create_scenario_checks_id_time_and_data() {
    let (_, actions) = play(
        Scenario::CreateSession,
        vec![Event::Begin, created("", "test_create"), Event::Deleted(Ok(404))],
    );
    assert_eq!(actions[1], Action::Delete(String::new()));
    assert_eq!(actions[2], Action::Finish(Outcome::Failure(Diagnostic::EmptyId)));

    let mut timeless = session("s-1", "test_create");
    timeless.created_at = Json::Null;
    let (_, actions) = play(
        Scenario::CreateSession,
        vec![Event::Begin, Event::Created(Ok(timeless)), Event::Deleted(Ok(204))],
    );
    assert_eq!(actions[1], Action::Delete("s-1".to_string()));
    assert_eq!(actions[2], Action::Finish(Outcome::Failure(Diagnostic::NullCreatedAt)));

    let (_, actions) = play(
        Scenario::CreateSession,
        vec![Event::Begin, created("s-1", "someone_else"), Event::Deleted(Ok(204))],
    );
    assert_eq!(actions[1], Action::Delete("s-1".to_string()));
    assert_eq!(
        actions[2],
        Action::Finish(Outcome::Failure(Diagnostic::UnexpectedData(Json::user_payload(
            "someone_else"
        ))))
    );
}

#[test]
fn create_scenario_fails_when_the_call_fails() {
    let (run, actions) =
        play(Scenario::CreateSession, vec![Event::Begin, Event::Created(Err(refused()))]);
    assert_eq!(actions[1], Action::Finish(Outcome::Failure(Diagnostic::Call(refused()))));
    assert!(run.is_done());
}

#[test]
fn get_scenario_reads_back_what_it_created() {
    let (_, actions) = play(
        Scenario::GetSession,
        vec![
            Event::Begin,
            created("s-2", "test_get"),
            Event::Fetched(Ok(session("s-2", "test_get"))),
            Event::Deleted(Ok(204)),
        ],
    );
    assert_eq!(
        actions,
        vec![
            Action::Create(Payload::TestGet),
            Action::Get("s-2".to_string()),
            Action::Delete("s-2".to_string()),
            Action::Finish(Outcome::Success),
        ]
    );
}

#[test]
fn get_scenario_reports_mismatches_after_cleanup() {
    let (_, actions) = play(
        Scenario::GetSession,
        vec![
            Event::Begin,
            created("s-2", "test_get"),
            Event::Fetched(Ok(session("other", "test_get"))),
            Event::Deleted(Ok(204)),
        ],
    );
    assert_eq!(actions[2], Action::Delete("s-2".to_string()));
    assert_eq!(
        actions[3],
        Action::Finish(Outcome::Failure(Diagnostic::IdMismatch {
            fetched: "other".to_string(),
            created: "s-2".to_string(),
        }))
    );

    let (_, actions) = play(
        Scenario::GetSession,
        vec![
            Event::Begin,
            created("s-2", "test_get"),
            Event::Fetched(Ok(session("s-2", "test_create"))),
            Event::Deleted(Ok(204)),
        ],
    );
    assert_eq!(
        actions[3],
        Action::Finish(Outcome::Failure(Diagnostic::UnexpectedData(Json::user_payload(
            "test_create"
        ))))
    );

    let (_, actions) = play(
        Scenario::GetSession,
        vec![
            Event::Begin,
            created("s-2", "test_get"),
            Event::Fetched(Err(ClientError::NotFound)),
            Event::Deleted(Ok(404)),
        ],
    );
    assert_eq!(actions[2], Action::Delete("s-2".to_string()));
    assert_eq!(
        actions[3],
        Action::Finish(Outcome::Failure(Diagnostic::Call(ClientError::NotFound)))
    );
}

#[test]
fn delete_scenario_create_delete_then_not_found() {
    let (run, actions) = play(
        Scenario::DeleteSession,
        vec![
            Event::Begin,
            created("s-3", "test_delete"),
            Event::Deleted(Ok(204)),
            Event::Fetched(Err(ClientError::NotFound)),
        ],
    );
    assert_eq!(
        actions,
        vec![
            Action::Create(Payload::TestDelete),
            Action::Delete("s-3".to_string()),
            Action::Get("s-3".to_string()),
            Action::Finish(Outcome::Success),
        ]
    );
    assert!(run.is_done());
}

#[test]
fn delete_scenario_wants_no_content() {
    let (_, actions) = play(
        Scenario::DeleteSession,
        vec![Event::Begin, created("s-3", "test_delete"), Event::Deleted(Ok(200))],
    );
    assert_eq!(actions[2], Action::Finish(Outcome::Failure(Diagnostic::DeleteStatus(200))));

    let (_, actions) = play(
        Scenario::DeleteSession,
        vec![Event::Begin, created("s-3", "test_delete"), Event::Deleted(Err(refused()))],
    );
    assert_eq!(actions[2], Action::Finish(Outcome::Failure(Diagnostic::Call(refused()))));
}

#[test]
fn delete_scenario_fails_when_the_session_is_still_there() {
    let (_, actions) = play(
        Scenario::DeleteSession,
        vec![
            Event::Begin,
            created("s-3", "test_delete"),
            Event::Deleted(Ok(204)),
            Event::Fetched(Ok(session("s-3", "test_delete"))),
        ],
    );
    assert_eq!(
        actions[3],
        Action::Finish(Outcome::Failure(Diagnostic::StillExists("s-3".to_string())))
    );

    let (_, actions) = play(
        Scenario::DeleteSession,
        vec![
            Event::Begin,
            created("s-3", "test_delete"),
            Event::Deleted(Ok(204)),
            Event::Fetched(Err(ClientError::RequestFailed { status: 500, body: String::new() })),
        ],
    );
    assert_eq!(
        actions[3],
        Action::Finish(Outcome::Failure(Diagnostic::Call(ClientError::RequestFailed {
            status: 500,
            body: String::new(),
        })))
    );
}

#[test]
fn missing_scenario_expects_not_found() {
    assert_eq!(fabricated_id(), "nonexistent-session-id-12345");
    let (run, actions) = play(
        Scenario::MissingSession,
        vec![Event::Begin, Event::Fetched(Err(ClientError::NotFound))],
    );
    assert_eq!(actions, vec![Action::GetFabricated, Action::Finish(Outcome::Success)]);
    assert!(run.is_done());
}

#[test]
fn missing_scenario_never_accepts_a_session() {
    let (_, actions) = play(
        Scenario::MissingSession,
        vec![Event::Begin, Event::Fetched(Ok(session("nonexistent-session-id-12345", "x")))],
    );
    assert_eq!(actions[1], Action::Finish(Outcome::Failure(Diagnostic::ExpectedMissing)));

    let (_, actions) =
        play(Scenario::MissingSession, vec![Event::Begin, Event::Fetched(Err(refused()))]);
    assert_eq!(actions[1], Action::Finish(Outcome::Failure(Diagnostic::Call(refused()))));
}

fn slots_with_ids(ids: &[&str]) -> Vec<Result<Session, ClientError>> {
    ids.iter().map(|id| Ok(session(id, "concurrent"))).collect()
}

#[test]
fn concurrent_scenario_passes_on_ten_distinct_ids() {
    let ids = ["a", "b", "c", "d", "e", "f", "g", "h", "i", "j"];
    let mut events = vec![Event::Begin, Event::FannedOut(slots_with_ids(&ids))];
    for _ in 0..10 {
        events.push(Event::Deleted(Ok(204)));
    }
    let (run, actions) = play(Scenario::ConcurrentSessions, events);
    assert_eq!(FAN_OUT, 10);
    assert_eq!(actions[0], Action::FanOut(10));
    for (i, id) in ids.iter().enumerate() {
        assert_eq!(actions[1 + i], Action::Delete(id.to_string()));
    }
    assert_eq!(actions[11], Action::Finish(Outcome::Success));
    assert_eq!(actions.len(), 12);
    assert!(run.is_done());
}

#[test]
fn concurrent_scenario_reports_failed_slots_after_deleting_the_rest() {
    let mut slots = slots_with_ids(&["a", "b", "c", "d", "e", "f", "g", "h"]);
    slots.insert(
        2,
        Err(ClientError::RequestFailed { status: 503, body: "busy".to_string() }),
    );
    slots.push(Err(ClientError::TaskFailure("panicked".to_string())));
    let mut events = vec![Event::Begin, Event::FannedOut(slots)];
    for _ in 0..8 {
        events.push(Event::Deleted(Err(refused())));
    }
    let (_, actions) = play(Scenario::ConcurrentSessions, events);
    assert_eq!(actions[1], Action::Delete("a".to_string()));
    assert_eq!(actions[8], Action::Delete("h".to_string()));
    assert_eq!(
        actions[9],
        Action::Finish(Outcome::Failure(Diagnostic::SlotsFailed {
            failed: 2,
            count: 10,
            first: ClientError::RequestFailed { status: 503, body: "busy".to_string() },
        }))
    );
}

#[test]
fn concurrent_scenario_rejects_duplicate_ids() {
    let ids = ["a", "b", "c", "d", "e", "a", "g", "h", "b", "a"];
    let mut events = vec![Event::Begin, Event::FannedOut(slots_with_ids(&ids))];
    for _ in 0..10 {
        events.push(Event::Deleted(Ok(204)));
    }
    let (_, actions) = play(Scenario::ConcurrentSessions, events);
    assert_eq!(
        actions[11],
        Action::Finish(Outcome::Failure(Diagnostic::DuplicateIds { expected: 10, unique: 7 }))
    );
}

#[test]
fn concurrent_scenario_wants_ten_sessions() {
    let mut events = vec![Event::Begin, Event::FannedOut(slots_with_ids(&["a", "b"]))];
    events.push(Event::Deleted(Ok(204)));
    events.push(Event::Deleted(Ok(204)));
    let (_, actions) = play(Scenario::ConcurrentSessions, events);
    assert_eq!(
        actions[3],
        Action::Finish(Outcome::Failure(Diagnostic::SessionCount { expected: 10, got: 2 }))
    );

    let (_, actions) =
        play(Scenario::ConcurrentSessions, vec![Event::Begin, Event::FannedOut(vec![])]);
    assert_eq!(
        actions[1],
        Action::Finish(Outcome::Failure(Diagnostic::SessionCount { expected: 10, got: 0 }))
    );
}

#[test]
fn slots_are_split_in_slot_order() {
    let slots = vec![
        Ok(session("a", "x")),
        Err(ClientError::NotFound),
        Ok(session("b", "x")),
        Err(refused()),
    ];
    let (ids, errors) = sort_slots(slots);
    assert_eq!(ids, vec!["a".to_string(), "b".to_string()]);
    assert_eq!(errors, vec![ClientError::NotFound, refused()]);
}

#[test]
fn distinct_ids_are_counted() {
    let ids = |v: &[&str]| v.iter().map(|s| s.to_string()).collect::<Vec<String>>();
    assert_eq!(count_distinct(&ids(&[])), 0);
    assert_eq!(count_distinct(&ids(&["a"])), 1);
    assert_eq!(count_distinct(&ids(&["a", "a", "a"])), 1);
    assert_eq!(count_distinct(&ids(&["a", "b", "a", "c", "b"])), 3);
    assert_eq!(count_distinct(&ids(&["a", "b", "c"])), 3);
}

#[test]
fn fan_out_judgement_on_other_counts() {
    let ids = vec!["a".to_string(), "b".to_string()];
    assert_eq!(judge_fan_out(&ids, vec![], 2), Outcome::Success);
    assert_eq!(
        judge_fan_out(&ids, vec![], 3),
        Outcome::Failure(Diagnostic::SessionCount { expected: 3, got: 2 })
    );
    assert_eq!(
        judge_fan_out(&ids, vec![ClientError::NotFound], 3),
        Outcome::Failure(Diagnostic::SlotsFailed {
            failed: 1,
            count: 3,
            first: ClientError::NotFound,
        })
    );
    let twins = vec!["a".to_string(), "a".to_string()];
    assert_eq!(
        judge_fan_out(&twins, vec![], 2),
        Outcome::Failure(Diagnostic::DuplicateIds { expected: 2, unique: 1 })
    );
}

#[test]
fn ttl_scenario_waits_longer_than_expiry_and_sweep() {
    assert_eq!(EXPIRY_WAIT_SECS, 67);
    assert!(EXPIRY_WAIT_SECS > EXPIRY_SECS + SWEEP_SECS);
    let (run, actions) = play(
        Scenario::SessionTtl,
        vec![
            Event::Begin,
            created("s-4", "ttl_test"),
            Event::Slept,
            Event::Fetched(Err(ClientError::NotFound)),
        ],
    );
    assert_eq!(
        actions,
        vec![
            Action::Create(Payload::TtlTest),
            Action::Sleep(67),
            Action::Get("s-4".to_string()),
            Action::Finish(Outcome::Success),
        ]
    );
    assert!(run.is_done());
    assert!(run.live().is_empty());
}

#[test]
fn ttl_scenario_fails_and_cleans_up_when_the_session_lives_on() {
    let (_, actions) = play(
        Scenario::SessionTtl,
        vec![
            Event::Begin,
            created("s-4", "ttl_test"),
            Event::Slept,
            Event::Fetched(Ok(session("s-4", "ttl_test"))),
            Event::Deleted(Ok(204)),
        ],
    );
    assert_eq!(actions[3], Action::Delete("s-4".to_string()));
    assert_eq!(actions[4], Action::Finish(Outcome::Failure(Diagnostic::StillAlive)));
}

#[test]
fn pool_scenario_fills_drains_settles_and_fills_again() {
    assert_eq!(POOL_ROUND, 3);
    let (run, actions) = play(
        Scenario::PoolReuse,
        vec![
            Event::Begin,
            created("a", "churn_0"),
            created("b", "churn_1"),
            created("c", "churn_2"),
            Event::Deleted(Ok(204)),
            Event::Deleted(Ok(204)),
            Event::Deleted(Ok(204)),
            Event::Slept,
            created("d", "fresh_0"),
            created("e", "fresh_1"),
            created("f", "fresh_2"),
            Event::Deleted(Ok(204)),
            Event::Deleted(Ok(204)),
            Event::Deleted(Ok(204)),
        ],
    );
    assert_eq!(
        actions,
        vec![
            Action::Create(Payload::Churn(0)),
            Action::Create(Payload::Churn(1)),
            Action::Create(Payload::Churn(2)),
            Action::Delete("a".to_string()),
            Action::Delete("b".to_string()),
            Action::Delete("c".to_string()),
            Action::Sleep(SETTLE_SECS),
            Action::Create(Payload::Fresh(0)),
            Action::Create(Payload::Fresh(1)),
            Action::Create(Payload::Fresh(2)),
            Action::Delete("d".to_string()),
            Action::Delete("e".to_string()),
            Action::Delete("f".to_string()),
            Action::Finish(Outcome::Success),
        ]
    );
    assert!(run.is_done());
}

#[test]
fn pool_scenario_cleans_up_what_it_created_when_a_creation_fails() {
    let (_, actions) = play(
        Scenario::PoolReuse,
        vec![
            Event::Begin,
            created("a", "churn_0"),
            created("b", "churn_1"),
            Event::Created(Err(refused())),
            Event::Deleted(Ok(204)),
            Event::Deleted(Ok(204)),
        ],
    );
    assert_eq!(actions[3], Action::Delete("a".to_string()));
    assert_eq!(actions[4], Action::Delete("b".to_string()));
    assert_eq!(
        actions[5],
        Action::Finish(Outcome::Failure(Diagnostic::Phase { phase: 1, error: refused() }))
    );
}

#[test]
fn pool_scenario_fails_when_the_pool_is_not_reusable() {
    let (_, actions) = play(
        Scenario::PoolReuse,
        vec![
            Event::Begin,
            created("a", "churn_0"),
            created("b", "churn_1"),
            created("c", "churn_2"),
            Event::Deleted(Ok(204)),
            Event::Deleted(Ok(204)),
            Event::Deleted(Ok(204)),
            Event::Slept,
            created("d", "fresh_0"),
            Event::Created(Err(ClientError::RequestFailed {
                status: 503,
                body: "pool exhausted".to_string(),
            })),
            Event::Deleted(Ok(204)),
        ],
    );
    assert_eq!(actions[9], Action::Delete("d".to_string()));
    assert_eq!(
        actions[10],
        Action::Finish(Outcome::Failure(Diagnostic::Phase {
            phase: 4,
            error: ClientError::RequestFailed { status: 503, body: "pool exhausted".to_string() },
        }))
    );
}

#[test]
fn recovery_scenario_crash_then_not_found_then_new_session() {
    assert_eq!(CRASH_GRACE_SECS, 3);
    let (run, actions) = play(
        Scenario::WorkerRecovery,
        vec![
            Event::Begin,
            created("s-5", "crash_test"),
            Event::Crashed(Ok(())),
            Event::Slept,
            Event::Fetched(Err(ClientError::NotFound)),
            created("s-6", "post_crash"),
            Event::Deleted(Ok(204)),
        ],
    );
    assert_eq!(
        actions,
        vec![
            Action::Create(Payload::CrashTest),
            Action::CrashWorker("s-5".to_string()),
            Action::Sleep(3),
            Action::Get("s-5".to_string()),
            Action::Create(Payload::PostCrash),
            Action::Delete("s-6".to_string()),
            Action::Finish(Outcome::Success),
        ]
    );
    assert!(run.is_done());
}

#[test]
fn recovery_scenario_names_the_phase_that_failed() {
    let (_, actions) =
        play(Scenario::WorkerRecovery, vec![Event::Begin, Event::Created(Err(refused()))]);
    assert_eq!(
        actions[1],
        Action::Finish(Outcome::Failure(Diagnostic::Phase { phase: 1, error: refused() }))
    );

    let (_, actions) = play(
        Scenario::WorkerRecovery,
        vec![
            Event::Begin,
            created("s-5", "crash_test"),
            Event::Crashed(Err(refused())),
            Event::Deleted(Ok(204)),
        ],
    );
    assert_eq!(actions[2], Action::Delete("s-5".to_string()));
    assert_eq!(
        actions[3],
        Action::Finish(Outcome::Failure(Diagnostic::Phase { phase: 2, error: refused() }))
    );

    let (_, actions) = play(
        Scenario::WorkerRecovery,
        vec![
            Event::Begin,
            created("s-5", "crash_test"),
            Event::Crashed(Ok(())),
            Event::Slept,
            Event::Fetched(Ok(session("s-5", "crash_test"))),
            Event::Deleted(Ok(204)),
        ],
    );
    assert_eq!(actions[4], Action::Delete("s-5".to_string()));
    assert_eq!(actions[5], Action::Finish(Outcome::Failure(Diagnostic::CrashedSessionAlive)));

    let (_, actions) = play(
        Scenario::WorkerRecovery,
        vec![
            Event::Begin,
            created("s-5", "crash_test"),
            Event::Crashed(Ok(())),
            Event::Slept,
            Event::Fetched(Err(ClientError::NotFound)),
            Event::Created(Err(refused())),
        ],
    );
    assert_eq!(
        actions[5],
        Action::Finish(Outcome::Failure(Diagnostic::Phase { phase: 5, error: refused() }))
    );
}

#[test]
fn an_event_out_of_turn_fails_the_run_after_cleanup() {
    let (_, actions) = play(
        Scenario::GetSession,
        vec![Event::Begin, created("s-2", "test_get"), Event::Slept, Event::Deleted(Ok(204))],
    );
    assert_eq!(actions[2], Action::Delete("s-2".to_string()));
    assert_eq!(actions[3], Action::Finish(Outcome::Failure(Diagnostic::OutOfTurn)));

    let (run, actions) = play(Scenario::MissingSession, vec![Event::Slept]);
    assert_eq!(actions[0], Action::Finish(Outcome::Failure(Diagnostic::OutOfTurn)));
    assert!(run.is_done());
}

#[test]
fn a_finished_run_stays_finished() {
    let (run, _) = play(
        Scenario::MissingSession,
        vec![Event::Begin, Event::Fetched(Err(ClientError::NotFound))],
    );
    let (run, action) = run.step(Event::Begin);
    assert_eq!(action, Action::Finish(Outcome::Failure(Diagnostic::OutOfTurn)));
    assert_eq!(run.phase(), Phase::Done);
}

#[test]
fn a_new_run_is_ready() {
    let run = ScenarioRun::new(Scenario::SessionTtl);
    assert_eq!(run.phase(), Phase::Ready);
    assert_eq!(run.scenario(), Scenario::SessionTtl);
    assert!(run.live().is_empty());
    assert!(!run.is_done());
}

#[test]
fn payloads_name_their_script() {
    assert_eq!(Payload::TestCreate.user(), "test_create");
    assert_eq!(Payload::TestGet.user(), "test_get");
    assert_eq!(Payload::TestDelete.user(), "test_delete");
    assert_eq!(Payload::TtlTest.user(), "ttl_test");
    assert_eq!(Payload::CrashTest.user(), "crash_test");
    assert_eq!(Payload::PostCrash.user(), "post_crash");
    assert_eq!(Payload::Concurrent(0).user(), "concurrent_0");
    assert_eq!(Payload::Concurrent(9).user(), "concurrent_9");
    assert_eq!(Payload::Churn(2).user(), "churn_2");
    assert_eq!(Payload::Fresh(10).user(), "fresh_10");
    assert_eq!(Payload::TestCreate.json(), Json::user_payload("test_create"));
    assert_eq!(
        Payload::Concurrent(3).json(),
        Json::Object(vec![("user".to_string(), Json::Text("concurrent_3".to_string()))])
    );
}

#[test]
fn outcome_kinds() {
    assert!(Outcome::Success.is_success());
    assert!(!Outcome::Failure(Diagnostic::EmptyId).is_success());
}

#[test]
fn recovery_scenario_failures_carry_their_phase_number() {
    let phase_of = |events: Vec<Event>| {
        let (_, actions) = play(Scenario::WorkerRecovery, events);
        match actions.last() {
            Some(Action::Finish(Outcome::Failure(why))) => why.phase(),
            other => panic!("the run did not end in a failure: {:?}", other),
        }
    };
    assert_eq!(phase_of(vec![Event::Begin, Event::Created(Err(refused()))]), Some(1));
    assert_eq!(
        phase_of(vec![
            Event::Begin,
            created("s-5", "crash_test"),
            Event::Crashed(Err(refused())),
            Event::Deleted(Ok(204)),
        ]),
        Some(2)
    );
    assert_eq!(
        phase_of(vec![
            Event::Begin,
            created("s-5", "crash_test"),
            Event::Crashed(Ok(())),
            Event::Slept,
            Event::Fetched(Ok(session("s-5", "crash_test"))),
            Event::Deleted(Ok(204)),
        ]),
        Some(4)
    );
    assert_eq!(
        phase_of(vec![
            Event::Begin,
            created("s-5", "crash_test"),
            Event::Crashed(Ok(())),
            Event::Slept,
            Event::Fetched(Err(refused())),
            Event::Deleted(Ok(204)),
        ]),
        Some(4)
    );
    assert_eq!(
        phase_of(vec![
            Event::Begin,
            created("s-5", "crash_test"),
            Event::Crashed(Ok(())),
            Event::Slept,
            Event::Fetched(Err(ClientError::NotFound)),
            Event::Created(Err(refused())),
        ]),
        Some(5)
    );
}
