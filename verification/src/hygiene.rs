//! What holds of every run of every script: a run never loses sight of a
//! session it created, and it does not end while one is left.

use vstd::prelude::*;
use crate::client::ClientError;
use crate::fanout::created_ids;
use crate::outcome::Outcome;
use crate::scenario::{
    next, Action, Event, Phase, RunModel, Scenario, EXPIRY_SECS, EXPIRY_WAIT_SECS, POOL_ROUND,
    SWEEP_SECS,
};

verus! {

/// Whether a script ever comes to stand in a phase.
pub open spec fn has_phase(scenario: Scenario, phase: Phase) -> bool {
    match phase {
        Phase::Ready | Phase::Cleaning | Phase::Done => true,
        Phase::Creating => !(scenario is MissingSession || scenario is ConcurrentSessions
            || scenario is PoolReuse),
        Phase::Fetching => !(scenario is CreateSession || scenario is ConcurrentSessions
            || scenario is PoolReuse),
        Phase::Deleting => scenario is DeleteSession,
        Phase::Crashing | Phase::Recreating => scenario is WorkerRecovery,
        Phase::Sleeping => scenario is SessionTtl || scenario is PoolReuse
            || scenario is WorkerRecovery,
        Phase::FanningOut => scenario is ConcurrentSessions,
        Phase::Filling | Phase::Draining | Phase::Refilling => scenario is PoolReuse,
    }
}

/// The states that a run can be in.
pub open spec fn well_formed(s: RunModel) -> bool {
    &&& has_phase(s.scenario, s.phase)
    &&& (s.phase is Ready || s.phase is Done) ==> s.live.len() == 0
    &&& (s.phase is Creating || s.phase is FanningOut || s.phase is Recreating) ==> s.live.len()
        == 0
    &&& s.phase is Ready ==> s.subject is None
    &&& (s.phase is Filling || s.phase is Refilling) ==> s.live.len() < POOL_ROUND
    &&& (s.phase is Deleting || s.phase is Crashing) ==> s.subject is Some
    &&& (s.phase is Fetching && !(s.scenario is MissingSession)) ==> s.subject is Some
    &&& (s.phase is Sleeping && !(s.scenario is PoolReuse)) ==> s.subject is Some
    &&& (s.phase is Sleeping && s.scenario is PoolReuse) ==> s.live.len() == 0
    &&& (s.phase is Deleting || (s.phase is Fetching && (s.scenario is DeleteSession
        || s.scenario is MissingSession))) ==> s.live.len() == 0
    &&& (s.phase is Crashing || s.phase is Sleeping || s.phase is Fetching) && s.live.len() > 0
        ==> s.live.len() == 1 && s.subject == Some(s.live[0])
}

/// The state of a run that has not begun.
pub open spec fn fresh(scenario: Scenario) -> RunModel {
    RunModel {
        scenario,
        phase: Phase::Ready,
        subject: None,
        live: Seq::empty(),
        verdict: Outcome::Success,
    }
}

/// The sessions that a step leaves to be cleaned up: those that are live
/// after it, behind the one whose deletion it asks for.
pub open spec fn in_care(after: (RunModel, Action)) -> Seq<String> {
    match after.1 {
        Action::Delete(id) => seq![id] + after.0.live,
        _ => after.0.live,
    }
}

/// The sessions that an event brings into being for the run that waited for
/// it.
pub open spec fn born(s: RunModel, e: Event) -> Seq<String> {
    match (s.phase, e) {
        (Phase::Creating, Event::Created(Ok(session))) => seq![session.id],
        (Phase::Recreating, Event::Created(Ok(session))) => seq![session.id],
        (Phase::Filling, Event::Created(Ok(session))) => seq![session.id],
        (Phase::Refilling, Event::Created(Ok(session))) => seq![session.id],
        (Phase::FanningOut, Event::FannedOut(slots)) => created_ids(slots@),
        _ => Seq::empty(),
    }
}

/// Whether an event shows the run that its session is gone: the service
/// answers `NotFound` to the expiry or the recovery script's look at it.
pub open spec fn seen_gone(s: RunModel, e: Event) -> bool {
    s.phase is Fetching && (s.scenario is SessionTtl || s.scenario is WorkerRecovery)
        && e == Event::Fetched(Err(ClientError::NotFound))
}

/// A run starts in a state that can be.
pub proof fn lemma_fresh_is_well_formed(scenario: Scenario)
    ensures
        well_formed(fresh(scenario)),
{
}

/// Whatever event a run is handed, it stays in a state that can be.
pub proof fn lemma_step_keeps_well_formed(s: RunModel, e: Event)
    requires
        well_formed(s),
    ensures
        well_formed(next(s, e).0),
{
    if s.live.len() > 0 {
        assert(s.live.remove(0).len() == s.live.len() - 1);
    }
    match e {
        Event::Created(Ok(session)) => {
            let grown = s.live.push(session.id);
            assert(grown.remove(0).len() == s.live.len());
        },
        Event::FannedOut(slots) => {
            let grown = s.live + created_ids(slots@);
            if grown.len() > 0 {
                assert(grown.remove(0).len() == grown.len() - 1);
            }
        },
        _ => {},
    }
}

/// A run ends only when no session is left for it to clean up, and it ends
/// for good.
pub proof fn lemma_finish_leaves_nothing(s: RunModel, e: Event)
    requires
        well_formed(s),
        next(s, e).1 is Finish,
    ensures
        next(s, e).0.live.len() == 0,
        next(s, e).0.phase is Done,
{
}

/// No session gets lost. After a step, the sessions in the run's care are
/// those that were in its care before, then those that the event brought:
/// a session leaves only by the deletion that the step before asked for.
/// The one exception is a session that the service itself reports gone.
pub proof fn lemma_step_keeps_sessions(s: RunModel, e: Event)
    requires
        well_formed(s),
    ensures
        seen_gone(s, e) ==> in_care(next(s, e)).len() == 0,
        !seen_gone(s, e) ==> in_care(next(s, e)) == s.live + born(s, e),
{
    let after = next(s, e);
    let kept = s.live + born(s, e);
    if s.live.len() > 0 {
        assert(seq![s.live[0]] + s.live.remove(0) =~= s.live);
    }
    assert(s.live + Seq::<String>::empty() =~= s.live);
    if !seen_gone(s, e) {
        match e {
            Event::Created(Ok(session)) => {
                let grown = s.live.push(session.id);
                assert(grown =~= s.live + seq![session.id]);
                assert(seq![grown[0]] + grown.remove(0) =~= grown);
                assert(in_care(after) =~= kept);
            },
            Event::FannedOut(slots) => {
                let grown = s.live + created_ids(slots@);
                if grown.len() > 0 {
                    assert(seq![grown[0]] + grown.remove(0) =~= grown);
                }
                assert(in_care(after) =~= kept);
            },
            _ => {
                assert(in_care(after) =~= kept);
            },
        }
    }
}

/// The expiry script waits strictly longer than the service takes to drop
/// an untouched session: its time to live and one sweep interval.
pub proof fn lemma_expiry_wait_covers_sweep()
    ensures
        EXPIRY_WAIT_SECS > EXPIRY_SECS + SWEEP_SECS,
{
}

/// How far a run is from its cleanup, in steps at most: 0 once it is over,
/// 1 while it cleans up, more while its script goes on.
pub open spec fn stage(s: RunModel) -> nat {
    match s.phase {
        Phase::Done => 0,
        Phase::Cleaning => 1,
        Phase::Recreating | Phase::FanningOut => 2,
        Phase::Fetching => if s.scenario is WorkerRecovery {
            3
        } else {
            2
        },
        Phase::Deleting => 3,
        Phase::Sleeping => match s.scenario {
            Scenario::WorkerRecovery => 4,
            Scenario::PoolReuse => 6,
            _ => 3,
        },
        Phase::Crashing => 5,
        Phase::Creating => match s.scenario {
            Scenario::WorkerRecovery => 6,
            Scenario::CreateSession => 2,
            Scenario::GetSession => 3,
            _ => 4,
        },
        Phase::Refilling => (2 + POOL_ROUND - s.live.len()) as nat,
        Phase::Draining => 7,
        Phase::Filling => (7 + POOL_ROUND - s.live.len()) as nat,
        Phase::Ready => 11,
    }
}

/// Every script comes to an end. A step that does not end the run brings it
/// closer to its cleanup, or, at the same distance, leaves it with fewer
/// sessions to delete.
pub proof fn lemma_step_makes_progress(s: RunModel, e: Event)
    requires
        well_formed(s),
        !(s.phase is Done),
    ensures
        ({
            let after = next(s, e);
            ||| after.1 is Finish
            ||| stage(after.0) < stage(s)
            ||| stage(after.0) == stage(s) && after.0.live.len() < s.live.len()
        }),
{
    if s.live.len() > 0 {
        assert(s.live.remove(0).len() == s.live.len() - 1);
    }
    match e {
        Event::Created(Ok(session)) => {
            let grown = s.live.push(session.id);
            assert(grown.len() == s.live.len() + 1);
            assert(grown.remove(0).len() == s.live.len());
        },
        Event::FannedOut(slots) => {
            let grown = s.live + created_ids(slots@);
            if grown.len() > 0 {
                assert(grown.remove(0).len() == grown.len() - 1);
            }
        },
        _ => {},
    }
}

} // verus!
