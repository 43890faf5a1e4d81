//! When each script passes: what the service has to answer, whatever else it
//! might answer instead.

use vstd::prelude::*;
use crate::client::ClientError;
use crate::fanout::{created_ids, failures, lemma_distinct_count, pairwise_distinct};
use crate::hygiene::fresh;
use crate::outcome::Outcome;
use crate::scenario::{
    created_check, fetched_check, next, payload_user, Action, Event, Payload, Scenario,
    CRASH_GRACE_SECS, EXPIRY_WAIT_SECS, FAN_OUT,
};
use crate::session::Session;
use crate::status::NO_CONTENT;

verus! {

/// Whether a step ends the run with a success.
pub open spec fn passes(action: Action) -> bool {
    action == Action::Finish(Outcome::Success)
}

/// Whether a step ends the run with a failure.
pub open spec fn fails(action: Action) -> bool {
    action matches Action::Finish(Outcome::Failure(_))
}

/// Whether a step asks for the deletion of the session `id`.
pub open spec fn deletes(action: Action, id: String) -> bool {
    action == Action::Delete(id)
}

/// A created session is in order exactly when its id is not empty, its
/// creation time is not null and its payload names the user that was sent.
pub proof fn lemma_created_check(session: Session, payload: Payload)
    ensures
        created_check(session, payload) is Success <==> session.id@.len() > 0
            && !session.created_at.null() && session.data.text_member("user"@) == Some(
            payload_user(payload),
        ),
{
}

/// A fetched session is in order exactly when it has the id of the created
/// one and its payload names the user that was sent.
pub proof fn lemma_fetched_check(session: Session, created: String, payload: Payload)
    ensures
        fetched_check(session, created, payload) is Success <==> session.id@ == created@
            && session.data.text_member("user"@) == Some(payload_user(payload)),
{
}

/// The create script: it creates a session; whatever it finds, it then asks
/// for the deletion of that session, and it ends after that whatever the
/// deletion gave, with success exactly when the session was in order.
pub proof fn lemma_create_script(session: Session, cleanup: Result<u16, ClientError>)
    ensures
        ({
            let begun = next(fresh(Scenario::CreateSession), Event::Begin);
            let created = next(begun.0, Event::Created(Ok(session)));
            let cleaned = next(created.0, Event::Deleted(cleanup));
            &&& begun.1 == Action::Create(Payload::TestCreate)
            &&& deletes(created.1, session.id)
            &&& cleaned.1 == Action::Finish(created_check(session, Payload::TestCreate))
        }),
{
    let begun = next(fresh(Scenario::CreateSession), Event::Begin);
    let live = begun.0.live.push(session.id);
    assert(live.len() == 1 && live[0] == session.id);
    assert(live.remove(0).len() == 0);
}

/// The get script: it creates a session and reads it back under the id that
/// the creation gave; it then deletes the session, and passes exactly when
/// the session read was in order.
pub proof fn lemma_get_script(
    session: Session,
    fetched: Session,
    cleanup: Result<u16, ClientError>,
)
    ensures
        ({
            let begun = next(fresh(Scenario::GetSession), Event::Begin);
            let created = next(begun.0, Event::Created(Ok(session)));
            let read = next(created.0, Event::Fetched(Ok(fetched)));
            let cleaned = next(read.0, Event::Deleted(cleanup));
            &&& begun.1 == Action::Create(Payload::TestGet)
            &&& created.1 == Action::Get(session.id)
            &&& deletes(read.1, session.id)
            &&& cleaned.1 == Action::Finish(fetched_check(fetched, session.id, Payload::TestGet))
        }),
{
    let begun = next(fresh(Scenario::GetSession), Event::Begin);
    let live = begun.0.live.push(session.id);
    assert(live.len() == 1 && live[0] == session.id);
    assert(live.remove(0).len() == 0);
}

/// The delete script: it creates a session and deletes it. It goes on only
/// if the deletion answered "no content", and then passes exactly when the
/// session is reported missing.
pub proof fn lemma_delete_script(
    session: Session,
    deleted: Result<u16, ClientError>,
    fetched: Result<Session, ClientError>,
)
    ensures
        ({
            let begun = next(fresh(Scenario::DeleteSession), Event::Begin);
            let created = next(begun.0, Event::Created(Ok(session)));
            let gone = next(created.0, Event::Deleted(deleted));
            let looked = next(gone.0, Event::Fetched(fetched));
            &&& begun.1 == Action::Create(Payload::TestDelete)
            &&& deletes(created.1, session.id)
            &&& deleted == Ok::<u16, ClientError>(NO_CONTENT) ==> gone.1 == Action::Get(session.id)
            &&& deleted != Ok::<u16, ClientError>(NO_CONTENT) ==> fails(gone.1)
            &&& deleted == Ok::<u16, ClientError>(NO_CONTENT) ==> (passes(looked.1) <==> fetched
                == Err::<Session, ClientError>(ClientError::NotFound))
            &&& deleted == Ok::<u16, ClientError>(NO_CONTENT) ==> passes(looked.1) || fails(
                looked.1,
            )
        }),
{
}

/// The missing-session script: it asks for the fabricated id, ends with the
/// answer, and passes exactly when the answer is `NotFound`. A session that
/// comes back never passes.
pub proof fn lemma_missing_script(fetched: Result<Session, ClientError>)
    ensures
        ({
            let begun = next(fresh(Scenario::MissingSession), Event::Begin);
            let looked = next(begun.0, Event::Fetched(fetched));
            &&& begun.1 == Action::GetFabricated
            &&& passes(looked.1) || fails(looked.1)
            &&& passes(looked.1) <==> fetched == Err::<Session, ClientError>(
                ClientError::NotFound,
            )
        }),
{
}

/// The concurrency script: it asks for all creations at once. Once it has
/// deleted every session that came into being, it passes exactly when every
/// slot succeeded, as many sessions came back as were asked for, and no two
/// of them share an id.
pub proof fn lemma_concurrent_script(slots: Vec<Result<Session, ClientError>>)
    ensures
        ({
            let begun = next(fresh(Scenario::ConcurrentSessions), Event::Begin);
            let joined = next(begun.0, Event::FannedOut(slots));
            let ids = created_ids(slots@);
            let ok = failures(slots@).len() == 0 && ids.len() == FAN_OUT && pairwise_distinct(
                ids,
            );
            &&& begun.1 == Action::FanOut(FAN_OUT)
            &&& ids.len() == 0 ==> fails(joined.1)
            &&& ids.len() > 0 ==> deletes(joined.1, ids[0]) && joined.0.live == ids.remove(0)
                && (joined.0.verdict is Success <==> ok)
        }),
{
    let begun = next(fresh(Scenario::ConcurrentSessions), Event::Begin);
    let ids = created_ids(slots@);
    lemma_distinct_count(ids);
    assert(begun.0.live + ids =~= ids);
}

/// The expiry script: it creates a session, waits out the expiry, and looks
/// for the session. It passes exactly when the session is reported missing;
/// otherwise it deletes the session before it fails.
pub proof fn lemma_ttl_script(
    session: Session,
    fetched: Result<Session, ClientError>,
    cleanup: Result<u16, ClientError>,
)
    ensures
        ({
            let begun = next(fresh(Scenario::SessionTtl), Event::Begin);
            let created = next(begun.0, Event::Created(Ok(session)));
            let waited = next(created.0, Event::Slept);
            let looked = next(waited.0, Event::Fetched(fetched));
            let cleaned = next(looked.0, Event::Deleted(cleanup));
            let missing = fetched == Err::<Session, ClientError>(ClientError::NotFound);
            &&& begun.1 == Action::Create(Payload::TtlTest)
            &&& created.1 == Action::Sleep(EXPIRY_WAIT_SECS)
            &&& waited.1 == Action::Get(session.id)
            &&& missing ==> passes(looked.1)
            &&& !missing ==> deletes(looked.1, session.id) && fails(cleaned.1)
        }),
{
    let begun = next(fresh(Scenario::SessionTtl), Event::Begin);
    let live = begun.0.live.push(session.id);
    assert(live.len() == 1 && live[0] == session.id);
    assert(live.remove(0).len() == 0);
}

/// The recovery script: it creates a session, has its worker crashed, waits
/// for the service to notice, and looks for the session. Only if the session
/// is reported missing does it create another, and it passes exactly when
/// that creation succeeds; the new session is deleted before the end.
pub proof fn lemma_recovery_script(
    session: Session,
    fetched: Result<Session, ClientError>,
    again: Result<Session, ClientError>,
)
    ensures
        ({
            let begun = next(fresh(Scenario::WorkerRecovery), Event::Begin);
            let created = next(begun.0, Event::Created(Ok(session)));
            let crashed = next(created.0, Event::Crashed(Ok(())));
            let waited = next(crashed.0, Event::Slept);
            let looked = next(waited.0, Event::Fetched(fetched));
            let recreated = next(looked.0, Event::Created(again));
            let missing = fetched == Err::<Session, ClientError>(ClientError::NotFound);
            &&& begun.1 == Action::Create(Payload::CrashTest)
            &&& created.1 == Action::CrashWorker(session.id)
            &&& crashed.1 == Action::Sleep(CRASH_GRACE_SECS)
            &&& waited.1 == Action::Get(session.id)
            &&& missing ==> looked.1 == Action::Create(Payload::PostCrash)
            &&& !missing ==> deletes(looked.1, session.id) && looked.0.verdict is Failure
            &&& missing && again is Err ==> fails(recreated.1)
            &&& missing && again is Ok ==> deletes(recreated.1, again->Ok_0.id)
                && recreated.0.verdict is Success && recreated.0.live.len() == 0
        }),
{
    let begun = next(fresh(Scenario::WorkerRecovery), Event::Begin);
    let live = begun.0.live.push(session.id);
    assert(live.len() == 1 && live[0] == session.id);
    assert(live.remove(0).len() == 0);
    if again is Ok {
        let fresh_live = Seq::<String>::empty().push(again->Ok_0.id);
        assert(fresh_live.len() == 1 && fresh_live[0] == again->Ok_0.id);
        assert(fresh_live.remove(0).len() == 0);
    }
}

/// Whether an outcome is a failure that names the phase `phase`.
pub open spec fn fails_in_phase(outcome: Outcome, phase: u8) -> bool {
    outcome matches Outcome::Failure(why) && why.phase_number() == Some(phase)
}

/// Every failure of the recovery script names the phase in which it came
/// about: 1 where the session cannot be created, 2 where the crash is
/// refused, 4 where the session of the crashed worker is not reported
/// missing, be it served or be the call in error, and 5 where no new
/// session can be created.
pub proof fn lemma_recovery_failures_name_their_phase(
    session: Session,
    first: ClientError,
    crash: ClientError,
    fetched: Result<Session, ClientError>,
    last: ClientError,
)
    requires
        fetched != Err::<Session, ClientError>(ClientError::NotFound),
    ensures
        ({
            let begun = next(fresh(Scenario::WorkerRecovery), Event::Begin);
            let uncreated = next(begun.0, Event::Created(Err(first)));
            let created = next(begun.0, Event::Created(Ok(session)));
            let uncrashed = next(created.0, Event::Crashed(Err(crash)));
            let crashed = next(created.0, Event::Crashed(Ok(())));
            let waited = next(crashed.0, Event::Slept);
            let looked = next(waited.0, Event::Fetched(fetched));
            let gone = next(waited.0, Event::Fetched(Err(ClientError::NotFound)));
            let unrecovered = next(gone.0, Event::Created(Err(last)));
            &&& uncreated.1 is Finish && fails_in_phase(uncreated.1->Finish_0, 1)
            &&& deletes(uncrashed.1, session.id) && fails_in_phase(uncrashed.0.verdict, 2)
            &&& deletes(looked.1, session.id) && fails_in_phase(looked.0.verdict, 4)
            &&& unrecovered.1 is Finish && fails_in_phase(unrecovered.1->Finish_0, 5)
        }),
{
    let begun = next(fresh(Scenario::WorkerRecovery), Event::Begin);
    let live = begun.0.live.push(session.id);
    assert(live.len() == 1 && live[0] == session.id);
    assert(live.remove(0).len() == 0);
}

/// A run that cleans up reports the outcome it had when the cleanup began,
/// whatever the deletions give: a failed cleanup changes no result.
pub proof fn lemma_cleanup_keeps_outcome(s: crate::scenario::RunModel, e: Event)
    requires
        s.phase is Cleaning,
    ensures
        next(s, e).1 is Finish ==> next(s, e).1 == Action::Finish(s.verdict),
        !(next(s, e).1 is Finish) ==> next(s, e).0.verdict == s.verdict && next(s, e).0.phase
            is Cleaning && next(s, e).1 == Action::Delete(s.live[0]),
{
}

} // verus!
