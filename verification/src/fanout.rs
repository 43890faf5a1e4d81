//! The results of creations that ran side by side: which sessions came into
//! being, which slots failed, and whether the ids are all different.

use vstd::prelude::*;
use crate::client::ClientError;
use crate::outcome::{Diagnostic, Outcome};
use crate::session::Session;

verus! {

/// The ids of the sessions that were created, in slot order.
pub open spec fn created_ids(slots: Seq<Result<Session, ClientError>>) -> Seq<String>
    decreases slots.len(),
{
    if slots.len() == 0 {
        Seq::empty()
    } else {
        let before = created_ids(slots.drop_last());
        match slots.last() {
            Ok(session) => before.push(session.id),
            Err(_) => before,
        }
    }
}

/// The errors of the slots that failed, in slot order.
pub open spec fn failures(slots: Seq<Result<Session, ClientError>>) -> Seq<ClientError>
    decreases slots.len(),
{
    if slots.len() == 0 {
        Seq::empty()
    } else {
        let before = failures(slots.drop_last());
        match slots.last() {
            Ok(_) => before,
            Err(error) => before.push(error),
        }
    }
}

/// Whether some id in `ids` reads `text`.
pub open spec fn occurs(ids: Seq<String>, text: Seq<char>) -> bool {
    exists|j: int| 0 <= j < ids.len() && #[trigger] ids[j]@ == text
}

/// The number of different ids in `ids`: those that no earlier one equals.
pub open spec fn distinct_count(ids: Seq<String>) -> nat
    decreases ids.len(),
{
    if ids.len() == 0 {
        0
    } else if occurs(ids.drop_last(), ids.last()@) {
        distinct_count(ids.drop_last())
    } else {
        distinct_count(ids.drop_last()) + 1
    }
}

/// Whether no two ids in `ids` are equal.
pub open spec fn pairwise_distinct(ids: Seq<String>) -> bool {
    forall|i: int, j: int| 0 <= i < j < ids.len() ==> ids[i]@ != ids[j]@
}

/// There are never more different ids than ids, and as many exactly when no
/// two are equal.
pub proof fn lemma_distinct_count(ids: Seq<String>)
    ensures
        distinct_count(ids) <= ids.len(),
        distinct_count(ids) == ids.len() <==> pairwise_distinct(ids),
    decreases ids.len(),
{
    if ids.len() > 0 {
        let front = ids.drop_last();
        let n = front.len() as int;
        lemma_distinct_count(front);
        if occurs(front, ids.last()@) {
            let j = choose|j: int| 0 <= j < front.len() && #[trigger] front[j]@ == ids.last()@;
            assert(ids[j]@ == ids[n]@);
        } else if pairwise_distinct(front) {
            assert forall|i: int, j: int| 0 <= i < j < ids.len() implies ids[i]@ != ids[j]@ by {
                if j < n {
                    assert(front[i]@ != front[j]@);
                } else {
                    assert(front[i]@ == ids[i]@);
                }
            }
        } else {
            let (i, j) = choose|i: int, j: int| 0 <= i < j < front.len() && front[i]@ == front[j]@;
            assert(ids[i]@ == ids[j]@);
        }
    }
}

/// The judgement on the ids of the created sessions and the errors of the
/// failed slots, when `count` sessions were asked for: failure if a slot
/// failed, with the number of failed slots and the first failure; failure if
/// not `count` sessions came back; failure if two ids are equal; success
/// otherwise.
pub open spec fn judged(ids: Seq<String>, errors: Seq<ClientError>, count: usize) -> Outcome {
    if errors.len() > 0 {
        Outcome::Failure(
            Diagnostic::SlotsFailed { failed: errors.len() as usize, count, first: errors[0] },
        )
    } else if ids.len() != count {
        Outcome::Failure(Diagnostic::SessionCount { expected: count, got: ids.len() as usize })
    } else if distinct_count(ids) != count {
        Outcome::Failure(
            Diagnostic::DuplicateIds { expected: count, unique: distinct_count(ids) as usize },
        )
    } else {
        Outcome::Success
    }
}

/// What the concurrent creations amount to when `count` were asked for.
pub open spec fn fan_out_outcome(slots: Seq<Result<Session, ClientError>>, count: usize) -> Outcome {
    judged(created_ids(slots), failures(slots), count)
}

/// The concurrent creations pass exactly when every slot succeeded, `count`
/// sessions came back and no two of them share an id.
pub proof fn lemma_fan_out_passes(slots: Seq<Result<Session, ClientError>>, count: usize)
    ensures
        fan_out_outcome(slots, count) is Success <==> failures(slots).len() == 0 && created_ids(
            slots,
        ).len() == count && pairwise_distinct(created_ids(slots)),
{
    lemma_distinct_count(created_ids(slots));
}

/// Every slot is either a created session or a failure.
pub proof fn lemma_slots_split(slots: Seq<Result<Session, ClientError>>)
    ensures
        created_ids(slots).len() + failures(slots).len() == slots.len(),
    decreases slots.len(),
{
    if slots.len() > 0 {
        lemma_slots_split(slots.drop_last());
    }
}

/// Splits the slots into the ids of the created sessions and the errors of
/// the failed slots, each in slot order.
pub fn sort_slots(slots: Vec<Result<Session, ClientError>>) -> (r: (Vec<String>, Vec<ClientError>))
    ensures
        r.0@ == created_ids(slots@),
        r.1@ == failures(slots@),
{
    let ghost all = slots@;
    let mut slots = slots;
    let mut ids: Vec<String> = Vec::new();
    let mut errors: Vec<ClientError> = Vec::new();
    let ghost mut done: int = 0;
    assert(all.subrange(0, 0) =~= Seq::empty());
    while slots.len() > 0
        invariant
            0 <= done <= all.len(),
            slots@ =~= all.subrange(done, all.len() as int),
            ids@ == created_ids(all.subrange(0, done)),
            errors@ == failures(all.subrange(0, done)),
        decreases slots@.len(),
    {
        let slot = slots.remove(0);
        proof {
            assert(slot == all[done]);
            assert(all.subrange(0, done + 1).drop_last() =~= all.subrange(0, done));
            assert(all.subrange(0, done + 1).last() == all[done]);
            done = done + 1;
        }
        match slot {
            Ok(session) => {
                ids.push(session.id);
            },
            Err(error) => {
                errors.push(error);
            },
        }
    }
    assert(all.subrange(0, done) =~= all);
    (ids, errors)
}

/// Counts the different ids in `ids`.
pub fn count_distinct(ids: &Vec<String>) -> (r: usize)
    ensures
        r == distinct_count(ids@),
{
    let mut count: usize = 0;
    let mut i: usize = 0;
    assert(ids@.subrange(0, 0) =~= Seq::empty());
    while i < ids.len()
        invariant
            i <= ids.len(),
            count == distinct_count(ids@.subrange(0, i as int)),
            count <= i,
        decreases ids.len() - i,
    {
        let ghost front = ids@.subrange(0, i as int);
        let mut seen = false;
        let mut j: usize = 0;
        while j < i
            invariant
                j <= i < ids.len(),
                front == ids@.subrange(0, i as int),
                seen == occurs(front.subrange(0, j as int), ids@[i as int]@),
            decreases i - j,
        {
            let ghost before = front.subrange(0, j as int);
            let ghost after = front.subrange(0, j + 1);
            if ids[j] == ids[i] {
                assert(after[j as int]@ == ids@[i as int]@);
                seen = true;
            } else {
                proof {
                    if occurs(after, ids@[i as int]@) {
                        let k = choose|k: int|
                            0 <= k < after.len() && #[trigger] after[k]@ == ids@[i as int]@;
                        assert(before[k]@ == ids@[i as int]@);
                    }
                    if occurs(before, ids@[i as int]@) {
                        let k = choose|k: int|
                            0 <= k < before.len() && #[trigger] before[k]@ == ids@[i as int]@;
                        assert(after[k]@ == ids@[i as int]@);
                    }
                }
            }
            j += 1;
        }
        proof {
            assert(front.subrange(0, i as int) =~= front);
            assert(ids@.subrange(0, i + 1).drop_last() =~= front);
            assert(ids@.subrange(0, i + 1).last() == ids@[i as int]);
        }
        if !seen {
            count += 1;
        }
        i += 1;
    }
    assert(ids@.subrange(0, i as int) =~= ids@);
    count
}

/// Judges the concurrent creations once their sessions are split from their
/// failures.
pub fn judge_fan_out(ids: &Vec<String>, errors: Vec<ClientError>, count: usize) -> (r: Outcome)
    ensures
        r == judged(ids@, errors@, count),
{
    let mut errors = errors;
    let failed = errors.len();
    if failed > 0 {
        let first = errors.remove(0);
        return Outcome::Failure(Diagnostic::SlotsFailed { failed, count, first });
    }
    if ids.len() != count {
        return Outcome::Failure(Diagnostic::SessionCount { expected: count, got: ids.len() });
    }
    let unique = count_distinct(ids);
    if unique != count {
        return Outcome::Failure(Diagnostic::DuplicateIds { expected: count, unique });
    }
    Outcome::Success
}

} // verus!
