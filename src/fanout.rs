use vstd::prelude::*;

use crate::model::{ClientError, CliError, CONFLICT};

verus! {

/// The outcome of a group of sibling tasks, every one of which has run to its
/// end: success when all succeeded, else the error of the first failed task in
/// submission order, whatever order they finished in.
pub open spec fn group_outcome(results: Seq<Result<(), CliError>>) -> Result<(), CliError>
    decreases results.len(),
{
    if results.len() == 0 {
        Ok(())
    } else if results[0] is Err {
        results[0]
    } else {
        group_outcome(results.drop_first())
    }
}

/// Whether a failed call was refused because what it asked for already exists.
pub open spec fn is_conflict(e: ClientError) -> bool {
    match e {
        ClientError::Api(a) => a.status == CONFLICT,
        ClientError::Transport(_) => false,
    }
}

/// The outcome of a request whose conflict means that what it asks for is
/// already there (a join, at apply time): that counts as success, any other
/// failure is fatal.
pub open spec fn conflict_absorbed(outcome: Result<(), ClientError>) -> Result<(), CliError> {
    match outcome {
        Ok(()) => Ok(()),
        Err(e) => if is_conflict(e) {
            Ok(())
        } else {
            Err(CliError::Client(e))
        },
    }
}

/// The outcome of any other request: every failure is fatal.
pub open spec fn call_outcome(outcome: Result<(), ClientError>) -> Result<(), CliError> {
    match outcome {
        Ok(()) => Ok(()),
        Err(e) => Err(CliError::Client(e)),
    }
}

/// Aggregates the results of a group of sibling tasks, given in submission order.
pub fn first_error(results: Vec<Result<(), CliError>>) -> (r: Result<(), CliError>)
    ensures
        r == group_outcome(results@),
{
    let mut pending = results;
    let ghost all = results@;
    let mut i: usize = 0;
    assert(all.subrange(0, all.len() as int) =~= all);
    while i < pending.len()
        invariant
            pending@ == all,
            all == results@,
            i <= all.len(),
            group_outcome(all) == group_outcome(all.subrange(i as int, all.len() as int)),
        decreases all.len() - i,
    {
        let failed = pending[i].is_err();
        proof {
            let rest = all.subrange(i as int, all.len() as int);
            assert(rest[0] == all[i as int]);
            assert(rest.drop_first() =~= all.subrange(i + 1, all.len() as int));
            assert(failed == (rest[0] is Err));
            assert(failed ==> group_outcome(rest) == rest[0]);
        }
        if failed {
            let e = pending.remove(i);
            assert(e == all[i as int]);
            assert(group_outcome(all) == all[i as int]);
            return e;
        }
        i += 1;
    }
    assert(all.subrange(i as int, all.len() as int) =~= Seq::<Result<(), CliError>>::empty());
    Ok(())
}

/// Classifies the result of a join request.
pub fn classify_join(outcome: Result<(), ClientError>) -> (r: Result<(), CliError>)
    ensures
        r == conflict_absorbed(outcome),
{
    match outcome {
        Ok(()) => Ok(()),
        Err(e) => {
            let conflict = match &e {
                ClientError::Api(a) => a.status == CONFLICT,
                ClientError::Transport(_) => false,
            };
            if conflict {
                Ok(())
            } else {
                Err(CliError::Client(e))
            }
        },
    }
}

/// Classifies the result of any request but a join.
pub fn propagate(outcome: Result<(), ClientError>) -> (r: Result<(), CliError>)
    ensures
        r == call_outcome(outcome),
{
    match outcome {
        Ok(()) => Ok(()),
        Err(e) => Err(CliError::Client(e)),
    }
}

/// When every task before the `k`-th succeeded and the `k`-th failed, the
/// group fails with the `k`-th task's error, whatever the later tasks did.
pub proof fn lemma_first_failure_wins(results: Seq<Result<(), CliError>>, k: int)
    requires
        0 <= k < results.len(),
        results[k] is Err,
        forall|j: int| 0 <= j < k ==> (#[trigger] results[j]) is Ok,
    ensures
        group_outcome(results) == results[k],
    decreases k,
{
    if k > 0 {
        let rest = results.drop_first();
        assert forall|j: int| 0 <= j < k - 1 implies (#[trigger] rest[j]) is Ok by {
            assert(rest[j] == results[j + 1]);
        }
        lemma_first_failure_wins(rest, k - 1);
    }
}

/// A group fails exactly when one of its tasks failed.
pub proof fn lemma_group_fails_iff_some_task_fails(results: Seq<Result<(), CliError>>)
    ensures
        group_outcome(results) is Ok <==> forall|j: int|
            0 <= j < results.len() ==> (#[trigger] results[j]) is Ok,
    decreases results.len(),
{
    if results.len() > 0 {
        let rest = results.drop_first();
        lemma_group_fails_iff_some_task_fails(rest);
        assert forall|j: int| 0 < j < results.len() implies results[j] == rest[j - 1] by {}
        if group_outcome(results) is Ok {
            assert forall|j: int| 0 <= j < results.len() implies (#[trigger] results[j]) is Ok by {
                if j > 0 {
                    assert(rest[j - 1] is Ok);
                }
            }
        }
    }
}

/// A group of joins succeeds exactly when each of its requests either
/// succeeded or was refused as a conflict.
pub proof fn lemma_conflicts_are_absorbed(outcomes: Seq<Result<(), ClientError>>)
    ensures
        group_outcome(outcomes.map_values(|o: Result<(), ClientError>| conflict_absorbed(o))) is Ok
            <==> forall|j: int|
            0 <= j < outcomes.len() ==> (#[trigger] outcomes[j]) is Ok || is_conflict(
                outcomes[j]->Err_0,
            ),
{
    let joined = outcomes.map_values(|o: Result<(), ClientError>| conflict_absorbed(o));
    lemma_group_fails_iff_some_task_fails(joined);
    assert forall|j: int| 0 <= j < outcomes.len() implies joined[j] == conflict_absorbed(
        #[trigger] outcomes[j],
    ) by {}
}

} // verus!
