use vstd::prelude::*;

use crate::errors::{
    reconfigure_message, transaction_message, ReconfigureError, RollbackError, TransactionError,
};
use crate::guard::{disarmed, rollback_start, teardown_view, GuardView, TeardownView};
use crate::store::StoreView;
use crate::transaction::{advance_spec, awaiting, begin_spec, TxPhase, TxStepView};

verus! {

/// The store, and what the caller is told, after a transaction on `s` that
/// stages `doc`, whose apply the process answers with `applied` and, if that
/// fails, whose rollback the process answers with `restored`.
pub open spec fn transaction_outcome<V>(
    s: StoreView<V>,
    doc: V,
    applied: Result<(), ReconfigureError>,
    restored: Result<(), ReconfigureError>,
) -> (StoreView<V>, TxStepView<V>) {
    let (tx1, s1) = begin_spec(s, doc);
    let (tx2, s2, step2) = advance_spec(tx1, s1, applied);
    if step2 is Apply {
        let (tx3, s3, step3) = advance_spec(tx2, s2, restored);
        (s3, step3)
    } else {
        (s2, step2)
    }
}

/// A transaction always leaves a state where the caller can act: after the
/// first answer it either is done or awaits the rollback's answer, and after
/// the second it is done.
pub proof fn lemma_transaction_steps_are_enabled<V>(
    s: StoreView<V>,
    doc: V,
    applied: Result<(), ReconfigureError>,
)
    ensures
        awaiting(begin_spec(s, doc).0, begin_spec(s, doc).1),
        ({
            let (tx1, s1) = begin_spec(s, doc);
            let (tx2, s2, step2) = advance_spec(tx1, s1, applied);
            step2 is Apply ==> awaiting(tx2, s2) && tx2.phase == TxPhase::RollingBack
        }),
{
}

/// When the process accepts a document, the transaction commits it; running
/// the same transaction again, accepted again, commits it again and leaves the
/// committed value unchanged.
pub proof fn lemma_commit_idempotent_result<V>(s: StoreView<V>, doc: V)
    ensures
        transaction_outcome(s, doc, Ok(()), Ok(())).1 == TxStepView::<V>::Committed,
        transaction_outcome(s, doc, Ok(()), Ok(())).0 == (StoreView {
            committed: doc,
            draft: None::<V>,
        }),
        transaction_outcome(transaction_outcome(s, doc, Ok(()), Ok(())).0, doc, Ok(()), Ok(())).1
            == TxStepView::<V>::Committed,
        transaction_outcome(transaction_outcome(s, doc, Ok(()), Ok(())).0, doc, Ok(()), Ok(())).0
            == (StoreView { committed: doc, draft: None::<V> }),
{
}

/// When the process refuses a document and then accepts the previous one
/// again, the committed value is the one from before the transaction, no draft
/// is left, and the caller is told the original failure.
pub proof fn lemma_rollback_restores_prior_value<V>(
    s: StoreView<V>,
    doc: V,
    failure: ReconfigureError,
)
    ensures
        transaction_outcome(s, doc, Err(failure), Ok(())).0 == (StoreView {
            committed: s.committed,
            draft: None::<V>,
        }),
        transaction_outcome(s, doc, Err(failure), Ok(())).1 == TxStepView::<V>::Aborted(
            TransactionError::Failed(failure),
        ),
{
}

/// `part` occurs in `text` starting at `at`.
pub open spec fn occurs_at(text: Seq<char>, part: Seq<char>, at: int) -> bool {
    0 <= at && at + part.len() <= text.len() && text.subrange(at, at + part.len()) == part
}

/// When the process refuses both the document and the rollback, the caller is
/// told both failures, and its message names the original failure before the
/// rollback's; the committed value is still the previous one, never the
/// refused document, and the previous value stays pending as a draft.
pub proof fn lemma_no_silent_success_on_rollback_failure<V>(
    s: StoreView<V>,
    doc: V,
    failure: ReconfigureError,
    rollback_failure: ReconfigureError,
)
    ensures
        transaction_outcome(s, doc, Err(failure), Err(rollback_failure)).1
            == TxStepView::<V>::Aborted(
            TransactionError::RollbackFailed {
                cause: failure,
                rollback: RollbackError { cause: rollback_failure },
            },
        ),
        transaction_outcome(s, doc, Err(failure), Err(rollback_failure)).0 == (StoreView {
            committed: s.committed,
            draft: Some(s.committed),
        }),
        exists|i: int, j: int|
            occurs_at(
                transaction_message(
                    TransactionError::RollbackFailed {
                        cause: failure,
                        rollback: RollbackError { cause: rollback_failure },
                    },
                ),
                reconfigure_message(failure),
                i,
            ) && occurs_at(
                transaction_message(
                    TransactionError::RollbackFailed {
                        cause: failure,
                        rollback: RollbackError { cause: rollback_failure },
                    },
                ),
                reconfigure_message(rollback_failure),
                j,
            ) && i + reconfigure_message(failure).len() <= j,
{
    let err = TransactionError::RollbackFailed {
        cause: failure,
        rollback: RollbackError { cause: rollback_failure },
    };
    let msg = transaction_message(err);
    let head = "configuration update failed: "@;
    let m1 = reconfigure_message(failure);
    let m2 = reconfigure_message(rollback_failure);
    let sep = "; "@;
    let rb = "rollback failed: "@;
    let tail = "; manual intervention may be required"@;
    let i = head.len() as int;
    let j = (head.len() + m1.len() + sep.len() + rb.len()) as int;
    assert(msg =~= head + m1 + sep + (rb + m2) + tail);
    assert(msg.subrange(i, i + m1.len()) =~= m1);
    assert(msg.subrange(j, j + m2.len()) =~= m2);
    assert(occurs_at(msg, m1, i) && occurs_at(msg, m2, j));
}

/// A guard that was discarded owes nothing: a rollback leaves the store alone
/// and hands out no document to apply, and its teardown reports nothing
/// unresolved.
pub proof fn lemma_discarded_guard_is_inert<V>(g: GuardView<V>, s: StoreView<V>)
    ensures
        rollback_start(disarmed(g), s) == (s, None::<V>),
        teardown_view(disarmed(g)) == TeardownView::Settled,
{
}

/// A failed transaction after a committed one never reverts past the first:
/// whatever the process answers to the rollback, the committed value is the
/// one the first transaction committed.
pub proof fn lemma_failure_keeps_earlier_commit<V>(
    s: StoreView<V>,
    first: V,
    second: V,
    failure: ReconfigureError,
    restored: Result<(), ReconfigureError>,
)
    ensures
        transaction_outcome(
            transaction_outcome(s, first, Ok(()), Ok(())).0,
            second,
            Err(failure),
            restored,
        ).0.committed == first,
{
}

} // verus!
