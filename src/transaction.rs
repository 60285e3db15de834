use vstd::prelude::*;

use crate::errors::{ReconfigureError, TransactionError};
use crate::guard::{
    disarmed, new_guard, rollback_finish, rollback_start, ConfigGuard, GuardView,
};
use crate::store::{Snapshot, StoreView, VersionedStore};

verus! {

/// Where a transaction stands.
#[derive(Debug, Clone, Copy, PartialEq, Eq, Structural)]
pub enum TxPhase {
    /// The new document is staged and its apply is awaited.
    Applying,
    /// The new document failed; the re-apply of the original is awaited.
    RollingBack,
    /// The new document is committed.
    Committed,
    /// The transaction failed and its rollback has been resolved, one way or the other.
    RolledBack,
}

/// One configuration transaction on one store: stage, apply, then commit or
/// roll back. The process is driven by the caller, which performs each
/// `TxStep::Apply` and hands the process's answer to `advance`.
pub struct Transaction<T> {
    guard: ConfigGuard<T>,
    phase: TxPhase,
    failure: Option<ReconfigureError>,
}

pub ghost struct TransactionView<V> {
    pub guard: GuardView<V>,
    pub phase: TxPhase,
    /// The answer that made the new document fail.
    pub failure: Option<ReconfigureError>,
}

impl<T: View> View for Transaction<T> {
    type V = TransactionView<T::V>;

    closed spec fn view(&self) -> TransactionView<T::V> {
        TransactionView { guard: self.guard@, phase: self.phase, failure: self.failure }
    }
}

/// What the caller must do next.
#[derive(Debug)]
pub enum TxStep<T> {
    /// Push this document to the process and report its answer.
    Apply(T),
    /// The new document is committed: persist the store's committed value and
    /// notify; a failure there is a warning, not a failure of the transaction.
    Committed,
    /// The transaction failed; the error says whether the rollback succeeded.
    Aborted(TransactionError),
}

pub ghost enum TxStepView<V> {
    Apply(V),
    Committed,
    Aborted(TransactionError),
}

impl<T: View> View for TxStep<T> {
    type V = TxStepView<T::V>;

    open spec fn view(&self) -> TxStepView<T::V> {
        match self {
            TxStep::Apply(d) => TxStepView::Apply(d@),
            TxStep::Committed => TxStepView::Committed,
            TxStep::Aborted(e) => TxStepView::Aborted(*e),
        }
    }
}

/// The transaction and the store right after `doc` was staged on `s`.
pub open spec fn begin_spec<V>(s: StoreView<V>, doc: V) -> (TransactionView<V>, StoreView<V>) {
    (
        TransactionView { guard: new_guard(s.committed), phase: TxPhase::Applying, failure: None },
        StoreView { committed: s.committed, draft: Some(doc) },
    )
}

/// The transaction awaits an answer from the process, and the store is as the
/// transaction left it: nothing committed yet, and the document under apply
/// pending as the draft.
pub open spec fn awaiting<V>(tx: TransactionView<V>, s: StoreView<V>) -> bool {
    &&& s.committed == tx.guard.original
    &&& s.draft is Some
    &&& match tx.phase {
        TxPhase::Applying => tx.guard.armed && tx.guard.last_error is None,
        TxPhase::RollingBack => tx.guard.armed && tx.guard.last_error is None
            && s.draft == Some(tx.guard.original) && tx.failure is Some,
        _ => false,
    }
}

/// One step: the transaction, the store and the next action after the process
/// answered `outcome`.
pub open spec fn advance_spec<V>(
    tx: TransactionView<V>,
    s: StoreView<V>,
    outcome: Result<(), ReconfigureError>,
) -> (TransactionView<V>, StoreView<V>, TxStepView<V>) {
    match tx.phase {
        TxPhase::Applying => match outcome {
            Ok(()) => (
                TransactionView { guard: disarmed(tx.guard), phase: TxPhase::Committed, ..tx },
                StoreView { committed: s.draft->Some_0, draft: None },
                TxStepView::Committed,
            ),
            Err(e) => {
                let (s2, doc) = rollback_start(tx.guard, s);
                (
                    TransactionView { phase: TxPhase::RollingBack, failure: Some(e), ..tx },
                    s2,
                    TxStepView::Apply(doc->Some_0),
                )
            },
        },
        _ => {
            let (g2, s2, r) = rollback_finish(tx.guard, s, outcome);
            let cause = tx.failure->Some_0;
            (
                TransactionView { guard: g2, phase: TxPhase::RolledBack, ..tx },
                s2,
                TxStepView::Aborted(
                    match r {
                        Ok(()) => TransactionError::Failed(cause),
                        Err(rollback) => TransactionError::RollbackFailed { cause, rollback },
                    },
                ),
            )
        },
    }
}

impl<T: Snapshot> Transaction<T> {
    /// Starts a transaction: remembers the committed value, stages `doc`, and
    /// returns the document to apply to the process.
    pub fn begin(store: &mut VersionedStore<T>, doc: T) -> (r: (Self, T))
        ensures
            (r.0@, final(store)@) == begin_spec(old(store)@, doc@),
            r.1@ == doc@,
            awaiting(r.0@, final(store)@),
    {
        let guard = ConfigGuard::new(store.latest());
        let apply = doc.snapshot();
        store.stage(doc);
        (Transaction { guard, phase: TxPhase::Applying, failure: None }, apply)
    }

    /// Takes the process's answer to the last `Apply` and decides what follows.
    pub fn advance(
        &mut self,
        store: &mut VersionedStore<T>,
        outcome: Result<(), ReconfigureError>,
    ) -> (r: TxStep<T>)
        requires
            awaiting(old(self)@, old(store)@),
        ensures
            (final(self)@, final(store)@, r@) == advance_spec(old(self)@, old(store)@, outcome),
            r is Apply ==> awaiting(final(self)@, final(store)@),
    {
        match self.phase {
            TxPhase::Applying => match outcome {
                Ok(()) => {
                    let _ = store.commit();
                    self.guard.discard();
                    self.phase = TxPhase::Committed;
                    TxStep::Committed
                },
                Err(e) => {
                    let doc = self.guard.rollback(store);
                    self.phase = TxPhase::RollingBack;
                    self.failure = Some(e);
                    match doc {
                        Some(d) => TxStep::Apply(d),
                        None => {
                            proof {
                                assert(false);
                            }
                            TxStep::Committed
                        },
                    }
                },
            },
            _ => {
                let r = self.guard.complete_rollback(store, outcome);
                self.phase = TxPhase::RolledBack;
                let cause = match &self.failure {
                    Some(c) => c.copied(),
                    None => {
                        proof {
                            assert(false);
                        }
                        ReconfigureError::Timeout
                    },
                };
                match r {
                    Ok(()) => TxStep::Aborted(TransactionError::Failed(cause)),
                    Err(rollback) => TxStep::Aborted(
                        TransactionError::RollbackFailed { cause, rollback },
                    ),
                }
            },
        }
    }

    /// Where the transaction stands.
    pub fn phase(&self) -> (r: TxPhase)
        ensures
            r == self@.phase,
    {
        self.phase
    }

    /// The guard of this transaction, for its teardown report.
    pub fn guard(&self) -> (r: &ConfigGuard<T>)
        ensures
            r@ == self@.guard,
    {
        &self.guard
    }
}

} // verus!
