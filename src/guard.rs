use vstd::prelude::*;

use crate::errors::{rollback_message, ReconfigureError, RollbackError};
use crate::store::{Snapshot, StoreView, VersionedStore};

verus! {

/// Owns the value that was committed when a transaction began, and records
/// whether restoring it is still owed.
///
/// The guard is held by one transaction through `&mut`, so the flag and the
/// diagnostic slot are plain fields: no other path can reach them.
pub struct ConfigGuard<T> {
    original_config: T,
    should_rollback: bool,
    rollback_error: Option<String>,
}

pub ghost struct GuardView<V> {
    pub original: V,
    /// A rollback is still owed.
    pub armed: bool,
    /// The message of the last failed rollback, if any.
    pub last_error: Option<Seq<char>>,
}

impl<T: View> View for ConfigGuard<T> {
    type V = GuardView<T::V>;

    closed spec fn view(&self) -> GuardView<T::V> {
        GuardView {
            original: self.original_config@,
            armed: self.should_rollback,
            last_error: match self.rollback_error {
                Some(m) => Some(m@),
                None => None,
            },
        }
    }
}

/// What the guard has to report when its scope ends.
#[derive(Debug, PartialEq, Eq)]
pub enum TeardownReport {
    /// Nothing is owed: the transaction committed or was rolled back.
    Settled,
    /// A rollback was attempted and failed with this message.
    Unresolved(String),
    /// The guard ends armed and no rollback was ever attempted: a usage defect.
    NeverAttempted,
}

pub ghost enum TeardownView {
    Settled,
    Unresolved(Seq<char>),
    NeverAttempted,
}

impl View for TeardownReport {
    type V = TeardownView;

    open spec fn view(&self) -> TeardownView {
        match self {
            TeardownReport::Settled => TeardownView::Settled,
            TeardownReport::Unresolved(m) => TeardownView::Unresolved(m@),
            TeardownReport::NeverAttempted => TeardownView::NeverAttempted,
        }
    }
}

pub open spec fn new_guard<V>(original: V) -> GuardView<V> {
    GuardView { original, armed: true, last_error: None }
}

pub open spec fn disarmed<V>(g: GuardView<V>) -> GuardView<V> {
    GuardView { armed: false, ..g }
}

/// The store after the first half of a rollback, and the document that must be
/// applied to the process; nothing at all when no rollback is owed.
pub open spec fn rollback_start<V>(g: GuardView<V>, s: StoreView<V>) -> (StoreView<V>, Option<V>) {
    if g.armed {
        (StoreView { committed: s.committed, draft: Some(g.original) }, Some(g.original))
    } else {
        (s, None)
    }
}

/// The guard, the store and the result once the process has answered the
/// re-apply of the original document.
pub open spec fn rollback_finish<V>(
    g: GuardView<V>,
    s: StoreView<V>,
    outcome: Result<(), ReconfigureError>,
) -> (GuardView<V>, StoreView<V>, Result<(), RollbackError>) {
    match outcome {
        Ok(()) => (disarmed(g), StoreView { committed: g.original, draft: None }, Ok(())),
        Err(e) => (
            GuardView { last_error: Some(rollback_message(RollbackError { cause: e })), ..g },
            s,
            Err(RollbackError { cause: e }),
        ),
    }
}

pub open spec fn teardown_view<V>(g: GuardView<V>) -> TeardownView {
    if !g.armed {
        TeardownView::Settled
    } else {
        match g.last_error {
            Some(m) => TeardownView::Unresolved(m),
            None => TeardownView::NeverAttempted,
        }
    }
}

impl<T: Snapshot> ConfigGuard<T> {
    /// An armed guard holding `config`, the value to restore on failure.
    pub fn new(config: T) -> (g: Self)
        ensures
            g@ == new_guard(config@),
    {
        ConfigGuard { original_config: config, should_rollback: true, rollback_error: None }
    }

    /// Marks the transaction as finished successfully: no rollback is owed.
    pub fn discard(&mut self)
        ensures
            final(self)@ == disarmed(old(self)@),
    {
        self.should_rollback = false;
    }

    /// Whether a rollback is still owed.
    pub fn is_armed(&self) -> (r: bool)
        ensures
            r == self@.armed,
    {
        self.should_rollback
    }

    /// Starts a rollback: drops the failed draft and stages the original value
    /// again. Returns the document to re-apply to the process, or `None` when
    /// no rollback is owed, in which case the store is left alone.
    pub fn rollback(&self, store: &mut VersionedStore<T>) -> (r: Option<T>)
        ensures
            (final(store)@, crate::store::view_of_option(r)) == rollback_start(self@, old(store)@),
    {
        if !self.should_rollback {
            return None;
        }
        store.discard();
        store.stage(self.original_config.snapshot());
        Some(self.original_config.snapshot())
    }

    /// Ends a rollback with the process's answer to the re-apply. On success
    /// the original value is committed again and the guard is settled; on
    /// failure the store keeps the original as a pending draft, and the guard
    /// stays armed and records the failure.
    pub fn complete_rollback(
        &mut self,
        store: &mut VersionedStore<T>,
        outcome: Result<(), ReconfigureError>,
    ) -> (r: Result<(), RollbackError>)
        requires
            old(self)@.armed,
            old(store)@.draft == Some(old(self)@.original),
        ensures
            (final(self)@, final(store)@, r) == rollback_finish(old(self)@, old(store)@, outcome),
    {
        match outcome {
            Ok(()) => {
                let _ = store.commit();
                self.should_rollback = false;
                Ok(())
            },
            Err(e) => {
                let err = RollbackError { cause: e };
                self.rollback_error = Some(err.message());
                Err(err)
            },
        }
    }

    /// What must be reported when the guard's scope ends.
    pub fn teardown(&self) -> (r: TeardownReport)
        ensures
            r@ == teardown_view(self@),
    {
        if !self.should_rollback {
            TeardownReport::Settled
        } else {
            match &self.rollback_error {
                Some(m) => TeardownReport::Unresolved(m.clone()),
                None => TeardownReport::NeverAttempted,
            }
        }
    }
}

} // verus!
