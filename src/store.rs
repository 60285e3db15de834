use vstd::prelude::*;

verus! {

/// A value that can be copied into an independent value with the same view.
pub trait Snapshot: View + Sized {
    fn snapshot(&self) -> (r: Self)
        ensures
            r@ == self@,
    ;
}

/// `commit` was called while no draft was pending.
#[derive(Debug, Clone, Copy, PartialEq, Eq, Structural)]
pub struct NoDraftError;

/// What a store holds, in terms of the views of its values.
pub ghost struct StoreView<V> {
    pub committed: V,
    pub draft: Option<V>,
}

/// A committed, last known-good value together with at most one pending draft.
pub struct VersionedStore<T> {
    committed: T,
    draft: Option<T>,
}

pub open spec fn view_of_option<T: View>(o: Option<T>) -> Option<T::V> {
    match o {
        Some(v) => Some(v@),
        None => None,
    }
}

impl<T: View> View for VersionedStore<T> {
    type V = StoreView<T::V>;

    closed spec fn view(&self) -> StoreView<T::V> {
        StoreView { committed: self.committed@, draft: view_of_option(self.draft) }
    }
}

impl<T: Snapshot> VersionedStore<T> {
    /// A store whose committed value is `committed`, with no draft.
    pub fn new(committed: T) -> (s: Self)
        ensures
            s@ == (StoreView { committed: committed@, draft: None::<T::V> }),
    {
        VersionedStore { committed, draft: None }
    }

    /// Replaces the draft, whether or not one was pending.
    pub fn stage(&mut self, new_value: T)
        ensures
            final(self)@ == (StoreView { committed: old(self)@.committed, draft: Some(new_value@) }),
    {
        self.draft = Some(new_value);
    }

    /// Moves the pending draft into the committed value.
    pub fn commit(&mut self) -> (r: Result<(), NoDraftError>)
        ensures
            r is Ok <==> old(self)@.draft is Some,
            r is Ok ==> final(self)@ == (StoreView {
                committed: old(self)@.draft->Some_0,
                draft: None::<T::V>,
            }),
            r is Err ==> final(self)@ == old(self)@,
    {
        match self.draft.take() {
            Some(d) => {
                self.committed = d;
                Ok(())
            },
            None => Err(NoDraftError),
        }
    }

    /// Drops the pending draft, if any; the committed value is kept.
    pub fn discard(&mut self)
        ensures
            final(self)@ == (StoreView { committed: old(self)@.committed, draft: None::<T::V> }),
    {
        self.draft = None;
    }

    /// A copy of the committed value.
    pub fn latest(&self) -> (r: T)
        ensures
            r@ == self@.committed,
    {
        self.committed.snapshot()
    }

    /// A copy of the pending draft, if any.
    pub fn draft_snapshot(&self) -> (r: Option<T>)
        ensures
            view_of_option(r) == self@.draft,
    {
        match &self.draft {
            Some(d) => Some(d.snapshot()),
            None => None,
        }
    }
}

} // verus!
