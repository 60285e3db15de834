use vstd::prelude::*;

use crate::store::Snapshot;

verus! {

/// One named profile entry.
#[derive(Debug)]
pub struct PrfItem {
    pub uid: String,
    pub name: String,
}

pub ghost struct PrfItemView {
    pub uid: Seq<char>,
    pub name: Seq<char>,
}

impl View for PrfItem {
    type V = PrfItemView;

    open spec fn view(&self) -> PrfItemView {
        PrfItemView { uid: self.uid@, name: self.name@ }
    }
}

impl Snapshot for PrfItem {
    fn snapshot(&self) -> (r: Self) {
        PrfItem { uid: self.uid.clone(), name: self.name.clone() }
    }
}

/// The active profile set: which profile is selected, and the ordered entries.
#[derive(Debug)]
pub struct IProfiles {
    pub current: Option<String>,
    pub items: Option<Vec<PrfItem>>,
}

pub ghost struct IProfilesView {
    pub current: Option<Seq<char>>,
    pub items: Option<Seq<PrfItemView>>,
}

pub open spec fn view_of_text(o: Option<String>) -> Option<Seq<char>> {
    match o {
        Some(s) => Some(s@),
        None => None,
    }
}

pub open spec fn view_of_items(o: Option<Vec<PrfItem>>) -> Option<Seq<PrfItemView>> {
    match o {
        Some(v) => Some(v@.map_values(|p: PrfItem| p@)),
        None => None,
    }
}

impl View for IProfiles {
    type V = IProfilesView;

    open spec fn view(&self) -> IProfilesView {
        IProfilesView { current: view_of_text(self.current), items: view_of_items(self.items) }
    }
}

fn snapshot_items(items: &Vec<PrfItem>) -> (r: Vec<PrfItem>)
    ensures
        r@.map_values(|p: PrfItem| p@) == items@.map_values(|p: PrfItem| p@),
{
    let mut r: Vec<PrfItem> = Vec::new();
    let mut i: usize = 0;
    while i < items.len()
        invariant
            i <= items@.len(),
            r@.len() == i,
            forall|j: int| 0 <= j < i ==> (#[trigger] r@[j])@ == items@[j]@,
        decreases items@.len() - i,
    {
        r.push(items[i].snapshot());
        i = i + 1;
    }
    assert(r@.map_values(|p: PrfItem| p@) =~= items@.map_values(|p: PrfItem| p@));
    r
}

impl Snapshot for IProfiles {
    fn snapshot(&self) -> (r: Self) {
        let current = match &self.current {
            Some(c) => Some(c.clone()),
            None => None,
        };
        let items = match &self.items {
            Some(v) => Some(snapshot_items(v)),
            None => None,
        };
        IProfiles { current, items }
    }
}

impl IProfiles {
    /// A copy of this profile set with `profile_index` as the selected profile.
    pub fn select_current(&self, profile_index: String) -> (r: IProfiles)
        ensures
            r@ == (IProfilesView { current: Some(profile_index@), items: self@.items }),
    {
        let snap = self.snapshot();
        IProfiles { current: Some(profile_index), items: snap.items }
    }
}

} // verus!
