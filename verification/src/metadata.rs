//! What the library remembers about each tab between polls.

use vstd::prelude::*;

verus! {

/// The record kept for one external tab.
///
/// Times are seconds on a clock that the driver supplies.
#[derive(Clone, Debug, PartialEq, Eq)]
pub struct TabMetadata {
    pub id: String,
    pub opened_at: u64,
    pub last_url_change_at: u64,
    pub current_url: String,
}

/// The mathematical content of a `TabMetadata`.
pub ghost struct MetaView {
    pub id: Seq<char>,
    pub opened_at: u64,
    pub last_url_change_at: u64,
    pub current_url: Seq<char>,
}

impl View for TabMetadata {
    type V = MetaView;

    open spec fn view(&self) -> MetaView {
        MetaView {
            id: self.id@,
            opened_at: self.opened_at,
            last_url_change_at: self.last_url_change_at,
            current_url: self.current_url@,
        }
    }
}

/// The views of a list of records, in order.
pub open spec fn meta_views(entries: Seq<TabMetadata>) -> Seq<MetaView> {
    entries.map_values(|e: TabMetadata| e@)
}

/// Whether some record in `entries` is about the tab `id`.
pub open spec fn contains_id(entries: Seq<MetaView>, id: Seq<char>) -> bool {
    exists|i: int| 0 <= i < entries.len() && (#[trigger] entries[i]).id == id
}

/// No two records are about the same tab.
pub open spec fn distinct_ids(entries: Seq<MetaView>) -> bool {
    forall|i: int, j: int|
        0 <= i < j < entries.len() ==> (#[trigger] entries[i]).id != (#[trigger] entries[j]).id
}

/// The record about the tab `id`, meaningful where `contains_id` holds.
pub open spec fn entry_of(entries: Seq<MetaView>, id: Seq<char>) -> MetaView {
    entries[choose|i: int| 0 <= i < entries.len() && (#[trigger] entries[i]).id == id]
}

impl TabMetadata {
    /// The record for a tab first seen at `now`.
    pub fn first_sight(id: &String, url: &String, now: u64) -> (m: TabMetadata)
        ensures
            m@ == (MetaView {
                id: id@,
                opened_at: now,
                last_url_change_at: now,
                current_url: url@,
            }),
    {
        TabMetadata {
            id: id.clone(),
            opened_at: now,
            last_url_change_at: now,
            current_url: url.clone(),
        }
    }

    /// An independent copy of this record.
    pub fn duplicate(&self) -> (m: TabMetadata)
        ensures
            m@ == self@,
    {
        TabMetadata {
            id: self.id.clone(),
            opened_at: self.opened_at,
            last_url_change_at: self.last_url_change_at,
            current_url: self.current_url.clone(),
        }
    }
}

/// Where the record about `id` stands in `entries`, if there is one.
pub fn position_of(entries: &Vec<TabMetadata>, id: &String) -> (r: Option<usize>)
    ensures
        r is Some <==> contains_id(meta_views(entries@), id@),
        r matches Some(i) ==> i < entries@.len() && meta_views(entries@)[i as int].id == id@
            && forall|j: int| 0 <= j < i ==> (#[trigger] meta_views(entries@)[j]).id != id@,
{
    let ghost all = meta_views(entries@);
    let mut i: usize = 0;
    while i < entries.len()
        invariant
            i <= entries.len(),
            all == meta_views(entries@),
            forall|j: int| 0 <= j < i ==> (#[trigger] all[j]).id != id@,
        decreases entries.len() - i,
    {
        assert(all[i as int] == entries@[i as int]@);
        if entries[i].id == *id {
            return Some(i);
        }
        i += 1;
    }
    None
}

/// The records of one browser session, at most one per tab, oldest first.
#[derive(Clone, Debug, PartialEq, Eq)]
pub struct ReconcilerState {
    pub(crate) entries: Vec<TabMetadata>,
}

impl View for ReconcilerState {
    type V = Seq<MetaView>;

    closed spec fn view(&self) -> Seq<MetaView> {
        meta_views(self.entries@)
    }
}

impl ReconcilerState {
    /// The view is the list of the records' views.
    pub(crate) proof fn lemma_view(&self)
        ensures
            self@ == meta_views(self.entries@),
    {
    }

    /// The invariant of the type: no tab has two records.
    pub open spec fn wf(&self) -> bool {
        distinct_ids(self@)
    }

    /// The state of a fresh session: no records.
    pub fn new() -> (s: ReconcilerState)
        ensures
            s.wf(),
            s@ == Seq::<MetaView>::empty(),
    {
        ReconcilerState { entries: Vec::new() }
    }

    /// How many tabs are tracked.
    pub fn len(&self) -> (n: usize)
        ensures
            n == self@.len(),
    {
        self.entries.len()
    }

    /// Whether no tab is tracked.
    pub fn is_empty(&self) -> (b: bool)
        ensures
            b == (self@.len() == 0),
    {
        self.entries.len() == 0
    }

    /// Where the record about `id` stands, if there is one.
    pub fn position(&self, id: &String) -> (r: Option<usize>)
        ensures
            r is Some <==> contains_id(self@, id@),
            r matches Some(i) ==> i < self@.len() && self@[i as int].id == id@ && forall|j: int|
                0 <= j < i ==> (#[trigger] self@[j]).id != id@,
    {
        position_of(&self.entries, id)
    }

    /// Whether the tab `id` is tracked.
    pub fn contains(&self, id: &String) -> (b: bool)
        ensures
            b == contains_id(self@, id@),
    {
        self.position(id).is_some()
    }

    /// The record about `id`, if there is one.
    pub fn get(&self, id: &String) -> (r: Option<&TabMetadata>)
        requires
            self.wf(),
        ensures
            r is Some <==> contains_id(self@, id@),
            r matches Some(m) ==> m@ == entry_of(self@, id@),
    {
        match self.position(id) {
            Some(i) => {
                proof {
                    let k = choose|k: int| 0 <= k < self@.len() && (#[trigger] self@[k]).id == id@;
                    assert(k == i) by {
                        if k < i {
                            assert(self@[k].id != self@[i as int].id);
                        } else if i < k {
                            assert(self@[i as int].id != self@[k].id);
                        }
                    }
                }
                Some(&self.entries[i])
            },
            None => None,
        }
    }

    /// Starts tracking a tab with the given record, unless the tab is tracked already.
    /// Returns whether the record was added.
    pub fn insert(&mut self, entry: TabMetadata) -> (added: bool)
        requires
            old(self).wf(),
        ensures
            final(self).wf(),
            added == !contains_id(old(self)@, entry@.id),
            added ==> final(self)@ == old(self)@.push(entry@),
            !added ==> final(self)@ == old(self)@,
    {
        match position_of(&self.entries, &entry.id) {
            Some(_) => false,
            None => {
                proof {
                    let before = meta_views(self.entries@);
                    let after = before.push(entry@);
                    assert(meta_views(self.entries@.push(entry)) =~= after);
                    assert forall|i: int, j: int| 0 <= i < j < after.len() implies (
                    #[trigger] after[i]).id != (#[trigger] after[j]).id by {
                        if j == before.len() {
                            assert(before[i].id != entry@.id);
                        } else {
                            assert(before[i] == after[i] && before[j] == after[j]);
                        }
                    }
                }
                self.entries.push(entry);
                true
            },
        }
    }

    /// The records, oldest first.
    pub fn entries(&self) -> (r: &Vec<TabMetadata>)
        ensures
            meta_views(r@) == self@,
    {
        &self.entries
    }
}

} // verus!
