//! A reference lifecycle record store.
//!
//! The store holds the current lifecycle record per resource, keyed by
//! resource id. Updates are committed only if the persisted generation still
//! matches the generation the caller last read (compare-and-swap semantics):
//! a mismatch means a concurrent writer won the race, and the caller must
//! re-read and retry the reconciliation call.

use crate::instance::InstanceState;
use vstd::prelude::*;

verus! {

/// The persisted generation moved since the record was read, or the record
/// was never registered. The caller must re-read and may retry the whole
/// request; the store treats the retry as the caller's responsibility.
#[derive(Clone, Copy, Debug, PartialEq, Eq, Structural)]
pub struct ConcurrencyConflict;

/// The first record stored under the given id, if any.
pub open spec fn spec_find(s: Seq<(u128, InstanceState)>, id: u128) -> Option<InstanceState>
    decreases s.len(),
{
    if s.len() == 0 {
        None
    } else if s[0].0 == id {
        Some(s[0].1)
    } else {
        spec_find(s.drop_first(), id)
    }
}

/// A durable collection of lifecycle records, one per resource.
pub struct DataStore {
    entries: Vec<(u128, InstanceState)>,
}

impl DataStore {
    /// The records held, as a map from resource id to record.
    pub closed spec fn contents(self) -> Map<u128, InstanceState> {
        Map::new(
            |id: u128| spec_find(self.entries@, id) is Some,
            |id: u128| spec_find(self.entries@, id)->Some_0,
        )
    }

    /// Every resource id is stored at most once.
    pub closed spec fn wf(self) -> bool {
        forall|i: int, j: int|
            0 <= i < j < self.entries@.len() ==> (#[trigger] self.entries@[i]).0 != (
            #[trigger] self.entries@[j]).0
    }

    /// An empty store.
    pub fn new() -> (r: DataStore)
        ensures
            r.wf(),
            r.contents() == Map::<u128, InstanceState>::empty(),
    {
        let r = DataStore { entries: Vec::new() };
        proof {
            assert(r.contents() =~= Map::<u128, InstanceState>::empty());
        }
        r
    }

    /// Reads the record for one resource; None if the resource was never
    /// registered.
    pub fn load(&self, resource_id: u128) -> (r: Option<InstanceState>)
        ensures
            r matches Some(rec) ==> self.contents().dom().contains(resource_id) && rec
                == self.contents()[resource_id],
            r is None ==> !self.contents().dom().contains(resource_id),
    {
        match find_index(&self.entries, resource_id) {
            Some(i) => Some(self.entries[i].1),
            None => None,
        }
    }

    /// Registers a resource that is not yet in the store, at its initial
    /// record. Returns false, leaving the store unchanged, if the resource
    /// is already registered.
    pub fn register(&mut self, resource_id: u128, record: InstanceState) -> (r: bool)
        requires
            old(self).wf(),
        ensures
            final(self).wf(),
            r <==> !old(self).contents().dom().contains(resource_id),
            r ==> final(self).contents() == old(self).contents().insert(resource_id, record),
            !r ==> *final(self) == *old(self),
    {
        match find_index(&self.entries, resource_id) {
            Some(_) => false,
            None => {
                proof {
                    lemma_find_none_no_index(self.entries@, resource_id);
                }
                self.entries.push((resource_id, record));
                proof {
                    let s_old = old(self).entries@;
                    let v = (resource_id, record);
                    assert forall|k: u128| #[trigger]
                        spec_find(s_old.push(v), k) == (if k == resource_id {
                            Some(record)
                        } else {
                            spec_find(s_old, k)
                        }) by {
                        lemma_find_push(s_old, v, k);
                    }
                    assert(self.contents() =~= old(self).contents().insert(
                        resource_id,
                        record,
                    ));
                    assert forall|i: int, j: int|
                        0 <= i < j < self.entries@.len() implies (
                    #[trigger] self.entries@[i]).0 != (#[trigger] self.entries@[j]).0 by {
                        if j == s_old.len() {
                            assert(self.entries@[i] == s_old[i]);
                        }
                    }
                }
                true
            },
        }
    }

    /// Commits a new record for the resource if and only if the stored
    /// record's generation still matches the generation the caller last
    /// read. On a conflict the store is unchanged: a call either fully
    /// succeeds or fully fails.
    pub fn compare_and_swap(
        &mut self,
        resource_id: u128,
        old_generation: u64,
        new_record: InstanceState,
    ) -> (r: Result<(), ConcurrencyConflict>)
        requires
            old(self).wf(),
        ensures
            final(self).wf(),
            r is Ok <==> old(self).contents().dom().contains(resource_id) && old(
                self,
            ).contents()[resource_id].current.gen.value == old_generation,
            r is Ok ==> final(self).contents() == old(self).contents().insert(
                resource_id,
                new_record,
            ),
            r is Err ==> *final(self) == *old(self),
    {
        match find_index(&self.entries, resource_id) {
            Some(i) => {
                if self.entries[i].1.current.gen.value == old_generation {
                    self.entries.remove(i);
                    self.entries.insert(i, (resource_id, new_record));
                    proof {
                        let s_old = old(self).entries@;
                        let v = (resource_id, new_record);
                        assert(self.entries@ =~= s_old.update(i as int, v));
                        lemma_find_first(s_old.update(i as int, v), resource_id, i as int);
                        assert forall|k: u128| k != resource_id implies #[trigger] spec_find(
                            s_old.update(i as int, v),
                            k,
                        ) == spec_find(s_old, k) by {
                            lemma_find_update_other(s_old, i as int, v, k);
                        }
                        assert(self.contents() =~= old(self).contents().insert(
                            resource_id,
                            new_record,
                        ));
                        assert forall|a: int, b: int|
                            0 <= a < b < self.entries@.len() implies (
                        #[trigger] self.entries@[a]).0 != (#[trigger] self.entries@[b]).0 by {
                            assert((s_old[a].0, s_old[b].0) == (
                                self.entries@[a].0,
                                self.entries@[b].0,
                            ));
                        }
                    }
                    Ok(())
                } else {
                    Err(ConcurrencyConflict)
                }
            },
            None => Err(ConcurrencyConflict),
        }
    }
}

/// The index of the first entry for the given id, together with what that
/// means for the searched sequence.
fn find_index(entries: &Vec<(u128, InstanceState)>, resource_id: u128) -> (r: Option<usize>)
    ensures
        r matches Some(i) ==> i < entries@.len() && entries@[i as int].0 == resource_id
            && (forall|j: int| 0 <= j < i ==> (#[trigger] entries@[j]).0 != resource_id)
            && spec_find(entries@, resource_id) == Some(entries@[i as int].1),
        r is None ==> spec_find(entries@, resource_id) is None,
{
    let mut i: usize = 0;
    while i < entries.len()
        invariant
            i <= entries@.len(),
            forall|j: int| 0 <= j < i ==> (#[trigger] entries@[j]).0 != resource_id,
        decreases entries@.len() - i,
    {
        if entries[i].0 == resource_id {
            proof {
                lemma_find_first(entries@, resource_id, i as int);
            }
            return Some(i);
        }
        i = i + 1;
    }
    proof {
        lemma_find_none(entries@, resource_id);
    }
    None
}

/// If `s[i]` is the first entry with the given id, the find resolves to it.
proof fn lemma_find_first(s: Seq<(u128, InstanceState)>, id: u128, i: int)
    requires
        0 <= i < s.len(),
        s[i].0 == id,
        forall|j: int| 0 <= j < i ==> (#[trigger] s[j]).0 != id,
    ensures
        spec_find(s, id) == Some(s[i].1),
    decreases i,
{
    if i > 0 {
        lemma_find_first(s.drop_first(), id, i - 1);
    }
}

/// If no entry has the given id, the find comes up empty.
proof fn lemma_find_none(s: Seq<(u128, InstanceState)>, id: u128)
    requires
        forall|j: int| 0 <= j < s.len() ==> (#[trigger] s[j]).0 != id,
    ensures
        spec_find(s, id) is None,
    decreases s.len(),
{
    if s.len() > 0 {
        lemma_find_none(s.drop_first(), id);
    }
}

/// If the find comes up empty, no entry has the given id.
proof fn lemma_find_none_no_index(s: Seq<(u128, InstanceState)>, id: u128)
    requires
        spec_find(s, id) is None,
    ensures
        forall|j: int| 0 <= j < s.len() ==> (#[trigger] s[j]).0 != id,
    decreases s.len(),
{
    if s.len() > 0 {
        lemma_find_none_no_index(s.drop_first(), id);
        assert forall|j: int| 0 <= j < s.len() implies (#[trigger] s[j]).0 != id by {
            if j > 0 {
                assert(s.drop_first()[j - 1] == s[j]);
            }
        }
    }
}

/// Appending an entry resolves a find for its id only where no earlier entry
/// already resolved it; finds for other ids are untouched.
proof fn lemma_find_push(s: Seq<(u128, InstanceState)>, v: (u128, InstanceState), id: u128)
    ensures
        spec_find(s.push(v), id) == (if spec_find(s, id) is Some {
            spec_find(s, id)
        } else if id == v.0 {
            Some(v.1)
        } else {
            None
        }),
    decreases s.len(),
{
    reveal_with_fuel(spec_find, 3);
    if s.len() == 0 {
        assert(s.push(v)[0] == v);
        assert(s.push(v).drop_first() =~= Seq::<(u128, InstanceState)>::empty());
    } else {
        assert(s.push(v)[0] == s[0]);
        assert(s.push(v).drop_first() =~= s.drop_first().push(v));
        lemma_find_push(s.drop_first(), v, id);
    }
}

/// Updating the entry at an index, keeping its id, leaves finds for every
/// other id untouched.
proof fn lemma_find_update_other(
    s: Seq<(u128, InstanceState)>,
    i: int,
    v: (u128, InstanceState),
    id: u128,
)
    requires
        0 <= i < s.len(),
        s[i].0 == v.0,
        id != v.0,
    ensures
        spec_find(s.update(i, v), id) == spec_find(s, id),
    decreases s.len(),
{
    if i == 0 {
        assert(s.update(i, v).drop_first() =~= s.drop_first());
    } else {
        assert(s.update(i, v)[0] == s[0]);
        assert(s.update(i, v).drop_first() =~= s.drop_first().update(i - 1, v));
        lemma_find_update_other(s.drop_first(), i - 1, v, id);
    }
}

/// Interfaces available to workflow (saga) actions and undo actions: the
/// explicit context a caller hands to each saga step in place of any
/// process-wide state.
pub struct SagaContext {
    datastore: DataStore,
}

impl SagaContext {
    /// The store this context gives access to.
    pub closed spec fn spec_datastore(self) -> DataStore {
        self.datastore
    }

    pub fn new(datastore: DataStore) -> (r: SagaContext)
        ensures
            r.spec_datastore() == datastore,
    {
        SagaContext { datastore }
    }

    pub fn datastore(&self) -> (r: &DataStore)
        ensures
            *r == self.spec_datastore(),
    {
        &self.datastore
    }
}

} // verus!
