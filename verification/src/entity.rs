//! The named entities of each kind.
//!
//! An entity is known by its name within the namespace of its kind. The store
//! owns the payload of every entity, a block of bytes of the size that the
//! kind declares, and hands out a handle that names that block until the
//! entity is deleted.
use crate::error::Error;
use crate::registry::TypeId;
use vstd::hash_map::StringHashMap;
use vstd::prelude::*;

verus! {

/// The name of an entity's payload storage, valid until the entity is
/// deleted. After that the store may give the same handle to a new entity.
#[derive(Clone, Copy, Debug, PartialEq, Eq, Structural, Hash)]
pub struct EntityHandle {
    /// The place of the entity in its store.
    pub slot: usize,
}

/// An entity as contracts see it.
pub struct EntityView {
    pub name: Seq<char>,
    pub type_id: TypeId,
    pub payload: Seq<u8>,
}

/// The live entities of a store, by handle.
pub type StoreView = Map<EntityHandle, EntityView>;

struct Entity {
    name: String,
    type_id: TypeId,
    payload: Vec<u8>,
}

/// The names of one kind, each with the slot of its entity, and their
/// number.
struct Namespace {
    type_id: TypeId,
    slot_of: StringHashMap<usize>,
    count: usize,
}

/// The store of entities.
///
/// Entities live in slots, and a handle is the number of a slot. A name is
/// looked up in the table of its kind, so a lookup does not grow with the
/// number of entities, only with the number of kinds.
pub struct EntityStore {
    slots: Vec<Option<Entity>>,
    /// Slots that held an entity once and hold none now.
    vacant: Vec<usize>,
    namespaces: Vec<Namespace>,
}

/// The largest payload that a store can hold: no allocation is larger than
/// the largest signed word, on any machine.
pub const MAX_PAYLOAD_SIZE: usize = isize::MAX as usize;

/// Whether `h` is the live entity called `name` of kind `type_id`.
pub open spec fn answers_to(m: StoreView, h: EntityHandle, name: Seq<char>, type_id: TypeId) -> bool {
    m.dom().contains(h) && m[h].name == name && m[h].type_id == type_id
}

/// The handle of the entity called `name` of kind `type_id`, if it lives.
/// An entity of the same name and another kind does not count.
pub open spec fn handle_of(m: StoreView, name: Seq<char>, type_id: TypeId) -> Option<EntityHandle> {
    if exists|h: EntityHandle| answers_to(m, h, name, type_id) {
        Some(choose|h: EntityHandle| answers_to(m, h, name, type_id))
    } else {
        None
    }
}

/// The number of live entities of kind `type_id`.
pub open spec fn count_of(m: StoreView, type_id: TypeId) -> nat {
    m.dom().filter(|h: EntityHandle| m[h].type_id == type_id).len()
}

/// A payload of `n` bytes, all zero.
pub open spec fn zeroed(n: nat) -> Seq<u8> {
    Seq::new(n, |i: int| 0u8)
}

/// The entity that `create` makes: no byte of its payload is set.
pub open spec fn fresh_entity(name: Seq<char>, type_id: TypeId) -> EntityView {
    EntityView { name, type_id, payload: zeroed(type_id.payload_size as nat) }
}

/// The stores that can exist: finitely many entities, no two with the same
/// name and kind, each with a payload of its kind's size.
pub open spec fn store_ok(m: StoreView) -> bool {
    &&& m.dom().finite()
    &&& forall|a: EntityHandle, b: EntityHandle|
        #![trigger m[a], m[b]]
        m.dom().contains(a) && m.dom().contains(b) && m[a].name == m[b].name && m[a].type_id
            == m[b].type_id ==> a == b
    &&& forall|h: EntityHandle|
        m.dom().contains(h) ==> (#[trigger] m[h]).payload.len() == m[h].type_id.payload_size
}

/// What creating the entity `name` of kind `type_id` answers and leaves,
/// where `free` is the handle that the store picks for it.
///
/// A name that lives in that kind's namespace is refused and nothing
/// changes. Otherwise the entity is added under `free`.
pub open spec fn create_model(m: StoreView, name: Seq<char>, type_id: TypeId, free: EntityHandle) -> (
    StoreView,
    Result<EntityHandle, Error>,
) {
    if handle_of(m, name, type_id) is Some {
        (m, Err(Error::DuplicateName))
    } else {
        (m.insert(free, fresh_entity(name, type_id)), Ok(free))
    }
}

/// What deleting the entity `name` of kind `type_id` answers and leaves:
/// the handle that it gives up, or `NotFound` and no change.
pub open spec fn delete_model(m: StoreView, name: Seq<char>, type_id: TypeId) -> (
    StoreView,
    Result<EntityHandle, Error>,
) {
    match handle_of(m, name, type_id) {
        Some(h) => (m.remove(h), Ok(h)),
        None => (m, Err(Error::NotFound)),
    }
}

/// What offering `payload` for the entity behind `h` answers and leaves.
///
/// A handle that names no live entity gives `NotFound`, a payload of the
/// wrong size `TypeMismatch`; either way nothing changes.
pub open spec fn write_model(m: StoreView, h: EntityHandle, payload: Seq<u8>) -> (
    StoreView,
    Result<(), Error>,
) {
    if !m.dom().contains(h) {
        (m, Err(Error::NotFound))
    } else if payload.len() != m[h].type_id.payload_size {
        (m, Err(Error::TypeMismatch))
    } else {
        (m.insert(h, EntityView { payload, ..m[h] }), Ok(()))
    }
}

/// The handle that a successful creation returned; of no interest after a
/// failed one.
pub open spec fn granted(result: Result<EntityHandle, Error>) -> EntityHandle {
    match result {
        Ok(h) => h,
        Err(_) => EntityHandle { slot: 0 },
    }
}

/// Whether `gone` names every entity of `m` once, each with its kind, in
/// the order of the handles.
pub open spec fn lists_all(m: StoreView, gone: Seq<(EntityHandle, TypeId)>) -> bool {
    &&& forall|j: int|
        0 <= j < gone.len() ==> m.dom().contains((#[trigger] gone[j]).0) && m[gone[j].0].type_id
            == gone[j].1
    &&& forall|h: EntityHandle|
        m.dom().contains(h) ==> exists|j: int| 0 <= j < gone.len() && (#[trigger] gone[j]).0 == h
    &&& forall|a: int, b: int|
        0 <= a < b < gone.len() ==> (#[trigger] gone[a]).0.slot < (#[trigger] gone[b]).0.slot
}

impl Entity {
    spec fn view(&self) -> EntityView {
        EntityView { name: self.name@, type_id: self.type_id, payload: self.payload@ }
    }
}

/// The handles of the first `n` slots.
spec fn handles_below(n: nat) -> Set<EntityHandle> {
    Set::new(|h: EntityHandle| h.slot < n)
}

proof fn lemma_handles_below(n: nat)
    ensures
        handles_below(n).finite(),
        handles_below(n).len() <= n,
    decreases n,
{
    if n == 0 {
        assert(handles_below(0) =~= Set::<EntityHandle>::empty());
    } else {
        lemma_handles_below((n - 1) as nat);
        if n - 1 <= usize::MAX {
            let top = EntityHandle { slot: (n - 1) as usize };
            assert(handles_below(n) =~= handles_below((n - 1) as nat).insert(top));
        } else {
            assert(handles_below(n) =~= handles_below((n - 1) as nat));
        }
    }
}

/// The entities of kind `type_id` in `m`.
spec fn of_kind(m: StoreView, type_id: TypeId) -> Set<EntityHandle> {
    m.dom().filter(|h: EntityHandle| m[h].type_id == type_id)
}

/// Two stores with the same entities of a kind have the same number of
/// them.
proof fn lemma_same_kind_same_count(m1: StoreView, m2: StoreView, type_id: TypeId)
    requires
        forall|h: EntityHandle|
            (m1.dom().contains(h) && m1[h].type_id == type_id) <==> (m2.dom().contains(h)
                && m2[h].type_id == type_id),
    ensures
        count_of(m1, type_id) == count_of(m2, type_id),
{
    assert(of_kind(m1, type_id) =~= of_kind(m2, type_id));
}

impl View for EntityStore {
    type V = StoreView;

    /// The live entities: those of the slots that are in use.
    closed spec fn view(&self) -> StoreView {
        Map::new(
            |h: EntityHandle| h.slot < self.slots@.len() && self.slots@[h.slot as int] is Some,
            |h: EntityHandle| self.slots@[h.slot as int]->Some_0.view(),
        )
    }
}

impl EntityStore {
    /// The invariant of a store: its entities are such as `store_ok` admits,
    /// and its tables of names tell the truth about them.
    pub open spec fn wf(&self) -> bool {
        store_ok(self@) && self.index_ok()
    }

    /// Whether the slot `i` holds an entity.
    spec fn live(&self, i: int) -> bool {
        0 <= i < self.slots@.len() && self.slots@[i] is Some
    }

    /// Whether what the table `k` holds for the name `n` is the slot of an
    /// entity of that name and of the table's kind.
    spec fn entry_ok(&self, k: int, n: Seq<char>) -> bool {
        let ns = self.namespaces@[k];
        let i = ns.slot_of@[n] as int;
        self.live(i) && self.slots@[i]->Some_0.name@ == n && self.slots@[i]->Some_0.type_id
            == ns.type_id
    }

    /// Whether the table `k` is that of the kind of the entity in the slot
    /// `i`, and holds the slot under the entity's name.
    spec fn listed(&self, k: int, i: int) -> bool {
        let ns = self.namespaces@[k];
        let e = self.slots@[i]->Some_0;
        0 <= k < self.namespaces@.len() && ns.type_id == e.type_id && ns.slot_of@.contains_key(
            e.name@,
        ) && ns.slot_of@[e.name@] == i
    }

    /// No slot is vacant twice, and a vacant slot holds nothing.
    spec fn vacant_ok(&self) -> bool {
        &&& forall|j: int|
            0 <= j < self.vacant@.len() ==> (#[trigger] self.vacant@[j]) < self.slots@.len()
                && self.slots@[self.vacant@[j] as int] is None
        &&& forall|a: int, b: int|
            0 <= a < b < self.vacant@.len() ==> (#[trigger] self.vacant@[a]) != (
            #[trigger] self.vacant@[b])
    }

    /// No two tables are of the same kind.
    spec fn kinds_distinct(&self) -> bool {
        forall|a: int, b: int|
            0 <= a < b < self.namespaces@.len() ==> (#[trigger] self.namespaces@[a]).type_id != (
            #[trigger] self.namespaces@[b]).type_id
    }

    /// Every entry of a table is the slot of its entity.
    spec fn entries_ok(&self) -> bool {
        forall|k: int, n: Seq<char>|
            0 <= k < self.namespaces@.len() && #[trigger] self.namespaces@[k].slot_of@.contains_key(
                n,
            ) ==> self.entry_ok(k, n)
    }

    /// Every entity is in the table of its kind.
    spec fn all_listed(&self) -> bool {
        forall|i: int| #[trigger] self.live(i) ==> exists|k: int| #[trigger] self.listed(k, i)
    }

    /// Every table knows the number of its entities.
    spec fn counts_ok(&self) -> bool {
        forall|k: int|
            0 <= k < self.namespaces@.len() ==> (#[trigger] self.namespaces@[k]).count == count_of(
                self@,
                self.namespaces@[k].type_id,
            )
    }

    /// What the tables of names and the list of vacant slots must satisfy.
    pub closed spec fn index_ok(&self) -> bool {
        &&& self.kinds_distinct()
        &&& self.entries_ok()
        &&& self.all_listed()
        &&& self.counts_ok()
        &&& self.vacant_ok()
    }

    /// What the slots themselves must satisfy for the store to be valid.
    spec fn slots_ok(&self) -> bool {
        &&& forall|i: int, j: int|
            #![trigger self.slots@[i], self.slots@[j]]
            0 <= i < self.slots@.len() && 0 <= j < self.slots@.len() && self.slots@[i] is Some
                && self.slots@[j] is Some && self.slots@[i]->Some_0.name@
                == self.slots@[j]->Some_0.name@ && self.slots@[i]->Some_0.type_id
                == self.slots@[j]->Some_0.type_id ==> i == j
        &&& forall|i: int|
            0 <= i < self.slots@.len() && (#[trigger] self.slots@[i]) is Some
                ==> self.slots@[i]->Some_0.payload@.len()
                == self.slots@[i]->Some_0.type_id.payload_size
    }

    proof fn lemma_slots_fit(&self)
        ensures
            self.slots@.len() <= usize::MAX,
    {
        assert(self.slots@.len() == self.slots.len());
    }

    proof fn lemma_ok_from_slots(&self)
        requires
            self.slots_ok(),
        ensures
            store_ok(self@),
    {
        let n = self.slots@.len();
        lemma_handles_below(n);
        vstd::set_lib::lemma_len_subset(self@.dom(), handles_below(n));
    }

    proof fn lemma_slots_from_ok(&self)
        requires
            store_ok(self@),
        ensures
            self.slots_ok(),
    {
        self.lemma_slots_fit();
        assert forall|i: int, j: int|
            0 <= i < self.slots@.len() && 0 <= j < self.slots@.len() && self.slots@[i] is Some
                && self.slots@[j] is Some && self.slots@[i]->Some_0.name@
                == self.slots@[j]->Some_0.name@ && self.slots@[i]->Some_0.type_id
                == self.slots@[j]->Some_0.type_id implies i == j by {
            let a = EntityHandle { slot: i as usize };
            let b = EntityHandle { slot: j as usize };
            assert(self@[a].name == self@[b].name);
        }
        assert forall|i: int| 0 <= i < self.slots@.len() && (#[trigger] self.slots@[i]) is Some implies self.slots@[i]->Some_0.payload@.len()
            == self.slots@[i]->Some_0.type_id.payload_size by {
            let a = EntityHandle { slot: i as usize };
            assert(self@[a].payload.len() == self@[a].type_id.payload_size);
        }
    }

    /// The entities of one kind are no more than the slots.
    proof fn lemma_count_fits(&self, type_id: TypeId)
        ensures
            of_kind(self@, type_id).finite(),
            count_of(self@, type_id) <= self.slots@.len(),
    {
        let n = self.slots@.len();
        lemma_handles_below(n);
        vstd::set_lib::lemma_len_subset(of_kind(self@, type_id), handles_below(n));
    }

    /// A kind without a table has no entities.
    proof fn lemma_untabled_kind_is_empty(&self, type_id: TypeId)
        requires
            self.all_listed(),
            forall|k: int|
                0 <= k < self.namespaces@.len() ==> (#[trigger] self.namespaces@[k]).type_id
                    != type_id,
        ensures
            forall|h: EntityHandle| self@.dom().contains(h) ==> self@[h].type_id != type_id,
            count_of(self@, type_id) == 0,
    {
        assert forall|h: EntityHandle| self@.dom().contains(h) implies self@[h].type_id
            != type_id by {
            assert(self.live(h.slot as int));
        }
        assert(of_kind(self@, type_id) =~= Set::<EntityHandle>::empty());
    }

    /// In a valid store the table of a kind holds a name exactly if an
    /// entity of that name and kind lives, and then it holds its slot.
    proof fn lemma_table_tells(&self, k: int, name: Seq<char>)
        requires
            self.wf(),
            0 <= k < self.namespaces@.len(),
        ensures
            ({
                let ns = self.namespaces@[k];
                if ns.slot_of@.contains_key(name) {
                    &&& self.live(ns.slot_of@[name] as int)
                    &&& handle_of(self@, name, ns.type_id) == Some(
                        EntityHandle { slot: ns.slot_of@[name] },
                    )
                } else {
                    handle_of(self@, name, ns.type_id) is None
                }
            }),
    {
        let ns = self.namespaces@[k];
        if ns.slot_of@.contains_key(name) {
            let here = EntityHandle { slot: ns.slot_of@[name] };
            law_handle_is_unique(self@, here, name, ns.type_id);
        } else {
            if exists|h: EntityHandle| answers_to(self@, h, name, ns.type_id) {
                let h = choose|h: EntityHandle| answers_to(self@, h, name, ns.type_id);
                assert(self.live(h.slot as int));
            }
        }
    }

    /// A store without entities.
    pub fn new() -> (store: Self)
        ensures
            store.wf(),
            store@ == StoreView::empty(),
    {
        let store = EntityStore { slots: Vec::new(), vacant: Vec::new(), namespaces: Vec::new() };
        proof {
            assert(store@ =~= StoreView::empty());
        }
        store
    }

    /// The table of the kind `type_id`, if there is one.
    fn find_namespace(&self, type_id: TypeId) -> (found: Option<usize>)
        ensures
            match found {
                Some(k) => k < self.namespaces@.len() && self.namespaces@[k as int].type_id
                    == type_id,
                None => forall|k: int|
                    0 <= k < self.namespaces@.len() ==> (#[trigger] self.namespaces@[k]).type_id
                        != type_id,
            },
    {
        let mut k: usize = 0;
        while k < self.namespaces.len()
            invariant
                k <= self.namespaces@.len(),
                forall|j: int| 0 <= j < k ==> (#[trigger] self.namespaces@[j]).type_id != type_id,
            decreases self.namespaces@.len() - k,
        {
            if self.namespaces[k].type_id == type_id {
                return Some(k);
            }
            k += 1;
        }
        None
    }

    /// The table and the slot of the entity `name` of kind `type_id`, if it
    /// lives.
    fn find_slot(&self, name: &str, type_id: TypeId) -> (found: Option<(usize, usize)>)
        requires
            self.wf(),
        ensures
            match found {
                Some((k, slot)) => {
                    &&& handle_of(self@, name@, type_id) == Some(EntityHandle { slot })
                    &&& self.live(slot as int)
                    &&& k < self.namespaces@.len()
                    &&& self.namespaces@[k as int].type_id == type_id
                    &&& self.namespaces@[k as int].slot_of@.contains_key(name@)
                    &&& self.namespaces@[k as int].slot_of@[name@] == slot
                },
                None => handle_of(self@, name@, type_id) is None,
            },
    {
        match self.find_namespace(type_id) {
            Some(k) => {
                proof {
                    self.lemma_table_tells(k as int, name@);
                }
                match self.namespaces[k].slot_of.get(name) {
                    Some(slot) => Some((k, *slot)),
                    None => None,
                }
            },
            None => {
                proof {
                    self.lemma_untabled_kind_is_empty(type_id);
                }
                None
            },
        }
    }

    /// The handle of the entity `name` of kind `type_id`, or nothing if no
    /// such entity lives. An entity of that name and another kind is not
    /// found, and that is no error.
    pub fn get(&self, name: &str, type_id: TypeId) -> (found: Option<EntityHandle>)
        requires
            self.wf(),
        ensures
            found == handle_of(self@, name@, type_id),
    {
        match self.find_slot(name, type_id) {
            Some((_, slot)) => Some(EntityHandle { slot }),
            None => None,
        }
    }

    /// The table of the kind `type_id`, which is made if there is none.
    fn namespace_for(&mut self, type_id: TypeId) -> (k: usize)
        requires
            old(self).wf(),
        ensures
            final(self).wf(),
            final(self)@ == old(self)@,
            final(self).slots == old(self).slots,
            final(self).vacant == old(self).vacant,
            k < final(self).namespaces@.len(),
            final(self).namespaces@[k as int].type_id == type_id,
    {
        match self.find_namespace(type_id) {
            Some(k) => k,
            None => {
                let k = self.namespaces.len();
                proof {
                    self.lemma_untabled_kind_is_empty(type_id);
                }
                self.namespaces.push(
                    Namespace { type_id, slot_of: StringHashMap::new(), count: 0 },
                );
                proof {
                    assert(self.all_listed()) by {
                        assert forall|i: int| #[trigger] self.live(i) implies exists|j: int| #[trigger]
                            self.listed(j, i) by {
                            assert(old(self).live(i));
                            let j = choose|j: int| #[trigger] old(self).listed(j, i);
                            assert(self.listed(j, i));
                        }
                    }
                }
                k
            },
        }
    }

    /// A slot that holds nothing and is not listed as vacant: one that was
    /// vacant, or a new one.
    fn take_slot(&mut self) -> (slot: usize)
        requires
            old(self).wf(),
        ensures
            final(self).wf(),
            final(self)@ == old(self)@,
            final(self).namespaces == old(self).namespaces,
            slot < final(self).slots@.len(),
            final(self).slots@[slot as int] is None,
            forall|j: int| 0 <= j < final(self).vacant@.len() ==> final(self).vacant@[j] != slot,
    {
        match self.vacant.pop() {
            Some(slot) => {
                proof {
                    self.lemma_frame(*old(self));
                }
                slot
            },
            None => {
                let slot = self.slots.len();
                self.slots.push(None);
                proof {
                    assert(self@ =~= old(self)@);
                    self.lemma_frame(*old(self));
                }
                slot
            },
        }
    }

    /// The tables of names stay true if the entities and the tables are
    /// what they were, whatever became of the slots that hold nothing.
    proof fn lemma_frame(&self, before: Self)
        requires
            before.wf(),
            self@ == before@,
            self.namespaces == before.namespaces,
            self.slots@.len() >= before.slots@.len(),
            forall|i: int| 0 <= i < before.slots@.len() ==> self.slots@[i] == before.slots@[i],
            self.vacant_ok(),
        ensures
            self.wf(),
    {
        assert(self.all_listed()) by {
            assert forall|i: int| #[trigger] self.live(i) implies exists|k: int| #[trigger]
                self.listed(k, i) by {
                self.lemma_slots_fit();
                let h = EntityHandle { slot: i as usize };
                assert(before@.dom().contains(h));
                assert(before.live(i));
                let k = choose|k: int| #[trigger] before.listed(k, i);
                assert(self.listed(k, i));
            }
        }
    }

    /// Creates the entity `name` of kind `type_id`, with a payload of the
    /// kind's size in which every byte is zero, and returns its handle.
    ///
    /// Fails with [`Error::DuplicateName`], and changes nothing, if the name
    /// lives in that kind's namespace. The handle names no entity that lived
    /// before the call. The store runs no constructor: an `Ok` is the order
    /// to run the kind's, once, for the handle.
    ///
    /// The payload must be of a size that the machine can allocate at all,
    /// which `MAX_PAYLOAD_SIZE` bounds.
    pub fn create(&mut self, name: &str, type_id: TypeId) -> (result: Result<EntityHandle, Error>)
        requires
            old(self).wf(),
            type_id.payload_size <= MAX_PAYLOAD_SIZE,
        ensures
            final(self).wf(),
            result is Ok ==> !old(self)@.dom().contains(granted(result)),
            (final(self)@, result) == create_model(old(self)@, name@, type_id, granted(result)),
    {
        if self.find_slot(name, type_id).is_some() {
            return Err(Error::DuplicateName);
        }
        let k = self.namespace_for(type_id);
        let slot = self.take_slot();
        let handle = EntityHandle { slot };
        let ghost mid = *self;
        let entity = Entity {
            name: name.to_owned(),
            type_id,
            payload: vec![0u8; type_id.payload_size],
        };
        assert(entity.view() == fresh_entity(name@, type_id)) by {
            assert(entity.payload@ =~= zeroed(type_id.payload_size as nat));
        }
        self.slots.set(slot, Some(entity));
        proof {
            self.lemma_slots_fit();
            assert(self@ =~= mid@.insert(handle, fresh_entity(name@, type_id)));
            law_create_then_get(mid@, name@, type_id, handle, handle);
            self.lemma_count_fits(type_id);
        }
        self.namespaces[k].slot_of.insert(name.to_owned(), slot);
        self.namespaces[k].count = self.namespaces[k].count + 1;
        proof {
            assert(self.all_listed()) by {
                assert forall|i: int| #[trigger] self.live(i) implies exists|j: int| #[trigger]
                    self.listed(j, i) by {
                    if i == slot {
                        assert(self.listed(k as int, i));
                    } else {
                        assert(mid.live(i));
                        let j = choose|j: int| #[trigger] mid.listed(j, i);
                        if j == k {
                            let e = mid.slots@[i]->Some_0;
                            if e.name@ == name@ {
                                let there = EntityHandle { slot: i as usize };
                                assert(answers_to(mid@, there, name@, type_id));
                            }
                        }
                        assert(self.listed(j, i));
                    }
                }
            }
            assert(self.counts_ok()) by {
                assert forall|j: int| 0 <= j < self.namespaces@.len() implies (
                #[trigger] self.namespaces@[j]).count == count_of(
                    self@,
                    self.namespaces@[j].type_id,
                ) by {
                    if j != k {
                        let other = self.namespaces@[j].type_id;
                        lemma_same_kind_same_count(mid@, self@, other);
                    }
                }
            }
        }
        Ok(handle)
    }

    /// Takes the entity `name` out of the slot `slot` and out of the table
    /// `k`.
    fn vacate(&mut self, k: usize, slot: usize, name: &str)
        requires
            old(self).wf(),
            old(self).live(slot as int),
            k < old(self).namespaces@.len(),
            old(self).namespaces@[k as int].slot_of@.contains_key(name@),
            old(self).namespaces@[k as int].slot_of@[name@] == slot,
        ensures
            final(self).wf(),
            final(self)@ == old(self)@.remove(EntityHandle { slot }),
            handle_of(old(self)@, name@, old(self).namespaces@[k as int].type_id) == Some(
                EntityHandle { slot },
            ),
    {
        let handle = EntityHandle { slot };
        let ghost before = *self;
        let ghost type_id = self.namespaces@[k as int].type_id;
        proof {
            self.lemma_table_tells(k as int, name@);
            law_delete_then_get(self@, name@, type_id);
        }
        self.slots.set(slot, None);
        self.vacant.push(slot);
        self.namespaces[k].slot_of.remove(name);
        self.namespaces[k].count = self.namespaces[k].count - 1;
        proof {
            assert(self@ =~= before@.remove(handle));
            assert(self.all_listed()) by {
                assert forall|i: int| #[trigger] self.live(i) implies exists|j: int| #[trigger]
                    self.listed(j, i) by {
                    assert(before.live(i));
                    let j = choose|j: int| #[trigger] before.listed(j, i);
                    assert(self.listed(j, i));
                }
            }
            assert(self.counts_ok()) by {
                assert forall|j: int| 0 <= j < self.namespaces@.len() implies (
                #[trigger] self.namespaces@[j]).count == count_of(
                    self@,
                    self.namespaces@[j].type_id,
                ) by {
                    if j != k {
                        let other = self.namespaces@[j].type_id;
                        lemma_same_kind_same_count(before@, self@, other);
                    }
                }
            }
        }
    }

    /// Deletes the entity `name` of kind `type_id`, releases its payload and
    /// returns the handle that named it.
    ///
    /// Fails with [`Error::NotFound`], and changes nothing, if no such
    /// entity lives. The store runs no destructor: an `Ok` is the order to
    /// run the kind's, once, for the handle.
    pub fn delete(&mut self, name: &str, type_id: TypeId) -> (result: Result<EntityHandle, Error>)
        requires
            old(self).wf(),
        ensures
            final(self).wf(),
            (final(self)@, result) == delete_model(old(self)@, name@, type_id),
    {
        match self.find_slot(name, type_id) {
            Some((k, slot)) => {
                self.vacate(k, slot, name);
                Ok(EntityHandle { slot })
            },
            None => Err(Error::NotFound),
        }
    }

    /// Makes sure that no entity `name` of kind `type_id` lives: deletes it
    /// if it does, and returns the handle that named it; is silent if it
    /// does not.
    pub fn discard(&mut self, name: &str, type_id: TypeId) -> (gone: Option<EntityHandle>)
        requires
            old(self).wf(),
        ensures
            final(self).wf(),
            final(self)@ == delete_model(old(self)@, name@, type_id).0,
            gone == handle_of(old(self)@, name@, type_id),
    {
        match self.find_slot(name, type_id) {
            Some((k, slot)) => {
                self.vacate(k, slot, name);
                Some(EntityHandle { slot })
            },
            None => None,
        }
    }

    /// Deletes every entity, and returns the handle and the kind of each,
    /// once.
    pub fn clear(&mut self) -> (gone: Vec<(EntityHandle, TypeId)>)
        ensures
            final(self).wf(),
            final(self)@ == StoreView::empty(),
            lists_all(old(self)@, gone@),
    {
        let mut gone: Vec<(EntityHandle, TypeId)> = Vec::new();
        let mut i: usize = 0;
        while i < self.slots.len()
            invariant
                *self == *old(self),
                i <= self.slots@.len(),
                forall|j: int|
                    0 <= j < gone@.len() ==> (#[trigger] gone@[j]).0.slot < i && self.live(
                        gone@[j].0.slot as int,
                    ) && self.slots@[gone@[j].0.slot as int]->Some_0.type_id == gone@[j].1,
                forall|s: int|
                    0 <= s < i && self.live(s) ==> exists|j: int|
                        0 <= j < gone@.len() && (#[trigger] gone@[j]).0.slot == s,
                forall|a: int, b: int|
                    0 <= a < b < gone@.len() ==> (#[trigger] gone@[a]).0.slot < (
                    #[trigger] gone@[b]).0.slot,
            decreases self.slots@.len() - i,
        {
            let ghost earlier = gone@;
            match &self.slots[i] {
                Some(entity) => {
                    gone.push((EntityHandle { slot: i }, entity.type_id));
                    proof {
                        let last = earlier.len() as int;
                        assert(gone@[last].0.slot == i);
                        assert forall|s: int| 0 <= s < i + 1 && self.live(s) implies exists|j: int|
                            0 <= j < gone@.len() && (#[trigger] gone@[j]).0.slot == s by {
                            if s < i {
                                let j = choose|j: int|
                                    0 <= j < earlier.len() && (#[trigger] earlier[j]).0.slot == s;
                                assert(gone@[j] == earlier[j]);
                            }
                        }
                    }
                },
                None => {},
            }
            i += 1;
        }
        proof {
            assert forall|h: EntityHandle| old(self)@.dom().contains(h) implies exists|j: int|
                0 <= j < gone@.len() && (#[trigger] gone@[j]).0 == h by {
                assert(self.live(h.slot as int));
            }
        }
        self.slots.clear();
        self.vacant.clear();
        self.namespaces.clear();
        proof {
            assert(self@ =~= StoreView::empty());
        }
        gone
    }

    /// The number of live entities of kind `type_id`.
    pub fn count(&self, type_id: TypeId) -> (n: usize)
        requires
            self.wf(),
        ensures
            n == count_of(self@, type_id),
    {
        match self.find_namespace(type_id) {
            Some(k) => self.namespaces[k].count,
            None => {
                proof {
                    self.lemma_untabled_kind_is_empty(type_id);
                }
                0
            },
        }
    }

    /// The payload of the entity behind `handle`, or nothing if the handle
    /// names no live entity.
    pub fn payload(&self, handle: EntityHandle) -> (found: Option<&Vec<u8>>)
        ensures
            match found {
                Some(bytes) => self@.dom().contains(handle) && bytes@ == self@[handle].payload,
                None => !self@.dom().contains(handle),
            },
    {
        if handle.slot < self.slots.len() {
            match &self.slots[handle.slot] {
                Some(entity) => Some(&entity.payload),
                None => None,
            }
        } else {
            None
        }
    }

    /// The name of the entity behind `handle`, or nothing if the handle
    /// names no live entity.
    pub fn name(&self, handle: EntityHandle) -> (found: Option<&String>)
        ensures
            match found {
                Some(name) => self@.dom().contains(handle) && name@ == self@[handle].name,
                None => !self@.dom().contains(handle),
            },
    {
        if handle.slot < self.slots.len() {
            match &self.slots[handle.slot] {
                Some(entity) => Some(&entity.name),
                None => None,
            }
        } else {
            None
        }
    }

    /// The kind of the entity behind `handle`, or nothing if the handle
    /// names no live entity.
    pub fn type_id(&self, handle: EntityHandle) -> (found: Option<TypeId>)
        ensures
            found == (if self@.dom().contains(handle) {
                Some(self@[handle].type_id)
            } else {
                None
            }),
    {
        if handle.slot < self.slots.len() {
            match &self.slots[handle.slot] {
                Some(entity) => Some(entity.type_id),
                None => None,
            }
        } else {
            None
        }
    }

    /// Replaces the payload of the entity behind `handle`.
    ///
    /// Fails with [`Error::NotFound`] if the handle names no live entity,
    /// and with [`Error::TypeMismatch`] if `payload` has not the size that
    /// the entity's kind declares. A failed call changes nothing.
    pub fn write_payload(&mut self, handle: EntityHandle, payload: Vec<u8>) -> (result: Result<
        (),
        Error,
    >)
        requires
            old(self).wf(),
        ensures
            final(self).wf(),
            (final(self)@, result) == write_model(old(self)@, handle, payload@),
    {
        if handle.slot >= self.slots.len() {
            return Err(Error::NotFound);
        }
        let replacement = match &self.slots[handle.slot] {
            Some(entity) => {
                if payload.len() != entity.type_id.payload_size {
                    return Err(Error::TypeMismatch);
                }
                Entity { name: entity.name.clone(), type_id: entity.type_id, payload }
            },
            None => {
                return Err(Error::NotFound);
            },
        };
        proof {
            self.lemma_slots_from_ok();
        }
        self.slots.set(handle.slot, Some(replacement));
        proof {
            let before = *old(self);
            self.lemma_ok_from_slots();
            assert(self.all_listed()) by {
                assert forall|i: int| #[trigger] self.live(i) implies exists|j: int| #[trigger]
                    self.listed(j, i) by {
                    assert(before.live(i));
                    let j = choose|j: int| #[trigger] before.listed(j, i);
                    assert(self.listed(j, i));
                }
            }
            assert(self.counts_ok()) by {
                assert forall|j: int| 0 <= j < self.namespaces@.len() implies (
                #[trigger] self.namespaces@[j]).count == count_of(
                    self@,
                    self.namespaces@[j].type_id,
                ) by {
                    lemma_same_kind_same_count(before@, self@, self.namespaces@[j].type_id);
                }
            }
        }
        Ok(())
    }
}

/// In a valid store an entity is found by the one handle that answers to its
/// name and kind.
pub proof fn law_handle_is_unique(m: StoreView, h: EntityHandle, name: Seq<char>, type_id: TypeId)
    requires
        store_ok(m),
        answers_to(m, h, name, type_id),
    ensures
        handle_of(m, name, type_id) == Some(h),
{
}

/// Creation followed by lookup: the entity is found under its name and
/// kind, by the handle that creation returned; that handle names a zeroed
/// payload of the kind's size; the kind has one entity more; and creating
/// the same name in the same kind again, whatever handle is on offer, fails
/// with `DuplicateName`.
pub proof fn law_create_then_get(
    m: StoreView,
    name: Seq<char>,
    type_id: TypeId,
    free: EntityHandle,
    again: EntityHandle,
)
    requires
        store_ok(m),
        !m.dom().contains(free),
        create_model(m, name, type_id, free).1 is Ok,
    ensures
        ({
            let after = create_model(m, name, type_id, free).0;
            &&& store_ok(after)
            &&& handle_of(after, name, type_id) == Some(free)
            &&& after[free].payload == zeroed(type_id.payload_size as nat)
            &&& count_of(after, type_id) == count_of(m, type_id) + 1
            &&& create_model(after, name, type_id, again) == (
                after,
                Err::<EntityHandle, Error>(Error::DuplicateName),
            )
        }),
{
    let after = create_model(m, name, type_id, free).0;
    assert(store_ok(after)) by {
        assert forall|a: EntityHandle, b: EntityHandle|
            #![trigger after[a], after[b]]
            after.dom().contains(a) && after.dom().contains(b) && after[a].name == after[b].name
                && after[a].type_id == after[b].type_id implies a == b by {
            if a != b {
                if a == free {
                    assert(answers_to(m, b, name, type_id));
                } else if b == free {
                    assert(answers_to(m, a, name, type_id));
                }
            }
        }
    }
    law_handle_is_unique(after, free, name, type_id);
    let of_kind = |h: EntityHandle| m[h].type_id == type_id;
    let of_kind_after = |h: EntityHandle| after[h].type_id == type_id;
    assert(after.dom().filter(of_kind_after) =~= m.dom().filter(of_kind).insert(free));
}

/// Creation leaves every other entity where it was: a lookup under another
/// name, or under another kind, answers as before.
pub proof fn law_create_keeps_others(
    m: StoreView,
    name: Seq<char>,
    type_id: TypeId,
    free: EntityHandle,
    other_name: Seq<char>,
    other_type: TypeId,
)
    requires
        store_ok(m),
        !m.dom().contains(free),
        other_name != name || other_type != type_id,
    ensures
        handle_of(create_model(m, name, type_id, free).0, other_name, other_type) == handle_of(
            m,
            other_name,
            other_type,
        ),
{
    let after = create_model(m, name, type_id, free).0;
    if handle_of(m, name, type_id) is None {
        law_create_then_get(m, name, type_id, free, free);
        if exists|h: EntityHandle| answers_to(m, h, other_name, other_type) {
            let h = choose|h: EntityHandle| answers_to(m, h, other_name, other_type);
            law_handle_is_unique(after, h, other_name, other_type);
        } else {
            if exists|h: EntityHandle| answers_to(after, h, other_name, other_type) {
                let h = choose|h: EntityHandle| answers_to(after, h, other_name, other_type);
                assert(answers_to(m, h, other_name, other_type));
            }
        }
    }
}

/// Deletion followed by lookup: the entity is found no more, the store is
/// still valid, its kind has one entity less if it lived, and deleting it
/// again fails with `NotFound`.
pub proof fn law_delete_then_get(m: StoreView, name: Seq<char>, type_id: TypeId)
    requires
        store_ok(m),
    ensures
        ({
            let after = delete_model(m, name, type_id).0;
            &&& store_ok(after)
            &&& handle_of(after, name, type_id) is None
            &&& delete_model(m, name, type_id).1 is Ok ==> count_of(after, type_id) + 1
                == count_of(m, type_id)
            &&& delete_model(after, name, type_id) == (
                after,
                Err::<EntityHandle, Error>(Error::NotFound),
            )
        }),
{
    let after = delete_model(m, name, type_id).0;
    if exists|h: EntityHandle| answers_to(m, h, name, type_id) {
        let gone = choose|h: EntityHandle| answers_to(m, h, name, type_id);
        let of_kind = |h: EntityHandle| m[h].type_id == type_id;
        let of_kind_after = |h: EntityHandle| after[h].type_id == type_id;
        assert(after.dom().filter(of_kind_after) =~= m.dom().filter(of_kind).remove(gone));
    }
}

} // verus!
