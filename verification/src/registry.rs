//! Stable identifiers for entity kinds.
//!
//! A kind is a name together with the size of its payload. The registry hands
//! out one identifier per name, in the order of first registration, and never
//! forgets one.
use crate::error::Error;
use vstd::prelude::*;

verus! {

/// The identifier of a registered kind.
///
/// It is stable for as long as the registry that issued it lives, and means
/// nothing to any other registry: it must not be persisted.
#[derive(Clone, Copy, Debug, PartialEq, Eq, Structural, Hash)]
pub struct TypeId {
    /// The rank of the kind among the kinds of its registry.
    pub index: usize,
    /// The size in bytes of the payload of an entity of this kind.
    pub payload_size: usize,
}

/// What a registry knows of a kind: its name and its payload size.
pub type KindView = (Seq<char>, usize);

/// A kind as the registry stores it.
struct Kind {
    name: String,
    payload_size: usize,
}

/// The table of registered kinds.
pub struct TypeRegistry {
    kinds: Vec<Kind>,
}

/// Whether `name` is the name of one of `kinds`.
pub open spec fn is_known(kinds: Seq<KindView>, name: Seq<char>) -> bool {
    exists|i: int| 0 <= i < kinds.len() && (#[trigger] kinds[i]).0 == name
}

/// The rank of the kind called `name`, where `is_known(kinds, name)`.
pub open spec fn rank_of(kinds: Seq<KindView>, name: Seq<char>) -> int {
    choose|i: int| 0 <= i < kinds.len() && (#[trigger] kinds[i]).0 == name
}

/// No two kinds share a name.
pub open spec fn names_distinct(kinds: Seq<KindView>) -> bool {
    forall|i: int, j: int|
        0 <= i < j < kinds.len() ==> (#[trigger] kinds[i]).0 != (#[trigger] kinds[j]).0
}

/// The tables that a registry can hold: every name occurs once, and every
/// rank fits the machine's word.
pub open spec fn table_ok(kinds: Seq<KindView>) -> bool {
    names_distinct(kinds) && kinds.len() <= usize::MAX
}

/// The identifier that `kinds` gives to `name`, if it knows the name.
pub open spec fn find_model(kinds: Seq<KindView>, name: Seq<char>) -> Option<TypeId> {
    if is_known(kinds, name) {
        let i = rank_of(kinds, name);
        Some(TypeId { index: i as usize, payload_size: kinds[i].1 })
    } else {
        None
    }
}

/// What registering `name` with `payload_size` answers, and the table that
/// it leaves.
///
/// A new name is appended and gets the next rank. A known name with the same
/// size gets the identifier it already has. A known name with another size is
/// refused. The table changes in the first case only.
pub open spec fn register_model(kinds: Seq<KindView>, name: Seq<char>, payload_size: usize) -> (
    Seq<KindView>,
    Result<TypeId, Error>,
) {
    match find_model(kinds, name) {
        Some(id) => if id.payload_size == payload_size {
            (kinds, Ok(id))
        } else {
            (kinds, Err(Error::TypeMismatch))
        },
        None => (
            kinds.push((name, payload_size)),
            Ok(TypeId { index: kinds.len() as usize, payload_size }),
        ),
    }
}

impl View for TypeRegistry {
    type V = Seq<KindView>;

    /// The kinds in the order of their registration.
    closed spec fn view(&self) -> Seq<KindView> {
        Seq::new(self.kinds@.len(), |i: int| (self.kinds@[i].name@, self.kinds@[i].payload_size))
    }
}

impl TypeRegistry {
    /// The invariant of a registry: its table is one that `table_ok` admits.
    pub open spec fn wf(&self) -> bool {
        table_ok(self@)
    }

    /// A registry that knows no kind.
    pub fn new() -> (registry: Self)
        ensures
            registry.wf(),
            registry@ == Seq::<KindView>::empty(),
    {
        TypeRegistry { kinds: Vec::new() }
    }

    /// The number of registered kinds.
    pub fn len(&self) -> (n: usize)
        ensures
            n == self@.len(),
    {
        self.kinds.len()
    }

    /// The identifier of the kind called `kind_name`, if there is one. The
    /// registry is left as it is.
    pub fn find(&self, kind_name: &str) -> (found: Option<TypeId>)
        requires
            self.wf(),
        ensures
            found == find_model(self@, kind_name@),
    {
        let wanted = kind_name.to_owned();
        let mut i: usize = 0;
        while i < self.kinds.len()
            invariant
                self.wf(),
                i <= self.kinds@.len(),
                wanted@ == kind_name@,
                forall|j: int| 0 <= j < i ==> (#[trigger] self@[j]).0 != kind_name@,
            decreases self.kinds@.len() - i,
        {
            if self.kinds[i].name == wanted {
                proof {
                    assert(self@[i as int].0 == kind_name@);
                }
                return Some(TypeId { index: i, payload_size: self.kinds[i].payload_size });
            }
            i += 1;
        }
        None
    }

    /// Registers the kind `kind_name` with payloads of `payload_size` bytes,
    /// or finds it again.
    ///
    /// The first call for a name issues a new identifier. Later calls with
    /// the same size return that identifier. A call with another size fails
    /// with [`Error::TypeMismatch`] and changes nothing.
    pub fn register_or_get(&mut self, kind_name: &str, payload_size: usize) -> (result: Result<
        TypeId,
        Error,
    >)
        requires
            old(self).wf(),
        ensures
            final(self).wf(),
            (final(self)@, result) == register_model(old(self)@, kind_name@, payload_size),
    {
        match self.find(kind_name) {
            Some(id) => {
                if id.payload_size == payload_size {
                    Ok(id)
                } else {
                    Err(Error::TypeMismatch)
                }
            },
            None => {
                let index = self.kinds.len();
                self.kinds.push(Kind { name: kind_name.to_owned(), payload_size });
                proof {
                    assert(self.kinds@.len() == self.kinds.len());
                    assert forall|i: int, j: int| 0 <= i < j < self@.len() implies (
                    #[trigger] self@[i]).0 != (#[trigger] self@[j]).0 by {
                        if j == index {
                            assert(old(self)@[i].0 != kind_name@);
                        } else {
                            assert(old(self)@[i].0 != old(self)@[j].0);
                        }
                    }
                }
                Ok(TypeId { index, payload_size })
            },
        }
    }

    /// The name of the kind that `id` identifies, or nothing if this
    /// registry has not issued `id`.
    pub fn name_of(&self, id: TypeId) -> (found: Option<&String>)
        ensures
            match found {
                Some(name) => id.index < self@.len() && self@[id.index as int] == (
                    name@,
                    id.payload_size,
                ),
                None => !(id.index < self@.len() && self@[id.index as int].1 == id.payload_size),
            },
    {
        if self.contains(id) {
            Some(&self.kinds[id.index].name)
        } else {
            None
        }
    }

    /// Whether this registry has issued `id`.
    pub fn contains(&self, id: TypeId) -> (issued: bool)
        ensures
            issued == (id.index < self@.len() && self@[id.index as int].1 == id.payload_size),
    {
        id.index < self.kinds.len() && self.kinds[id.index].payload_size == id.payload_size
    }
}

/// Registering keeps a table valid, as long as the ranks still fit.
pub proof fn law_register_keeps_table_ok(kinds: Seq<KindView>, name: Seq<char>, payload_size: usize)
    requires
        table_ok(kinds),
        kinds.len() < usize::MAX,
    ensures
        table_ok(register_model(kinds, name, payload_size).0),
{
}

/// In a valid table the identifier of a known name is the one whose rank
/// holds that name.
pub proof fn law_find_is_the_rank(kinds: Seq<KindView>, name: Seq<char>, i: int)
    requires
        table_ok(kinds),
        0 <= i < kinds.len(),
        kinds[i].0 == name,
    ensures
        find_model(kinds, name) == Some(TypeId { index: i as usize, payload_size: kinds[i].1 }),
{
}

/// An identifier lives as long as the registry: whatever is registered
/// later, and whether or not that succeeds, a name that was known keeps the
/// identifier it had.
pub proof fn law_ids_are_kept(
    kinds: Seq<KindView>,
    known: Seq<char>,
    name: Seq<char>,
    payload_size: usize,
)
    requires
        table_ok(kinds),
        kinds.len() < usize::MAX,
        is_known(kinds, known),
    ensures
        find_model(register_model(kinds, name, payload_size).0, known) == find_model(kinds, known),
{
    let after = register_model(kinds, name, payload_size).0;
    let i = rank_of(kinds, known);
    law_find_is_the_rank(after, known, i);
}

/// Registering is idempotent: a second call with the same name and size
/// returns the identifier of the first, and changes nothing.
pub proof fn law_register_twice_same_id(kinds: Seq<KindView>, name: Seq<char>, payload_size: usize)
    requires
        table_ok(kinds),
        kinds.len() < usize::MAX,
        register_model(kinds, name, payload_size).1 is Ok,
    ensures
        ({
            let first = register_model(kinds, name, payload_size);
            register_model(first.0, name, payload_size) == first
        }),
{
    let first = register_model(kinds, name, payload_size);
    if is_known(kinds, name) {
    } else {
        let i = kinds.len() as int;
        law_find_is_the_rank(first.0, name, i);
    }
}

/// Two kinds with different names never share an identifier: whatever their
/// sizes, if both registrations succeed, the identifiers differ, and the
/// second registration leaves the first identifier in force.
pub proof fn law_distinct_names_distinct_ids(
    kinds: Seq<KindView>,
    a: Seq<char>,
    size_a: usize,
    b: Seq<char>,
    size_b: usize,
)
    requires
        table_ok(kinds),
        kinds.len() + 1 < usize::MAX,
        a != b,
        register_model(kinds, a, size_a).1 is Ok,
        register_model(register_model(kinds, a, size_a).0, b, size_b).1 is Ok,
    ensures
        ({
            let first = register_model(kinds, a, size_a);
            let second = register_model(first.0, b, size_b);
            &&& first.1->Ok_0 != second.1->Ok_0
            &&& first.1->Ok_0.index != second.1->Ok_0.index
            &&& find_model(second.0, a) == Some(first.1->Ok_0)
        }),
{
    let first = register_model(kinds, a, size_a);
    let second = register_model(first.0, b, size_b);
    let ia = first.1->Ok_0.index as int;
    law_find_is_the_rank(second.0, a, ia);
}

/// On an empty table every registration succeeds, so any two names get
/// identifiers, and by the law above different ones.
pub proof fn law_fresh_registry_accepts(a: Seq<char>, size_a: usize, b: Seq<char>, size_b: usize)
    requires
        a != b,
    ensures
        ({
            let first = register_model(Seq::<KindView>::empty(), a, size_a);
            let second = register_model(first.0, b, size_b);
            &&& first.1 == Ok::<TypeId, Error>(TypeId { index: 0, payload_size: size_a })
            &&& second.1 == Ok::<TypeId, Error>(TypeId { index: 1, payload_size: size_b })
        }),
{
}

} // verus!
