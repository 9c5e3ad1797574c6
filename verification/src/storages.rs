//! Stores of different types, found by the type of their values.

use std::any::TypeId;

use boomphf::Mphf;
use vstd::prelude::*;

use crate::live::LiveValue;
use crate::store::LiveStore;

verus! {

/// `std::any::TypeId`, carried as an opaque value.
#[verifier::external_type_specification]
#[verifier::external_body]
pub struct ExTypeId(TypeId);

/// `boomphf::Mphf`, carried as an opaque value.
#[verifier::external_type_specification]
#[verifier::external_body]
#[verifier::reject_recursive_types(T)]
pub struct ExMphf<T>(Mphf<T>);

/// What a perfect hash function makes of types: the position of each type that it has one
/// for. It gives every type it was made for a position of its own below their number; what
/// it makes of another type is left open.
pub uninterp spec fn type_positions(hasher: Mphf<TypeId>) -> Map<TypeId, u64>;

/// `Mphf::try_hash`: the position of a type. That distinct types get distinct positions is
/// not claimed, since it rests on what the function was made for.
#[verifier::external_body]
fn type_position(hasher: &Mphf<TypeId>, id: &TypeId) -> (position: Option<u64>)
    ensures
        position == type_positions(*hasher).get(*id),
{
    hasher.try_hash(id)
}

/// `TypeId::eq`: whether two identifiers are those of the same type. Each type has one identifier
/// and shares it with no other, so they are equal just when the types are the same.
#[verifier::external_body]
fn is_same_type(left: &TypeId, right: &TypeId) -> (same: bool)
    ensures
        same == (*left == *right),
{
    left == right
}

/// A store whose type of values is not known.
pub trait StoreType: Send + Sync + 'static {

}

impl<V: LiveValue> StoreType for LiveStore<V> {

}

/// What comes before the name of the type in the message for a type without a store.
pub const UNINIT_HEAD: &'static str = "
        --- LIVESTORE VALUE ERROR CODE: 391 ---
        Attempted to get, set, or subscribe to a value of type '";

/// What comes after the name of the type in the message for a type without a store.
pub const UNINIT_TAIL: &'static str = "' into a LiveStore, but it had not been initialized.
        Value types needs to be initialized in with [`LiveStoreBuilder::add_val_store::<V>`] before they can be used. 
    ";

/// The message of the panic for a type of values that has no store.
pub fn panic_uninit_value_type(name: &str) -> (message: String)
    ensures
        message@ == UNINIT_HEAD@ + name@ + UNINIT_TAIL@,
{
    UNINIT_HEAD.to_owned().concat(name).concat(UNINIT_TAIL)
}

/// Stores of different types.
pub struct Storages<S> {
    hasher: Mphf<TypeId>,
    /// The index in `stores` of the store at each position.
    table: Vec<Option<usize>>,
    ids: Vec<TypeId>,
    stores: Vec<S>,
}

/// Stores that are yet to be put together.
pub struct StoragesBuilder<S> {
    ids: Vec<TypeId>,
    stores: Vec<S>,
}

impl<S> View for StoragesBuilder<S> {
    type V = Seq<(TypeId, S)>;

    closed spec fn view(&self) -> Seq<(TypeId, S)> {
        Seq::new(self.stores@.len(), |i: int| (self.ids@[i], self.stores@[i]))
    }
}

/// Whether a perfect hash function fits a list of types: it gives each of them a position of
/// its own below their number.
pub open spec fn is_perfect_for<S>(hasher: Mphf<TypeId>, stores: Seq<(TypeId, S)>) -> bool {
    let positions = type_positions(hasher);
    &&& forall|i: int|
        0 <= i < stores.len() ==> {
            &&& positions.contains_key((#[trigger] stores[i]).0)
            &&& positions[stores[i].0] < stores.len()
        }
    &&& forall|i: int, j: int|
        0 <= i < j < stores.len() ==> positions[(#[trigger] stores[i]).0] != positions[(
        #[trigger] stores[j]).0]
}

/// Whether `stores` are by their types in `found`, and nothing else is.
pub open spec fn is_found_by_type<S>(found: Map<TypeId, S>, stores: Seq<(TypeId, S)>) -> bool {
    &&& forall|i: int|
        0 <= i < stores.len() ==> {
            &&& found.contains_key((#[trigger] stores[i]).0)
            &&& found[stores[i].0] == stores[i].1
        }
    &&& forall|id: TypeId| #[trigger]
        found.contains_key(id) ==> exists|i: int|
            0 <= i < stores.len() && (#[trigger] stores[i]).0 == id
}

impl<S> View for Storages<S> {
    type V = Map<TypeId, S>;

    closed spec fn view(&self) -> Map<TypeId, S> {
        let at = self.at();
        let positions = type_positions(self.hasher);
        Map::new(
            |id: TypeId|
                {
                    &&& positions.contains_key(id)
                    &&& at.contains_key(positions[id])
                    &&& at[positions[id]].0 == id
                },
            |id: TypeId| at[positions[id]].1,
        )
    }
}

impl<S> Storages<S> {
    /// Whether the table leads to stores only, and there is a type for each store.
    pub closed spec fn wf(self) -> bool {
        &&& self.ids@.len() == self.stores@.len()
        &&& forall|p: int|
            0 <= p < self.table@.len() ==> (#[trigger] self.table@[p] matches Some(i) ==> i
                < self.stores@.len())
    }

    /// The hash function that leads from types to positions.
    pub closed spec fn hasher(self) -> Mphf<TypeId> {
        self.hasher
    }

    /// The stores with their types by their positions.
    pub closed spec fn at(self) -> Map<u64, (TypeId, S)> {
        Map::new(
            |p: u64| p < self.table@.len() && self.table@[p as int] is Some,
            |p: u64|
                {
                    let i = self.table@[p as int]->0 as int;
                    (self.ids@[i], self.stores@[i])
                },
        )
    }

    /// Starts to put stores together.
    pub fn new() -> (builder: StoragesBuilder<S>)
        ensures
            builder.wf(),
            builder@ == Seq::<(TypeId, S)>::empty(),
    {
        let builder = StoragesBuilder { ids: Vec::new(), stores: Vec::new() };
        assert(builder@ =~= Seq::<(TypeId, S)>::empty());
        builder
    }

    /// The store at a position, if it is one for the given type of values.
    pub fn store_at(&self, id: &TypeId, position: Option<u64>) -> (store: Option<&S>)
        requires
            self.wf(),
        ensures
            match store {
                Some(store) => {
                    &&& position matches Some(p)
                    &&& self.at().contains_key(p)
                    &&& self.at()[p] == (*id, *store)
                },
                None => position matches Some(p) ==> !(self.at().contains_key(p) && self.at()[p].0
                    == *id),
            },
    {
        match position {
            Some(p) => if p < self.table.len() as u64 {
                match self.table[p as usize] {
                    Some(i) => if is_same_type(&self.ids[i], id) {
                        Some(&self.stores[i])
                    } else {
                        None
                    },
                    None => None,
                }
            } else {
                None
            },
            None => None,
        }
    }

    /// The store for a type of values.
    pub fn as_store(&self, id: &TypeId) -> (store: Option<&S>)
        requires
            self.wf(),
        ensures
            match store {
                Some(store) => self@.contains_key(*id) && *store == self@[*id],
                None => !self@.contains_key(*id),
            },
    {
        self.store_at(id, type_position(&self.hasher, id))
    }
}

impl<S> StoragesBuilder<S> {
    /// Whether there is a type for each store.
    pub closed spec fn wf(self) -> bool {
        self.ids@.len() == self.stores@.len()
    }

    /// Adds the store for a type of values.
    pub fn add_store(self, id: TypeId, store: S) -> (builder: Self)
        requires
            self.wf(),
        ensures
            builder.wf(),
            builder@ == self@.push((id, store)),
    {
        let mut builder = self;
        builder.ids.push(id);
        builder.stores.push(store);
        assert(builder@ =~= self@.push((id, store)));
        builder
    }

    /// The types of the stores, in the order in which they were added.
    pub fn ids(&self) -> (ids: &Vec<TypeId>)
        requires
            self.wf(),
        ensures
            ids@ == self@.map_values(|store: (TypeId, S)| store.0),
    {
        assert(self.ids@ =~= self@.map_values(|store: (TypeId, S)| store.0));
        &self.ids
    }

    /// Puts the stores together, each at the position that the hash function gives to its
    /// type. Gives nothing if the function does not fit the types.
    pub fn done(self, hasher: Mphf<TypeId>) -> (storages: Option<Storages<S>>)
        requires
            self.wf(),
        ensures
            storages is Some <==> is_perfect_for(hasher, self@),
            storages matches Some(storages) ==> {
                &&& storages.wf()
                &&& storages.hasher() == hasher
                &&& is_found_by_type(storages@, self@)
            },
    {
        let ghost positions = type_positions(hasher);
        let n = self.stores.len();
        let mut table: Vec<Option<usize>> = Vec::new();
        while table.len() < n
            invariant
                table@.len() <= n,
                forall|p: int| 0 <= p < table@.len() ==> #[trigger] table@[p] is None,
            decreases n - table@.len(),
        {
            table.push(None);
        }
        let mut i: usize = 0;
        while i < n
            invariant
                self.wf(),
                positions == type_positions(hasher),
                i <= n == self.stores@.len() == table@.len(),
                forall|j: int|
                    0 <= j < i ==> {
                        &&& positions.contains_key((#[trigger] self@[j]).0)
                        &&& positions[self@[j].0] < n
                        &&& table@[positions[self@[j].0] as int] == Some(j as usize)
                    },
                forall|p: int|
                    0 <= p < n ==> (#[trigger] table@[p] matches Some(j) ==> {
                        &&& j < i
                        &&& positions[self@[j as int].0] == p
                    }),
            decreases n - i,
        {
            assert(self@[i as int].0 == self.ids@[i as int]);
            match type_position(&hasher, &self.ids[i]) {
                Some(p) => {
                    if p >= n as u64 || table[p as usize].is_some() {
                        return None;
                    }
                    table[p as usize] = Some(i);
                },
                None => {
                    return None;
                },
            }
            i += 1;
        }
        let storages = Storages { hasher, table, ids: self.ids, stores: self.stores };
        assert forall|j: int| 0 <= j < self@.len() implies {
            &&& storages@.contains_key((#[trigger] self@[j]).0)
            &&& storages@[self@[j].0] == self@[j].1
        } by {
            assert(storages.at().contains_key(positions[self@[j].0]));
        }
        assert forall|id: TypeId| #[trigger] storages@.contains_key(id) implies exists|i: int|
            0 <= i < self@.len() && (#[trigger] self@[i]).0 == id by {
            let j = table@[positions[id] as int]->0;
            assert(self@[j as int].0 == id);
        }
        Some(storages)
    }
}

} // verus!
