//! The contract of a repository, over a map from identifier to entity view.

use vstd::prelude::*;
use super::error::Error;
use crate::entity::traits::Identifiable;

verus! {

/// An optional entity, by its view.
pub open spec fn viewed<T: View>(entity: Option<T>) -> Option<T::V> {
    match entity {
        Some(e) => Some(e@),
        None => None,
    }
}

/// A store is well keyed when it is finite and holds each entity under the
/// identifier that the entity reports.
pub open spec fn well_keyed<T: Identifiable>(store: Map<u128, T::V>) -> bool {
    &&& store.dom().finite()
    &&& forall|id: u128| #[trigger] store.contains_key(id) ==> T::id_of(store[id]) == id
}

/// What adding an entity under `id` returns.
pub open spec fn add_outcome<V>(store: Map<u128, V>, id: u128) -> Result<u128, Error> {
    if store.contains_key(id) {
        Err(Error::DuplicateKey)
    } else {
        Ok(id)
    }
}

/// The store after adding `entity` under `id`.
pub open spec fn added<V>(store: Map<u128, V>, id: u128, entity: V) -> Map<u128, V> {
    if store.contains_key(id) {
        store
    } else {
        store.insert(id, entity)
    }
}

/// What replacing the entity under `id` returns.
pub open spec fn update_outcome<V>(store: Map<u128, V>, id: u128) -> Result<(), Error> {
    if store.contains_key(id) {
        Ok(())
    } else {
        Err(Error::NotFound)
    }
}

/// The store after replacing the entity under `id` by `entity`.
pub open spec fn updated<V>(store: Map<u128, V>, id: u128, entity: V) -> Map<u128, V> {
    if store.contains_key(id) {
        store.insert(id, entity)
    } else {
        store
    }
}

/// What removing the entity under `id` returns.
pub open spec fn delete_outcome<V>(store: Map<u128, V>, id: u128) -> Result<(), Error> {
    if store.contains_key(id) {
        Ok(())
    } else {
        Err(Error::NotFound)
    }
}

/// The store after removing the entity under `id`.
pub open spec fn deleted<V>(store: Map<u128, V>, id: u128) -> Map<u128, V> {
    if store.contains_key(id) {
        store.remove(id)
    } else {
        store
    }
}

/// Keyed storage of the entities of one type.
///
/// The store is a map from identifier to entity view, with one entry for each
/// identifier. Entities are handed out as clones and replaced as a whole.
pub trait Repository<T: Identifiable>: Sized {
    /// What is stored.
    spec fn entries(&self) -> Map<u128, T::V>;

    /// Stores `item` under its identifier, unless the identifier is taken.
    fn add(&mut self, item: T) -> (r: Result<u128, Error>)
        ensures
            r == add_outcome(old(self).entries(), T::id_of(item@)),
            final(self).entries() == added(old(self).entries(), T::id_of(item@), item@),
            well_keyed::<T>(final(self).entries()),
    ;

    /// A clone of the entity stored under `id`, if there is one.
    fn get(&self, id: u128) -> (r: Result<Option<T>, Error>)
        ensures
            r matches Ok(found) && viewed(found) == self.entries().get(id),
            well_keyed::<T>(self.entries()),
    ;

    /// Replaces the entity stored under the identifier of `item`.
    fn update(&mut self, item: T) -> (r: Result<(), Error>)
        ensures
            r == update_outcome(old(self).entries(), T::id_of(item@)),
            final(self).entries() == updated(old(self).entries(), T::id_of(item@), item@),
            well_keyed::<T>(final(self).entries()),
    ;

    /// Removes the entity stored under `id`.
    fn delete(&mut self, id: u128) -> (r: Result<(), Error>)
        ensures
            r == delete_outcome(old(self).entries(), id),
            final(self).entries() == deleted(old(self).entries(), id),
            well_keyed::<T>(final(self).entries()),
    ;
}

} // verus!
