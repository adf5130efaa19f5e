//! A repository held in memory.

pub mod error;

use vstd::prelude::*;
use std::collections::HashMap;
use super::error::Error;
use super::repository::{well_keyed, Repository};
use crate::entity::traits::Identifiable;

verus! {

/// A repository that keeps its entities in a hash map, each under the
/// identifier that it reports.
pub struct InMemoryRepository<T: Identifiable> {
    data: HashMap<u128, T>,
}

impl<T: Identifiable> InMemoryRepository<T> {
    #[verifier::type_invariant]
    spec fn keyed(self) -> bool {
        forall|id: u128| #[trigger] self.data@.contains_key(id) ==> T::id_of(self.data@[id]@) == id
    }

    /// An empty repository.
    pub fn new() -> (r: Self)
        ensures
            r.entries() == Map::<u128, T::V>::empty(),
    {
        let r = InMemoryRepository { data: HashMap::new() };
        assert(r.entries() =~= Map::<u128, T::V>::empty());
        r
    }

    /// Puts `item` under `id`, in place of what was there.
    fn put(&mut self, id: u128, item: T)
        requires
            T::id_of(item@) == id,
        ensures
            final(self).data@ == old(self).data@.insert(id, item),
    {
        proof {
            use_type_invariant(&*self);
        }
        // The map is changed outside the repository, which holds an empty one
        // meanwhile: the invariant stands at every point.
        let mut data: HashMap<u128, T> = HashMap::new();
        std::mem::swap(&mut self.data, &mut data);
        data.insert(id, item);
        std::mem::swap(&mut self.data, &mut data);
    }

    /// Takes out what is under `id`.
    fn take(&mut self, id: u128) -> (r: Option<T>)
        ensures
            final(self).data@ == old(self).data@.remove(id),
            r.is_some() == old(self).data@.contains_key(id),
    {
        proof {
            use_type_invariant(&*self);
        }
        let mut data: HashMap<u128, T> = HashMap::new();
        std::mem::swap(&mut self.data, &mut data);
        let taken = data.remove(&id);
        std::mem::swap(&mut self.data, &mut data);
        taken
    }

    proof fn entries_well_keyed(&self)
        requires
            self.keyed(),
        ensures
            well_keyed::<T>(self.entries()),
    {
        assert(self.entries().dom() =~= self.data@.dom());
    }
}

impl<T: Identifiable> Repository<T> for InMemoryRepository<T> {
    closed spec fn entries(&self) -> Map<u128, T::V> {
        Map::new(|id: u128| self.data@.contains_key(id), |id: u128| self.data@[id]@)
    }

    fn add(&mut self, item: T) -> (r: Result<u128, Error>) {
        let id = item.id();
        let r = if self.data.contains_key(&id) {
            Err(Error::DuplicateKey)
        } else {
            let ghost view = item@;
            self.put(id, item);
            assert(self.entries() =~= old(self).entries().insert(id, view));
            Ok(id)
        };
        proof {
            use_type_invariant(&*self);
            self.entries_well_keyed();
        }
        r
    }

    fn get(&self, id: u128) -> (r: Result<Option<T>, Error>) {
        proof {
            use_type_invariant(&*self);
            self.entries_well_keyed();
        }
        match self.data.get(&id) {
            Some(stored) => {
                let entity = stored.clone();
                proof {
                    T::clone_keeps_view(stored, &entity);
                }
                Ok(Some(entity))
            },
            None => Ok(None),
        }
    }

    fn update(&mut self, item: T) -> (r: Result<(), Error>) {
        let id = item.id();
        let r = if self.data.contains_key(&id) {
            let ghost view = item@;
            self.put(id, item);
            assert(self.entries() =~= old(self).entries().insert(id, view));
            Ok(())
        } else {
            Err(Error::NotFound)
        };
        proof {
            use_type_invariant(&*self);
            self.entries_well_keyed();
        }
        r
    }

    fn delete(&mut self, id: u128) -> (r: Result<(), Error>) {
        let r = if self.take(id).is_some() {
            assert(self.entries() =~= old(self).entries().remove(id));
            Ok(())
        } else {
            assert(self.entries() =~= old(self).entries());
            Err(Error::NotFound)
        };
        proof {
            use_type_invariant(&*self);
            self.entries_well_keyed();
        }
        r
    }
}

} // verus!
