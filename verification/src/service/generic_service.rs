//! The service that every entity type shares.

use vstd::prelude::*;
use std::marker::PhantomData;
use super::error::{failure_viewed, Error, ErrorView};
use crate::entity::traits::Identifiable;
use crate::repository::error::Error as RepositoryError;
use crate::repository::repository::{
    add_outcome, added, delete_outcome, deleted, update_outcome, updated, viewed, well_keyed,
    Repository,
};
use crate::text::prefixed;

verus! {

/// A service over the repository of one entity type.
pub struct GenericService<T: Identifiable, R: Repository<T>> {
    pub repository: R,
    /// The type of the entities, of which the service holds none itself.
    pub entity: PhantomData<T>,
}

/// What a service makes of what its repository returned: the value, or an
/// operation failure whose message is the text of the repository's failure
/// after `context`.
pub open spec fn forwarded<A>(outcome: Result<A, RepositoryError>, context: Seq<char>) -> Result<
    A,
    ErrorView,
> {
    match outcome {
        Ok(value) => Ok(value),
        Err(cause) => Err(ErrorView::OperationFailed { message: context + cause.spec_text() }),
    }
}

/// Turns a repository's failure into a service's, with `context` before its
/// text.
pub fn forward<A>(outcome: Result<A, RepositoryError>, context: &str) -> (r: Result<A, Error>)
    ensures
        failure_viewed(r) == forwarded(outcome, context@),
{
    match outcome {
        Ok(value) => Ok(value),
        Err(cause) => Err(
            Error::OperationFailed { message: prefixed(context, cause.to_text().as_str()) },
        ),
    }
}

/// What a service makes of what its repository returned, where it adds
/// nothing of its own: the value, or an operation failure whose message is the
/// text of the repository's failure.
pub open spec fn passed_on<A>(outcome: Result<A, RepositoryError>) -> Result<A, ErrorView> {
    match outcome {
        Ok(value) => Ok(value),
        Err(cause) => Err(ErrorView::OperationFailed { message: cause.spec_text() }),
    }
}

/// Turns a repository's failure into a service's, with the same text.
pub fn pass_on<A>(outcome: Result<A, RepositoryError>) -> (r: Result<A, Error>)
    ensures
        failure_viewed(r) == passed_on(outcome),
{
    match outcome {
        Ok(value) => Ok(value),
        Err(cause) => Err(Error::OperationFailed { message: cause.to_text() }),
    }
}

/// The operations of a service on the entities of one type.
pub trait Service<T: Identifiable>: Sized {
    /// The repository that the service owns.
    type Store: Repository<T>;

    /// The repository of the service.
    spec fn store(&self) -> Self::Store;

    /// What the repository of the service holds.
    open spec fn entries(&self) -> Map<u128, T::V> {
        self.store().entries()
    }

    /// Runs `operation` on the repository and returns what it returns. The
    /// operation has the repository to itself from its first step to its last.
    fn with_repository<F: FnOnce(&mut Self::Store) -> Out, Out>(&mut self, operation: F) -> (r:
        Out)
        requires
            forall|repository: &mut Self::Store|
                *repository == old(self).store() ==> call_requires(operation, (repository,)),
        ensures
            exists|repository: &mut Self::Store|
                {
                    &&& *repository == old(self).store()
                    &&& *final(repository) == final(self).store()
                    &&& call_ensures(operation, (repository,), r)
                },
    ;

    /// Stores `item` under its identifier, unless the identifier is taken.
    fn add(&mut self, item: T) -> (r: Result<u128, Error>)
        ensures
            failure_viewed(r) == passed_on(add_outcome(old(self).entries(), T::id_of(item@))),
            final(self).entries() == added(old(self).entries(), T::id_of(item@), item@),
            well_keyed::<T>(final(self).entries()),
    ;

    /// A clone of the entity stored under `id`, if there is one.
    fn get(&self, id: u128) -> (r: Result<Option<T>, Error>)
        ensures
            r matches Ok(found) && viewed(found) == self.entries().get(id),
            well_keyed::<T>(self.entries()),
    ;

    /// Replaces the entity stored under the identifier of `item`.
    fn update(&mut self, item: T) -> (r: Result<(), Error>)
        ensures
            failure_viewed(r) == passed_on(update_outcome(old(self).entries(), T::id_of(item@))),
            final(self).entries() == updated(old(self).entries(), T::id_of(item@), item@),
            well_keyed::<T>(final(self).entries()),
    ;

    /// Removes the entity stored under `id`.
    fn delete(&mut self, id: u128) -> (r: Result<(), Error>)
        ensures
            failure_viewed(r) == passed_on(delete_outcome(old(self).entries(), id)),
            final(self).entries() == deleted(old(self).entries(), id),
            well_keyed::<T>(final(self).entries()),
    ;
}

impl<T: Identifiable, R: Repository<T>> Service<T> for GenericService<T, R> {
    type Store = R;

    open spec fn store(&self) -> R {
        self.repository
    }

    fn with_repository<F: FnOnce(&mut R) -> Out, Out>(&mut self, operation: F) -> (r: Out) {
        operation(&mut self.repository)
    }

    fn add(&mut self, item: T) -> (r: Result<u128, Error>) {
        pass_on(self.repository.add(item))
    }

    fn get(&self, id: u128) -> (r: Result<Option<T>, Error>) {
        pass_on(self.repository.get(id))
    }

    fn update(&mut self, item: T) -> (r: Result<(), Error>) {
        pass_on(self.repository.update(item))
    }

    fn delete(&mut self, id: u128) -> (r: Result<(), Error>) {
        pass_on(self.repository.delete(id))
    }
}

} // verus!
