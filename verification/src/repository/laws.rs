//! What holds of every store, whatever sequence of operations made it.

use vstd::prelude::*;
use super::error::Error;
use super::repository::{
    add_outcome, added, delete_outcome, deleted, update_outcome, updated, well_keyed,
};
use crate::entity::traits::Identifiable;

verus! {

/// Adding an entity under an identifier that is not taken succeeds, and the
/// store then holds that entity, whole, under the identifier.
pub proof fn add_then_get<V>(store: Map<u128, V>, id: u128, entity: V)
    requires
        !store.contains_key(id),
    ensures
        add_outcome(store, id) == Ok::<u128, Error>(id),
        added(store, id, entity).get(id) == Some(entity),
{
}

/// Adding under one identifier twice: the second call fails with
/// `DuplicateKey` and leaves the store as the first call left it, with the
/// first entity under the identifier when the first call stored it.
pub proof fn add_twice<V>(store: Map<u128, V>, id: u128, first: V, second: V)
    ensures
        add_outcome(added(store, id, first), id) == Err::<u128, Error>(Error::DuplicateKey),
        added(added(store, id, first), id, second) == added(store, id, first),
        !store.contains_key(id) ==> added(added(store, id, first), id, second).get(id) == Some(
            first,
        ),
{
}

/// Replacing an entity that is not stored fails with `NotFound` and leaves the
/// store as it was.
pub proof fn update_missing<V>(store: Map<u128, V>, id: u128, entity: V)
    requires
        !store.contains_key(id),
    ensures
        update_outcome(store, id) == Err::<(), Error>(Error::NotFound),
        updated(store, id, entity) == store,
{
}

/// Removing an entity that is not stored fails with `NotFound` and leaves the
/// store as it was.
pub proof fn delete_missing<V>(store: Map<u128, V>, id: u128)
    requires
        !store.contains_key(id),
    ensures
        delete_outcome(store, id) == Err::<(), Error>(Error::NotFound),
        deleted(store, id) == store,
{
}

/// Looking up an identifier that was never added finds nothing, and that is
/// no failure. A new store holds nothing; where a store holds nothing under an
/// identifier, it still holds nothing there after any operation but adding
/// under that identifier.
pub proof fn get_missing<V>(store: Map<u128, V>, id: u128, other: u128, entity: V)
    requires
        !store.contains_key(id),
    ensures
        Map::<u128, V>::empty().get(id) == None::<V>,
        store.get(id) == None::<V>,
        other != id ==> added(store, other, entity).get(id) == None::<V>,
        updated(store, other, entity).get(id) == None::<V>,
        deleted(store, other).get(id) == None::<V>,
{
}

/// Replacing a stored entity succeeds, and the store then holds exactly the
/// new entity under the identifier: nothing of the old one is kept.
pub proof fn update_then_get<V>(store: Map<u128, V>, id: u128, entity: V)
    requires
        store.contains_key(id),
    ensures
        update_outcome(store, id) == Ok::<(), Error>(()),
        updated(store, id, entity).get(id) == Some(entity),
        updated(store, id, entity).dom() == store.dom(),
{
    assert(updated(store, id, entity).dom() =~= store.dom());
}

/// Removing a stored entity succeeds, and the store then holds nothing under
/// the identifier and everything else as before.
pub proof fn delete_then_get<V>(store: Map<u128, V>, id: u128)
    requires
        store.contains_key(id),
    ensures
        delete_outcome(store, id) == Ok::<(), Error>(()),
        deleted(store, id).get(id) == None::<V>,
        forall|other: u128| other != id ==> deleted(store, id).get(other) == store.get(other),
{
}

/// An operation that fails leaves the store as it was.
pub proof fn failure_changes_nothing<V>(store: Map<u128, V>, id: u128, entity: V)
    ensures
        add_outcome(store, id) is Err ==> added(store, id, entity) == store,
        update_outcome(store, id) is Err ==> updated(store, id, entity) == store,
        delete_outcome(store, id) is Err ==> deleted(store, id) == store,
{
}

/// An operation touches no entity but the one under its identifier.
pub proof fn others_stay<V>(store: Map<u128, V>, id: u128, entity: V, other: u128)
    requires
        other != id,
    ensures
        added(store, id, entity).get(other) == store.get(other),
        updated(store, id, entity).get(other) == store.get(other),
        deleted(store, id).get(other) == store.get(other),
{
}

/// Every operation keeps a well-keyed store well keyed, when an entity goes in
/// under the identifier that it reports.
pub proof fn operations_keep_keys<T: Identifiable>(store: Map<u128, T::V>, id: u128, entity: T::V)
    requires
        well_keyed::<T>(store),
        T::id_of(entity) == id,
    ensures
        well_keyed::<T>(added(store, id, entity)),
        well_keyed::<T>(updated(store, id, entity)),
        well_keyed::<T>(deleted(store, id)),
{
}

/// The store after adding `entities` one after the other, each under the
/// identifier that it reports.
pub open spec fn added_all<T: Identifiable>(store: Map<u128, T::V>, entities: Seq<T::V>) -> Map<
    u128,
    T::V,
>
    decreases entities.len(),
{
    if entities.len() == 0 {
        store
    } else {
        added(
            added_all::<T>(store, entities.drop_last()),
            T::id_of(entities.last()),
            entities.last(),
        )
    }
}

/// No two of `entities` report the same identifier, and none reports one that
/// `store` holds.
pub open spec fn fresh_and_distinct<T: Identifiable>(
    store: Map<u128, T::V>,
    entities: Seq<T::V>,
) -> bool {
    &&& forall|i: int|
        0 <= i < entities.len() ==> !store.contains_key(#[trigger] T::id_of(entities[i]))
    &&& forall|i: int, j: int|
        0 <= i < j < entities.len() ==> T::id_of(entities[i]) != T::id_of(entities[j])
}

/// Calls on one repository take effect one after the other, in some order.
/// Adding entities with distinct new identifiers, in whatever order: every
/// call succeeds, the store grows by their number, and each entity is then
/// stored under its identifier.
pub proof fn add_all_distinct<T: Identifiable>(store: Map<u128, T::V>, entities: Seq<T::V>)
    requires
        store.dom().finite(),
        fresh_and_distinct::<T>(store, entities),
    ensures
        forall|k: int|
            0 <= k < entities.len() ==> add_outcome(
                #[trigger] added_all::<T>(store, entities.take(k)),
                T::id_of(entities[k]),
            ) == Ok::<u128, Error>(T::id_of(entities[k])),
        added_all::<T>(store, entities).dom().finite(),
        added_all::<T>(store, entities).dom().len() == store.dom().len() + entities.len(),
        forall|k: int|
            0 <= k < entities.len() ==> added_all::<T>(store, entities).get(
                #[trigger] T::id_of(entities[k]),
            ) == Some(entities[k]),
        forall|id: u128|
            store.contains_key(id) ==> added_all::<T>(store, entities).get(id) == store.get(id),
    decreases entities.len(),
{
    added_all_domain::<T>(store, entities);
    if entities.len() > 0 {
        let rest = entities.drop_last();
        let last = entities.last();
        add_all_distinct::<T>(store, rest);
        assert forall|k: int| 0 <= k < entities.len() implies add_outcome(
            #[trigger] added_all::<T>(store, entities.take(k)),
            T::id_of(entities[k]),
        ) == Ok::<u128, Error>(T::id_of(entities[k])) by {
            added_all_domain::<T>(store, entities.take(k));
            if added_all::<T>(store, entities.take(k)).contains_key(T::id_of(entities[k])) {
                let j = choose|j: int|
                    0 <= j < entities.take(k).len() && T::id_of(entities.take(k)[j]) == T::id_of(
                        entities[k],
                    );
                assert(entities.take(k)[j] == entities[j]);
            }
        }
        assert forall|k: int| 0 <= k < entities.len() implies added_all::<T>(store, entities).get(
            #[trigger] T::id_of(entities[k]),
        ) == Some(entities[k]) by {
            if k < rest.len() {
                assert(rest[k] == entities[k]);
            }
        }
    }
}

/// The calls may take effect in any order: where two orders hold the same
/// entities, the store ends the same after either.
pub proof fn add_all_any_order<T: Identifiable>(
    store: Map<u128, T::V>,
    first: Seq<T::V>,
    second: Seq<T::V>,
)
    requires
        store.dom().finite(),
        fresh_and_distinct::<T>(store, first),
        fresh_and_distinct::<T>(store, second),
        forall|i: int| 0 <= i < first.len() ==> second.contains(#[trigger] first[i]),
        forall|j: int| 0 <= j < second.len() ==> first.contains(#[trigger] second[j]),
    ensures
        added_all::<T>(store, first) == added_all::<T>(store, second),
{
    let left = added_all::<T>(store, first);
    let right = added_all::<T>(store, second);
    add_all_distinct::<T>(store, first);
    add_all_distinct::<T>(store, second);
    added_all_domain::<T>(store, first);
    added_all_domain::<T>(store, second);
    assert forall|id: u128| #[trigger] left.dom().contains(id) implies right.dom().contains(id)
        && right[id] == left[id] by {
        if !store.contains_key(id) {
            let i = choose|i: int| 0 <= i < first.len() && T::id_of(first[i]) == id;
            assert(second.contains(first[i]));
            let j = choose|j: int| 0 <= j < second.len() && second[j] == first[i];
            assert(left.get(T::id_of(first[i])) == Some(first[i]));
            assert(right.get(T::id_of(second[j])) == Some(second[j]));
        } else {
            assert(left.get(id) == store.get(id));
            assert(right.get(id) == store.get(id));
        }
    }
    assert forall|id: u128| #[trigger] right.dom().contains(id) implies left.dom().contains(
        id,
    ) by {
        if !store.contains_key(id) {
            let j = choose|j: int| 0 <= j < second.len() && T::id_of(second[j]) == id;
            assert(first.contains(second[j]));
            let i = choose|i: int| 0 <= i < first.len() && first[i] == second[j];
            assert(left.get(T::id_of(first[i])) == Some(first[i]));
        } else {
            assert(left.get(id) == store.get(id));
        }
    }
    assert(left.dom() =~= right.dom());
    assert(left =~= right);
}

/// The identifiers in a store after adding `entities` are those that it held
/// and those that the entities report.
proof fn added_all_domain<T: Identifiable>(store: Map<u128, T::V>, entities: Seq<T::V>)
    requires
        store.dom().finite(),
        fresh_and_distinct::<T>(store, entities),
    ensures
        added_all::<T>(store, entities).dom().finite(),
        added_all::<T>(store, entities).dom().len() == store.dom().len() + entities.len(),
        forall|id: u128|
            added_all::<T>(store, entities).contains_key(id) <==> store.contains_key(id) || exists|
                j: int,
            |
                0 <= j < entities.len() && T::id_of(entities[j]) == id,
    decreases entities.len(),
{
    if entities.len() > 0 {
        let rest = entities.drop_last();
        let last = entities.last();
        added_all_domain::<T>(store, rest);
        let before = added_all::<T>(store, rest);
        assert(!before.contains_key(T::id_of(last))) by {
            if before.contains_key(T::id_of(last)) {
                let j = choose|j: int| 0 <= j < rest.len() && T::id_of(rest[j]) == T::id_of(last);
                assert(rest[j] == entities[j]);
            }
        }
        assert forall|id: u128|
            added_all::<T>(store, entities).contains_key(id) <==> store.contains_key(id) || exists|
                j: int,
            |
                0 <= j < entities.len() && T::id_of(entities[j]) == id by {
            if added_all::<T>(store, entities).contains_key(id) && !store.contains_key(id) {
                if id == T::id_of(last) {
                    assert(T::id_of(entities[entities.len() - 1]) == id);
                } else {
                    let j = choose|j: int| 0 <= j < rest.len() && T::id_of(rest[j]) == id;
                    assert(rest[j] == entities[j]);
                }
            }
            if exists|j: int| 0 <= j < entities.len() && T::id_of(entities[j]) == id {
                let j = choose|j: int| 0 <= j < entities.len() && T::id_of(entities[j]) == id;
                if j < rest.len() {
                    assert(rest[j] == entities[j]);
                }
            }
        }
    }
}

} // verus!
