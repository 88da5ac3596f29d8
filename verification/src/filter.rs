//! Looking through the values of a map for one that passes a test.
//!
//! A hash map is walked in an order that only it knows, so where several
//! values pass, any of them may be the one that is found.

use vstd::prelude::*;
use vstd::std_specs::hash::*;
use std::collections::HashMap;
use std::hash::Hash;

verus! {

/// Useful filter with a lambda function
pub trait Filterable<K, V: Clone> {
    /// The values that are looked through.
    spec fn held(&self) -> Set<V>;

    /// Whether the collection behaves as a map of its keys: its keys
    /// compare and hash as keys should.
    spec fn searchable(&self) -> bool;

    /// A copy of some value that passes the test, or nothing where none
    /// does. Which of several is taken is not said.
    fn get_filter<F: Fn(&V) -> bool>(&self, func: &F) -> (found: Option<V>)
        requires
            self.searchable(),
            forall|value: V| #[trigger] func.requires((&value,)),
        ensures
            found is Some ==> exists|value: V|
                #[trigger] self.held().contains(value) && func.ensures((&value,), true) && cloned(
                    value,
                    found->0,
                ),
            found is None ==> forall|value: V|
                self.held().contains(value) ==> func.ensures((&value,), false),
    ;
}

impl<K: Eq + Hash, V: Clone> Filterable<K, V> for HashMap<K, V> {
    /// The values of the map.
    open spec fn held(&self) -> Set<V> {
        self@.values()
    }

    /// The keys follow the model of keys, and so does the hasher that a
    /// map has unless it is given another.
    open spec fn searchable(&self) -> bool {
        obeys_key_model::<K>() && builds_valid_hashers::<std::hash::RandomState>()
    }

    /// Walks the values of the map and hands out a copy of the first that
    /// passes.
    fn get_filter<F: Fn(&V) -> bool>(&self, func: &F) -> (found: Option<V>) {
        broadcast use vstd::std_specs::hash::group_hash_axioms;

        let iterator = self.values();
        for value in it: iterator
            invariant
                forall|v: V| #[trigger] func.requires((&v,)),
                forall|i: int| 0 <= i < it.index() ==> func.ensures((it.seq()[i],), false),
                it.seq().unref().to_set() == self@.values(),
        {
            if func(value) {
                let copy = value.clone();
                proof {
                    let walked = it.seq().unref();
                    assert(walked[it.index()] == *value);
                    assert(walked.to_set().contains(*value));
                    assert(self.held().contains(*value));
                }
                return Some(copy);
            }
        }
        None
    }
}

} // verus!
