//! Finding the first entry of a keyed list by its key.

use vstd::prelude::*;

verus! {

/// Whether `index` is the place of the first of `keys` that equals `key`.
pub open spec fn is_first_at(keys: Seq<Seq<char>>, key: Seq<char>, index: int) -> bool {
    &&& 0 <= index < keys.len()
    &&& keys[index] == key
    &&& forall|j: int| 0 <= j < index ==> #[trigger] keys[j] != key
}

/// The place of the first of `keys` that equals `key`, if there is one.
pub open spec fn first_index(keys: Seq<Seq<char>>, key: Seq<char>) -> Option<int> {
    if exists|index: int| is_first_at(keys, key, index) {
        Some(choose|index: int| is_first_at(keys, key, index))
    } else {
        None
    }
}

/// There is at most one first place: where `index` is one, it is the place
/// that [`first_index`] gives.
pub proof fn lemma_first_index_found(keys: Seq<Seq<char>>, key: Seq<char>, index: int)
    requires
        is_first_at(keys, key, index),
    ensures
        first_index(keys, key) == Some(index),
{
    let chosen = choose|i: int| is_first_at(keys, key, i);
    assert(is_first_at(keys, key, chosen));
    if chosen < index {
        assert(keys[chosen] != key);
    } else if chosen > index {
        assert(keys[index] != key);
    }
}

/// Where none of `keys` equals `key`, there is no first place.
pub proof fn lemma_first_index_absent(keys: Seq<Seq<char>>, key: Seq<char>)
    requires
        forall|j: int| 0 <= j < keys.len() ==> #[trigger] keys[j] != key,
    ensures
        first_index(keys, key) is None,
{
    assert forall|index: int| !is_first_at(keys, key, index) by {
        if 0 <= index < keys.len() {
            assert(keys[index] != key);
        }
    }
}

} // verus!
