use vstd::prelude::*;

verus! {

/// The map that a list of distinct keys and the list of their values stand
/// for: the value of a key is the one at the key's place.
pub open spec fn assoc_map<K, V>(keys: Seq<K>, views: Seq<V>) -> Map<K, V> {
    Map::new(|key: K| keys.contains(key), |key: K| views[keys.index_of(key)])
}

pub proof fn lemma_index_of_unique<K>(keys: Seq<K>, at: int)
    requires
        keys.no_duplicates(),
        0 <= at < keys.len(),
    ensures
        keys.index_of(keys[at]) == at,
{
    let found = keys.index_of(keys[at]);
    assert(0 <= found < keys.len() && keys[found] == keys[at]);
}

pub proof fn lemma_assoc_map_finite<K, V>(keys: Seq<K>, views: Seq<V>)
    ensures
        assoc_map(keys, views).dom().finite(),
{
    assert(assoc_map(keys, views).dom() =~= keys.to_set());
    vstd::seq_lib::seq_to_set_is_finite(keys);
}

pub proof fn lemma_assoc_map_push<K, V>(keys: Seq<K>, views: Seq<V>, key: K, view: V)
    requires
        keys.no_duplicates(),
        keys.len() == views.len(),
        !keys.contains(key),
    ensures
        keys.push(key).no_duplicates(),
        assoc_map(keys.push(key), views.push(view)) == assoc_map(keys, views).insert(key, view),
{
    let more = keys.push(key);
    assert(more.no_duplicates()) by {
        assert forall|i: int, j: int| 0 <= i < more.len() && 0 <= j < more.len() && i != j implies more[i]
            != more[j] by {
            if i < keys.len() {
                assert(keys.contains(more[i]));
            }
            if j < keys.len() {
                assert(keys.contains(more[j]));
            }
        }
    }
    let left = assoc_map(more, views.push(view));
    let right = assoc_map(keys, views).insert(key, view);
    assert forall|k: K| left.dom().contains(k) == right.dom().contains(k) by {
        if keys.contains(k) {
            let i = keys.index_of(k);
            assert(more[i] == k);
        }
        if more.contains(k) {
            let i = more.index_of(k);
            if i < keys.len() {
                assert(keys[i] == k);
            }
        }
        assert(more[keys.len() as int] == key);
    }
    assert forall|k: K| #[trigger] left.dom().contains(k) implies left[k] == right[k] by {
        let i = more.index_of(k);
        if i < keys.len() {
            assert(keys[i] == k);
            lemma_index_of_unique(keys, i);
        } else {
            assert(k == key);
        }
    }
    assert(left =~= right);
}

pub proof fn lemma_assoc_map_update<K, V>(keys: Seq<K>, views: Seq<V>, at: int, view: V)
    requires
        keys.no_duplicates(),
        keys.len() == views.len(),
        0 <= at < keys.len(),
    ensures
        assoc_map(keys, views.update(at, view)) == assoc_map(keys, views).insert(
            keys[at],
            view,
        ),
{
    let left = assoc_map(keys, views.update(at, view));
    let right = assoc_map(keys, views).insert(keys[at], view);
    assert forall|k: K| left.dom().contains(k) == right.dom().contains(k) by {
        assert(keys.contains(keys[at]));
    }
    assert forall|k: K| #[trigger] left.dom().contains(k) implies left[k] == right[k] by {
        let i = keys.index_of(k);
        lemma_index_of_unique(keys, at);
    }
    assert(left =~= right);
}

pub proof fn lemma_assoc_map_remove<K, V>(keys: Seq<K>, views: Seq<V>, at: int)
    requires
        keys.no_duplicates(),
        keys.len() == views.len(),
        0 <= at < keys.len(),
    ensures
        keys.remove(at).no_duplicates(),
        assoc_map(keys.remove(at), views.remove(at)) == assoc_map(keys, views).remove(keys[at]),
{
    let fewer = keys.remove(at);
    assert forall|i: int| 0 <= i < fewer.len() implies #[trigger] fewer[i] == keys[if i < at {
        i
    } else {
        i + 1
    }] by {}
    assert(fewer.no_duplicates());
    let left = assoc_map(fewer, views.remove(at));
    let right = assoc_map(keys, views).remove(keys[at]);
    assert forall|k: K| left.dom().contains(k) == right.dom().contains(k) by {
        if fewer.contains(k) {
            let i = fewer.index_of(k);
            let j = if i < at {
                i
            } else {
                i + 1
            };
            assert(keys[j] == k);
        }
        if keys.contains(k) && k != keys[at] {
            let j = keys.index_of(k);
            let i = if j < at {
                j
            } else {
                j - 1
            };
            assert(fewer[i] == k);
        }
    }
    assert forall|k: K| #[trigger] left.dom().contains(k) implies left[k] == right[k] by {
        let i = fewer.index_of(k);
        let j = if i < at {
            i
        } else {
            i + 1
        };
        assert(keys[j] == k);
        lemma_index_of_unique(keys, j);
    }
    assert(left =~= right);
}

} // verus!
