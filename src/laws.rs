//! Properties of the multiplexer that relate several of its operations,
//! stated over the models that their contracts use.
use vstd::arithmetic::div_mod::{lemma_add_mod_noop_right, lemma_mod_self_0, lemma_small_mod};
use vstd::prelude::*;

use crate::select_set::{
    keys_after_add, keys_after_remove, lemma_remove_keeps_unique, next_turn, producer_of,
    producers_after_add, producers_after_remove,
};

verus! {

/// The keys visited by `steps` consecutive polls that follow a turn at `cursor`,
/// while no member joins or leaves.
pub open spec fn visit_order<K>(keys: Seq<K>, cursor: int, steps: nat) -> Seq<K>
    decreases steps,
{
    if steps == 0 {
        Seq::empty()
    } else {
        let i = next_turn(cursor, keys.len() as int);
        seq![keys[i]] + visit_order(keys, i, (steps - 1) as nat)
    }
}

/// A number below twice `n` reduces modulo `n` by at most one subtraction.
proof fn lemma_wrap(x: int, n: int)
    requires
        0 < n,
        0 <= x < 2 * n,
    ensures
        x % n == if x < n {
            x
        } else {
            x - n
        },
{
    if x < n {
        lemma_small_mod(x as nat, n as nat);
    } else {
        lemma_mod_self_0(n);
        lemma_add_mod_noop_right(x - n, n, n);
        lemma_small_mod((x - n) as nat, n as nat);
    }
}

/// The `t`-th visit after a turn at `cursor` is to position `cursor + 1 + t`,
/// modulo the number of members.
proof fn lemma_visit_at<K>(keys: Seq<K>, cursor: int, steps: nat)
    requires
        keys.len() > 0,
        0 <= cursor,
    ensures
        visit_order(keys, cursor, steps).len() == steps,
        forall|t: int|
            0 <= t < steps ==> #[trigger] visit_order(keys, cursor, steps)[t] == keys[(cursor + 1
                + t) % keys.len() as int],
    decreases steps,
{
    let n = keys.len() as int;
    if steps > 0 {
        let i = next_turn(cursor, n);
        lemma_visit_at(keys, i, (steps - 1) as nat);
        let v = visit_order(keys, cursor, steps);
        let rest = visit_order(keys, i, (steps - 1) as nat);
        assert(v == seq![keys[i]] + rest);
        assert forall|t: int| 0 <= t < steps implies #[trigger] v[t] == keys[(cursor + 1 + t)
            % n] by {
            if t > 0 {
                assert(v[t] == rest[t - 1]);
                lemma_add_mod_noop_right(t, cursor + 1, n);
                assert(i + 1 + (t - 1) == t + (cursor + 1) % n);
            }
        }
    }
}

/// With `n` members and no member joining or leaving, `n` consecutive polls
/// visit every key exactly once.
pub proof fn lemma_full_rotation_visits_each_key_once<K>(keys: Seq<K>, cursor: int)
    requires
        keys.len() > 0,
        keys.no_duplicates(),
        0 <= cursor < keys.len(),
    ensures
        visit_order(keys, cursor, keys.len()).len() == keys.len(),
        visit_order(keys, cursor, keys.len()).no_duplicates(),
        forall|k: K| #[trigger]
            visit_order(keys, cursor, keys.len()).contains(k) <==> keys.contains(k),
{
    let n = keys.len() as int;
    let v = visit_order(keys, cursor, keys.len());
    lemma_visit_at(keys, cursor, keys.len());
    assert forall|a: int, b: int| 0 <= a < b < n implies v[a] != v[b] by {
        lemma_wrap(cursor + 1 + a, n);
        lemma_wrap(cursor + 1 + b, n);
        assert(v[a] == keys[(cursor + 1 + a) % n]);
        assert(v[b] == keys[(cursor + 1 + b) % n]);
    }
    assert forall|k: K| #[trigger] v.contains(k) <==> keys.contains(k) by {
        if v.contains(k) {
            let t = choose|t: int| 0 <= t < n && v[t] == k;
            lemma_wrap(cursor + 1 + t, n);
            assert(keys[(cursor + 1 + t) % n] == k);
        }
        if keys.contains(k) {
            let j = choose|j: int| 0 <= j < n && keys[j] == k;
            let t = if j > cursor {
                j - cursor - 1
            } else {
                j - cursor - 1 + n
            };
            lemma_wrap(cursor + 1 + t, n);
            assert(v[t] == keys[j]);
        }
    }
}

/// Adding under a present key hands back the producer stored there, keeps the
/// key's place in the rotation order, and leaves every other key's producer
/// alone.
pub proof fn lemma_add_present_key_keeps_place<K, S>(
    keys: Seq<K>,
    producers: Seq<S>,
    k: K,
    s: S,
)
    requires
        keys.no_duplicates(),
        keys.len() == producers.len(),
        keys.contains(k),
    ensures
        producer_of(keys, producers, k) == Some(producers[keys.index_of(k)]),
        keys_after_add(keys, k) == keys,
        keys_after_add(keys, k).index_of(k) == keys.index_of(k),
        producer_of(keys_after_add(keys, k), producers_after_add(keys, producers, k, s), k)
            == Some(s),
        forall|k2: K|
            k2 != k ==> #[trigger] producer_of(
                keys_after_add(keys, k),
                producers_after_add(keys, producers, k, s),
                k2,
            ) == producer_of(keys, producers, k2),
{
    let i = keys.index_of(k);
    assert(keys[i] == k);
    let after = producers_after_add(keys, producers, k, s);
    assert forall|k2: K| k2 != k implies #[trigger] producer_of(keys, after, k2)
        == producer_of(keys, producers, k2) by {
        if keys.contains(k2) {
            let j = keys.index_of(k2);
            assert(keys[j] == k2);
        }
    }
}

/// Adding under a new key puts it last in the rotation order, and a following
/// full rotation over the grown set visits it exactly once.
pub proof fn lemma_new_key_visited_once_per_rotation<K>(keys: Seq<K>, cursor: int, k: K)
    requires
        keys.no_duplicates(),
        !keys.contains(k),
        0 <= cursor < keys.len() || (keys.len() == 0 && cursor == 0),
    ensures
        keys_after_add(keys, k) == keys.push(k),
        keys_after_add(keys, k).last() == k,
        visit_order(keys_after_add(keys, k), cursor, keys.len() + 1).contains(k),
        visit_order(keys_after_add(keys, k), cursor, keys.len() + 1).no_duplicates(),
{
    let grown = keys.push(k);
    assert forall|a: int, b: int| 0 <= a < b < grown.len() implies grown[a] != grown[b] by {
        if b == keys.len() {
            assert(keys.contains(keys[a]));
        }
    }
    assert(grown.contains(k)) by {
        assert(grown[keys.len() as int] == k);
    }
    lemma_full_rotation_visits_each_key_once(grown, cursor);
}

/// Once the member at position `i` has finished and left, its key is gone: the
/// set no longer holds it, and removing it finds nothing.
pub proof fn lemma_finished_member_is_gone<K, S>(keys: Seq<K>, producers: Seq<S>, i: int)
    requires
        keys.no_duplicates(),
        keys.len() == producers.len(),
        0 <= i < keys.len(),
    ensures
        !keys.remove(i).contains(keys[i]),
        producer_of(keys.remove(i), producers.remove(i), keys[i]) is None,
        keys_after_remove(keys.remove(i), keys[i]) == keys.remove(i),
{
    lemma_remove_keeps_unique(keys, i);
}

/// Removing a key and adding a producer under it again stores exactly the new
/// producer there: nothing of the removed one survives.
pub proof fn lemma_readded_key_starts_fresh<K, S>(
    keys: Seq<K>,
    producers: Seq<S>,
    k: K,
    s: S,
)
    requires
        keys.no_duplicates(),
        keys.len() == producers.len(),
    ensures
        !keys_after_remove(keys, k).contains(k),
        producer_of(
            keys_after_add(keys_after_remove(keys, k), k),
            producers_after_add(
                keys_after_remove(keys, k),
                producers_after_remove(keys, producers, k),
                k,
                s,
            ),
            k,
        ) == Some(s),
{
    let keys1 = keys_after_remove(keys, k);
    let prods1 = producers_after_remove(keys, producers, k);
    if keys.contains(k) {
        let i = keys.index_of(k);
        assert(keys[i] == k);
        lemma_remove_keeps_unique(keys, i);
    }
    assert(!keys1.contains(k));
    let keys2 = keys1.push(k);
    assert(keys_after_add(keys1, k) == keys2);
    assert(keys1.len() == prods1.len());
    assert(keys2.contains(k)) by {
        assert(keys2[keys1.len() as int] == k);
    }
    let j = keys2.index_of(k);
    assert(keys2[j] == k);
    if j < keys1.len() {
        assert(keys1[j] == k);
    }
    assert(j == keys1.len());
}

} // verus!
