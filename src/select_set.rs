//! A keyed round-robin multiplexer over a changing set of producers.
use vstd::prelude::*;
use vstd::std_specs::cmp::PartialEqSpec;

use crate::producer::{Poll, Producer};

verus! {

/// Whether `==` on keys of type `K` is exactly equality of the values.
pub open spec fn key_eq_is_exact<K: PartialEq>() -> bool {
    &&& <K as PartialEqSpec>::obeys_eq_spec()
    &&& forall|a: K, b: K| #[trigger] <K as PartialEqSpec>::eq_spec(&a, &b) <==> a == b
}

/// The position visited by the turn that follows a turn at `cursor`, among `len`
/// members.
pub open spec fn next_turn(cursor: int, len: int) -> int {
    (cursor + 1) % len
}

/// Where the cursor stands after one member left a rotation that had `len`
/// members: it keeps its place while that is still a position, else it wraps
/// to the front.
pub open spec fn cursor_after_removal(cursor: int, len: int) -> int {
    if cursor < len - 1 {
        cursor
    } else {
        0
    }
}

/// The rotation order after adding `k`: a present key keeps its place, a new
/// one goes to the end.
pub open spec fn keys_after_add<K>(keys: Seq<K>, k: K) -> Seq<K> {
    if keys.contains(k) {
        keys
    } else {
        keys.push(k)
    }
}

/// The rotation order after removing `k`: its position is dropped, and every
/// other key keeps its relative order.
pub open spec fn keys_after_remove<K>(keys: Seq<K>, k: K) -> Seq<K> {
    if keys.contains(k) {
        keys.remove(keys.index_of(k))
    } else {
        keys
    }
}

/// The producer stored under `k`, if `k` is a key.
pub open spec fn producer_of<K, S>(keys: Seq<K>, producers: Seq<S>, k: K) -> Option<S> {
    if keys.contains(k) {
        Some(producers[keys.index_of(k)])
    } else {
        None
    }
}

/// The producers after adding `s` under `k`: it takes the place of the one
/// stored under a present key, and goes to the end otherwise.
pub open spec fn producers_after_add<K, S>(keys: Seq<K>, producers: Seq<S>, k: K, s: S) -> Seq<S> {
    if keys.contains(k) {
        producers.update(keys.index_of(k), s)
    } else {
        producers.push(s)
    }
}

/// The producers after removing `k`: the one at its position is dropped.
pub open spec fn producers_after_remove<K, S>(keys: Seq<K>, producers: Seq<S>, k: K) -> Seq<S> {
    if keys.contains(k) {
        producers.remove(keys.index_of(k))
    } else {
        producers
    }
}

/// Removing one position of a sequence without duplicates leaves one without
/// duplicates, and drops exactly the value that stood there.
pub(crate) proof fn lemma_remove_keeps_unique<K>(keys: Seq<K>, i: int)
    requires
        keys.no_duplicates(),
        0 <= i < keys.len(),
    ensures
        keys.remove(i).no_duplicates(),
        keys.remove(i) == keys_after_remove(keys, keys[i]),
        !keys.remove(i).contains(keys[i]),
{
    let k = keys[i];
    let rest = keys.remove(i);
    assert forall|a: int, b: int| 0 <= a < b < rest.len() implies rest[a] != rest[b] by {
        let a2 = if a < i { a } else { a + 1 };
        let b2 = if b < i { b } else { b + 1 };
        assert(rest[a] == keys[a2] && rest[b] == keys[b2]);
    }
    assert(!rest.contains(k)) by {
        if rest.contains(k) {
            let j = choose|j: int| 0 <= j < rest.len() && rest[j] == k;
            let j2 = if j < i { j } else { j + 1 };
            assert(keys[j2] == k);
        }
    }
    assert(keys.contains(k));
    lemma_index_of_unique(keys, i);
}

/// A position holding a value of a sequence without duplicates is the only one
/// holding it.
pub(crate) proof fn lemma_index_of_unique<K>(keys: Seq<K>, i: int)
    requires
        keys.no_duplicates(),
        0 <= i < keys.len(),
    ensures
        forall|j: int| 0 <= j < keys.len() && keys[j] == keys[i] ==> j == i,
        keys.contains(keys[i]),
        keys.index_of(keys[i]) == i,
{
    assert(keys.contains(keys[i]));
}

/// The lock-step state of a multiplexer: the rotation order of the keys, the
/// producer of each key at the same position, and whose turn was last.
struct Rotation<K, S> {
    current: usize,
    keys: Vec<K>,
    streams: Vec<S>,
}

impl<K, S> Rotation<K, S> {
    spec fn wf(&self) -> bool {
        &&& self.keys@.len() == self.streams@.len()
        &&& self.keys@.no_duplicates()
        &&& (self.current < self.keys@.len() || (self.keys@.len() == 0 && self.current == 0))
    }

    fn empty() -> (r: Self)
        ensures
            r.wf(),
            r.keys@.len() == 0,
            r.streams@.len() == 0,
            r.current == 0,
    {
        Rotation { current: 0, keys: Vec::new(), streams: Vec::new() }
    }
}

/// Finds the position of `key` in `keys`.
fn position_of<K: PartialEq>(keys: &Vec<K>, key: &K) -> (r: Option<usize>)
    requires
        key_eq_is_exact::<K>(),
    ensures
        match r {
            Some(i) => i < keys@.len() && keys@[i as int] == *key,
            None => !keys@.contains(*key),
        },
{
    let mut i: usize = 0;
    while i < keys.len()
        invariant
            key_eq_is_exact::<K>(),
            i <= keys@.len(),
            forall|j: int| 0 <= j < i ==> keys@[j] != *key,
        decreases keys@.len() - i,
    {
        if keys[i].eq(key) {
            return Some(i);
        }
        i = i + 1;
    }
    None
}

/// Selects over several producers, keyed by identifiers, visiting one member per
/// poll in round-robin order. A member leaves the set in the same poll in which
/// it reports that it is finished.
///
/// The producers are kept in a `Vec` in step with the rotation order of the
/// keys, not in a hash map: for a generic key type, vstd's model of `HashMap`
/// holds only under a key model that cannot be established without assuming
/// it, while keys compared with `==` need nothing beyond `key_eq_is_exact`.
/// The `Hash` bound is kept so that the type reads the same to its users.
pub struct SelectSet<K: Clone + Eq + std::hash::Hash, S> {
    state: Rotation<K, S>,
}

impl<K: Clone + Eq + std::hash::Hash, S> SelectSet<K, S> {
    #[verifier::type_invariant]
    spec fn well_formed(&self) -> bool {
        self.state.wf()
    }

    /// The keys in rotation order.
    pub closed spec fn keys(&self) -> Seq<K> {
        self.state.keys@
    }

    /// The producers, each at the position of its key in `keys()`.
    pub closed spec fn producers(&self) -> Seq<S> {
        self.state.streams@
    }

    /// The position whose turn was last; the next poll visits the one after it.
    pub closed spec fn cursor(&self) -> int {
        self.state.current as int
    }

    /// What holds of every multiplexer: keys and producers stay in lock-step, no
    /// key occurs twice, and the cursor is a position whenever there is one.
    pub open spec fn consistent(&self) -> bool {
        &&& self.keys().len() == self.producers().len()
        &&& self.keys().no_duplicates()
        &&& (0 <= self.cursor() < self.keys().len() || (self.keys().len() == 0
            && self.cursor() == 0))
    }

    /// Creates an empty set. Until a producer is added, every poll reports
    /// `Pending`.
    pub fn new() -> (r: Self)
        ensures
            r.consistent(),
            r.keys().len() == 0,
            r.producers().len() == 0,
            r.cursor() == 0,
    {
        SelectSet { state: Rotation::empty() }
    }

    /// Adds `stream` under `key`. Where the key was present, its producer is
    /// replaced in place and handed back, and the rotation order is kept; a new
    /// key goes to the end of the rotation order.
    pub fn add(&mut self, key: K, stream: S) -> (r: Option<S>)
        requires
            key_eq_is_exact::<K>(),
        ensures
            final(self).consistent(),
            final(self).cursor() == old(self).cursor(),
            final(self).keys() == keys_after_add(old(self).keys(), key),
            final(self).producers() == producers_after_add(
                old(self).keys(),
                old(self).producers(),
                key,
                stream,
            ),
            r == producer_of(old(self).keys(), old(self).producers(), key),
    {
        proof {
            use_type_invariant(&*self);
        }
        let mut st = Rotation::empty();
        std::mem::swap(&mut st, &mut self.state);
        let r = match position_of(&st.keys, &key) {
            Some(i) => {
                proof {
                    lemma_index_of_unique(st.keys@, i as int);
                }
                let prev = st.streams.remove(i);
                st.streams.insert(i, stream);
                proof {
                    assert(st.streams@ =~= old(self).producers().update(i as int, stream));
                }
                Some(prev)
            },
            None => {
                st.keys.push(key);
                st.streams.push(stream);
                proof {
                    assert forall|a: int, b: int|
                        0 <= a < b < st.keys@.len() implies st.keys@[a] != st.keys@[b] by {
                        if b == st.keys@.len() - 1 {
                            assert(old(self).keys().contains(old(self).keys()[a]));
                        }
                    }
                }
                None
            },
        };
        self.state = st;
        r
    }

    /// Advances the cursor by one position, modulo the number of members, asks
    /// the member there for its next result, and hands that answer to
    /// [`SelectSet::settle`], which returns it as it is. A member that reports
    /// `Finished` leaves the set in this same call; an error leaves it in place.
    /// With no members, reports `Pending` and changes nothing.
    pub fn poll<T, E>(&mut self) -> (r: Poll<T, E>) where S: Producer<T, E>
        ensures
            final(self).consistent(),
            old(self).keys().len() == 0 ==> r is Pending && final(self).keys() == old(self).keys()
                && final(self).producers() == old(self).producers() && final(self).cursor()
                == old(self).cursor(),
            old(self).keys().len() > 0 ==> {
                let n = old(self).keys().len() as int;
                let i = next_turn(old(self).cursor(), n);
                if r is Finished {
                    &&& final(self).keys() == old(self).keys().remove(i)
                    &&& final(self).producers() == old(self).producers().remove(i)
                    &&& final(self).cursor() == cursor_after_removal(i, n)
                } else {
                    &&& final(self).keys() == old(self).keys()
                    &&& final(self).producers() == old(self).producers().update(
                        i,
                        final(self).producers()[i],
                    )
                    &&& final(self).cursor() == i
                }
            },
    {
        proof {
            use_type_invariant(&*self);
        }
        if self.state.keys.len() == 0 {
            return Poll::Pending;
        }
        let mut st = Rotation::empty();
        std::mem::swap(&mut st, &mut self.state);
        st.current = (st.current + 1) % st.keys.len();
        let i = st.current;
        let answer = st.streams[i].poll();
        proof {
            assert(st.streams@ =~= old(self).producers().update(i as int, st.streams@[i as int]));
        }
        self.state = st;
        self.settle(answer)
    }

    /// Concludes the turn of the member at the cursor, given its `answer`: the
    /// answer is returned as it is; a member that answered `Finished` leaves the
    /// set, and the cursor keeps its place while that is still a position, else
    /// wraps to the front; any other answer leaves the set as it was.
    pub fn settle<T, E>(&mut self, answer: Poll<T, E>) -> (r: Poll<T, E>)
        requires
            old(self).keys().len() > 0,
        ensures
            final(self).consistent(),
            r == answer,
            answer is Finished ==> {
                let c = old(self).cursor();
                let n = old(self).keys().len() as int;
                &&& final(self).keys() == old(self).keys().remove(c)
                &&& final(self).producers() == old(self).producers().remove(c)
                &&& final(self).cursor() == cursor_after_removal(c, n)
            },
            !(answer is Finished) ==> {
                &&& final(self).keys() == old(self).keys()
                &&& final(self).producers() == old(self).producers()
                &&& final(self).cursor() == old(self).cursor()
            },
    {
        proof {
            use_type_invariant(&*self);
        }
        if answer.is_finished() {
            let mut st = Rotation::empty();
            std::mem::swap(&mut st, &mut self.state);
            let i = st.current;
            proof {
                lemma_remove_keeps_unique(st.keys@, i as int);
            }
            let _ = st.keys.remove(i);
            let _ = st.streams.remove(i);
            if st.current >= st.keys.len() {
                st.current = 0;
            }
            self.state = st;
        }
        answer
    }

    /// Removes the producer of `key` and hands it back, if there is one. The
    /// cursor keeps its place while that is still a position, else it wraps to
    /// the front; removing the member whose turn was last can thus make the
    /// next poll skip a neighbour.
    pub fn remove(&mut self, key: &K) -> (r: Option<S>)
        requires
            key_eq_is_exact::<K>(),
        ensures
            final(self).consistent(),
            r == producer_of(old(self).keys(), old(self).producers(), *key),
            final(self).keys() == keys_after_remove(old(self).keys(), *key),
            final(self).producers() == producers_after_remove(
                old(self).keys(),
                old(self).producers(),
                *key,
            ),
            final(self).cursor() == if old(self).keys().contains(*key) {
                cursor_after_removal(old(self).cursor(), old(self).keys().len() as int)
            } else {
                old(self).cursor()
            },
    {
        proof {
            use_type_invariant(&*self);
        }
        let mut st = Rotation::empty();
        std::mem::swap(&mut st, &mut self.state);
        let r = match position_of(&st.keys, key) {
            Some(i) => {
                proof {
                    lemma_index_of_unique(st.keys@, i as int);
                }
                let _ = st.keys.remove(i);
                let gone = st.streams.remove(i);
                if st.current >= st.keys.len() {
                    st.current = 0;
                }
                proof {
                    lemma_remove_keeps_unique(old(self).keys(), i as int);
                }
                Some(gone)
            },
            None => None,
        };
        self.state = st;
        r
    }
}

/// A multiplexer is itself a producer, so that it can be nested or handed to
/// any consumer of one.
impl<K: Clone + Eq + std::hash::Hash, S: Producer<T, E>, T, E> Producer<T, E> for SelectSet<K, S> {
    fn poll(&mut self) -> Poll<T, E> {
        SelectSet::poll(self)
    }
}

} // verus!
