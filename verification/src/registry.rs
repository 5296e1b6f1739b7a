//! A small table keyed by text, for the handful of circuits or peers that one
//! transport holds. Its model is a `Map` from the characters of a key to the
//! value stored under it; no key stands in the table twice.

use crate::text::same_text;
use vstd::prelude::*;
use vstd::string::*;

verus! {

/// The position of the first key that reads `k`, or `keys.len()` when none
/// does.
pub open spec fn position(keys: Seq<String>, k: Seq<char>) -> int
    decreases keys.len(),
{
    if keys.len() == 0 {
        0
    } else if keys[0]@ == k {
        0
    } else {
        1 + position(keys.drop_first(), k)
    }
}

/// Whether no two keys read the same.
pub open spec fn distinct(keys: Seq<String>) -> bool {
    forall|i: int, j: int| 0 <= i < j < keys.len() ==> keys[i]@ != keys[j]@
}

/// `position` is the least index whose key reads `k`.
pub proof fn lemma_position(keys: Seq<String>, k: Seq<char>)
    ensures
        0 <= position(keys, k) <= keys.len(),
        forall|j: int| 0 <= j < position(keys, k) ==> keys[j]@ != k,
        position(keys, k) < keys.len() ==> keys[position(keys, k)]@ == k,
    decreases keys.len(),
{
    if keys.len() > 0 && keys[0]@ != k {
        let rest = keys.drop_first();
        lemma_position(rest, k);
        assert forall|j: int| 0 <= j < position(keys, k) implies keys[j]@ != k by {
            if j > 0 {
                assert(keys[j] == rest[j - 1]);
            }
        }
    }
}

/// An index whose key reads `k`, with no such key before it, is the position
/// of `k`; an index at the end says that `k` is absent.
pub proof fn lemma_position_at(keys: Seq<String>, k: Seq<char>, at: int)
    requires
        0 <= at <= keys.len(),
        forall|j: int| 0 <= j < at ==> keys[j]@ != k,
        at < keys.len() ==> keys[at]@ == k,
    ensures
        position(keys, k) == at,
{
    lemma_position(keys, k);
}

/// The table.
pub struct Registry<V> {
    keys: Vec<String>,
    values: Vec<V>,
}

impl<V> View for Registry<V> {
    type V = Map<Seq<char>, V>;

    closed spec fn view(&self) -> Map<Seq<char>, V> {
        Map::new(
            |k: Seq<char>| position(self.keys@, k) < self.keys@.len(),
            |k: Seq<char>| self.values@[position(self.keys@, k)],
        )
    }
}

impl<V> Registry<V> {
    /// What every table satisfies: one value per key, and no key twice.
    pub closed spec fn wf(&self) -> bool {
        &&& self.keys@.len() == self.values@.len()
        &&& distinct(self.keys@)
    }

    /// The keys in the order in which the table holds them.
    pub closed spec fn key_list(&self) -> Seq<Seq<char>> {
        self.keys.deep_view()
    }

    /// The keys of a table are those of its model, each once.
    pub proof fn lemma_key_list(&self)
        requires
            self.wf(),
        ensures
            self.key_list().no_duplicates(),
            self.key_list().len() == self@.dom().len(),
            self@.dom().finite(),
            forall|k: Seq<char>| self.key_list().contains(k) <==> self@.contains_key(k),
    {
        let keys = self.keys@;
        let list = self.key_list();
        assert forall|k: Seq<char>| list.contains(k) <==> self@.contains_key(k) by {
            lemma_position(keys, k);
            if list.contains(k) {
                let i = choose|i: int| 0 <= i < list.len() && list[i] == k;
                assert(keys[i]@ == k);
            }
            if self@.contains_key(k) {
                assert(list[position(keys, k)] == k);
            }
        }
        assert(list.no_duplicates());
        assert(list.to_set() =~= self@.dom());
        list.unique_seq_to_set();
        vstd::seq_lib::seq_to_set_is_finite(list);
    }

    /// An empty table.
    pub fn new() -> (r: Registry<V>)
        ensures
            r.wf(),
            r@ == Map::<Seq<char>, V>::empty(),
    {
        let r = Registry { keys: Vec::new(), values: Vec::new() };
        assert(r@ =~= Map::<Seq<char>, V>::empty());
        r
    }

    /// Where `key` stands, or the length of the table.
    fn find(&self, key: &str) -> (at: usize)
        requires
            self.wf(),
        ensures
            at == position(self.keys@, key@),
            at <= self.keys@.len(),
    {
        let mut i: usize = 0;
        while i < self.keys.len()
            invariant
                i <= self.keys.len(),
                forall|j: int| 0 <= j < i ==> self.keys@[j]@ != key@,
            decreases self.keys.len() - i,
        {
            if same_text(self.keys[i].as_str(), key) {
                proof {
                    lemma_position_at(self.keys@, key@, i as int);
                }
                return i;
            }
            i += 1;
        }
        proof {
            lemma_position_at(self.keys@, key@, i as int);
        }
        i
    }

    /// How many keys the table holds.
    pub fn len(&self) -> (n: usize)
        requires
            self.wf(),
        ensures
            n == self@.dom().len(),
            self@.dom().finite(),
    {
        proof {
            self.lemma_key_list();
        }
        self.keys.len()
    }

    /// Whether a value stands under `key`.
    pub fn contains_key(&self, key: &str) -> (b: bool)
        requires
            self.wf(),
        ensures
            b == self@.contains_key(key@),
    {
        self.find(key) < self.keys.len()
    }

    /// The value under `key`, if any.
    pub fn get(&self, key: &str) -> (r: Option<&V>)
        requires
            self.wf(),
        ensures
            match r {
                Some(v) => self@.contains_key(key@) && *v == self@[key@],
                None => !self@.contains_key(key@),
            },
    {
        let at = self.find(key);
        if at < self.keys.len() {
            Some(&self.values[at])
        } else {
            None
        }
    }

    /// Puts `value` under `key` and hands back what stood there before.
    pub fn insert(&mut self, key: String, value: V) -> (r: Option<V>)
        requires
            old(self).wf(),
        ensures
            final(self).wf(),
            final(self)@ == old(self)@.insert(key@, value),
            match r {
                Some(v) => old(self)@.contains_key(key@) && v == old(self)@[key@],
                None => !old(self)@.contains_key(key@),
            },
    {
        let at = self.find(key.as_str());
        let ghost keys = self.keys@;
        let ghost values = self.values@;
        if at < self.keys.len() {
            self.values.push(value);
            let before = self.values.swap_remove(at);
            proof {
                assert(self.values@ =~= values.update(at as int, value));
                lemma_position(keys, key@);
                let wanted = old(self)@.insert(key@, value);
                assert forall|k: Seq<char>| self@.contains_key(k) == wanted.contains_key(k) by {
                    lemma_position(keys, k);
                }
                assert forall|k: Seq<char>| self@.contains_key(k) implies self@[k] == wanted[k] by {
                    lemma_position(keys, k);
                    let p = position(keys, k);
                    if p == at {
                        assert(keys[at as int]@ == k);
                    }
                }
                assert(self@ =~= wanted);
            }
            Some(before)
        } else {
            self.keys.push(key);
            self.values.push(value);
            proof {
                let grown = self.keys@;
                assert forall|k: Seq<char>|
                    position(grown, k) == if position(keys, k) < keys.len() {
                        position(keys, k)
                    } else if k == key@ {
                        keys.len() as int
                    } else {
                        keys.len() as int + 1
                    } by {
                    lemma_position(keys, k);
                    let p = position(keys, k);
                    if p < keys.len() {
                        assert(grown[p] == keys[p]);
                        assert forall|j: int| 0 <= j < p implies grown[j]@ != k by {
                            assert(grown[j] == keys[j]);
                        }
                        lemma_position_at(grown, k, p);
                    } else {
                        assert forall|j: int| 0 <= j < keys.len() implies grown[j]@ != k by {
                            assert(grown[j] == keys[j]);
                        }
                        if k == key@ {
                            lemma_position_at(grown, k, keys.len() as int);
                        } else {
                            lemma_position_at(grown, k, keys.len() as int + 1);
                        }
                    }
                }
                assert(distinct(grown)) by {
                    lemma_position(keys, key@);
                    assert forall|i: int, j: int| 0 <= i < j < grown.len() implies grown[i]@
                        != grown[j]@ by {
                        assert(grown[i] == keys[i]);
                        if j < keys.len() {
                            assert(grown[j] == keys[j]);
                        }
                    }
                }
                lemma_position(keys, key@);
                let wanted = old(self)@.insert(key@, value);
                assert(self.values@ == values.push(value));
                assert forall|k: Seq<char>| self@.contains_key(k) == wanted.contains_key(k) by {
                    lemma_position(keys, k);
                }
                assert forall|k: Seq<char>| self@.contains_key(k) implies self@[k] == wanted[k] by {
                    lemma_position(keys, k);
                    let q = position(keys, k);
                    if q < keys.len() {
                        assert(self.values@[q] == values[q]);
                    }
                }
                assert(self@ =~= wanted);
            }
            None
        }
    }

    /// Takes the value under `key` out of the table, if there is one.
    pub fn remove(&mut self, key: &str) -> (r: Option<V>)
        requires
            old(self).wf(),
        ensures
            final(self).wf(),
            final(self)@ == old(self)@.remove(key@),
            match r {
                Some(v) => old(self)@.contains_key(key@) && v == old(self)@[key@],
                None => !old(self)@.contains_key(key@),
            },
    {
        let at = self.find(key);
        let ghost keys = self.keys@;
        let ghost values = self.values@;
        if at < self.keys.len() {
            self.keys.remove(at);
            let before = self.values.remove(at);
            proof {
                let fewer = self.keys@;
                assert(distinct(fewer)) by {
                    assert forall|i: int, j: int| 0 <= i < j < fewer.len() implies fewer[i]@
                        != fewer[j]@ by {
                        let a = if i < at { i } else { i + 1 };
                        let b = if j < at { j } else { j + 1 };
                        assert(fewer[i] == keys[a]);
                        assert(fewer[j] == keys[b]);
                    }
                }
                assert forall|k: Seq<char>|
                    position(fewer, k) == if position(keys, k) < at {
                        position(keys, k)
                    } else if position(keys, k) == at {
                        fewer.len() as int
                    } else {
                        position(keys, k) - 1
                    } by {
                    lemma_position(keys, k);
                    let p = position(keys, k);
                    if p < at {
                        assert(fewer[p] == keys[p]);
                        assert forall|j: int| 0 <= j < p implies fewer[j]@ != k by {
                            assert(fewer[j] == keys[j]);
                        }
                        lemma_position_at(fewer, k, p);
                    } else if p == at {
                        assert forall|j: int| 0 <= j < fewer.len() implies fewer[j]@ != k by {
                            let a = if j < at { j } else { j + 1 };
                            assert(fewer[j] == keys[a]);
                        }
                        lemma_position_at(fewer, k, fewer.len() as int);
                    } else {
                        assert forall|j: int| 0 <= j < p - 1 implies fewer[j]@ != k by {
                            let a = if j < at { j } else { j + 1 };
                            assert(fewer[j] == keys[a]);
                        }
                        if p < keys.len() {
                            assert(fewer[p - 1] == keys[p]);
                        }
                        lemma_position_at(fewer, k, p - 1);
                    }
                }
                lemma_position(keys, key@);
                let wanted = old(self)@.remove(key@);
                assert(self.values@ == values.remove(at as int));
                assert forall|k: Seq<char>| self@.contains_key(k) == wanted.contains_key(k) by {
                    lemma_position(keys, k);
                    let q = position(keys, k);
                    if q == at {
                        assert(keys[at as int]@ == k);
                    }
                }
                assert forall|k: Seq<char>| self@.contains_key(k) implies self@[k] == wanted[k] by {
                    lemma_position(keys, k);
                    let q = position(keys, k);
                    if q > at {
                        assert(self.values@[q - 1] == values[q]);
                    } else {
                        assert(self.values@[q] == values[q]);
                    }
                }
                assert(self@ =~= wanted);
            }
            Some(before)
        } else {
            proof {
                lemma_position(keys, key@);
                assert(self@ =~= old(self)@.remove(key@));
            }
            None
        }
    }

    /// Empties the table.
    pub fn clear(&mut self)
        ensures
            final(self).wf(),
            final(self)@ == Map::<Seq<char>, V>::empty(),
    {
        self.keys.clear();
        self.values.clear();
        assert(self@ =~= Map::<Seq<char>, V>::empty());
    }

    /// The keys of the table, each once.
    pub fn keys(&self) -> (r: Vec<String>)
        requires
            self.wf(),
        ensures
            r.deep_view() == self.key_list(),
            r.deep_view().no_duplicates(),
            forall|k: Seq<char>| r.deep_view().contains(k) <==> self@.contains_key(k),
    {
        proof {
            self.lemma_key_list();
        }
        crate::text::clone_strings(&self.keys)
    }
}

} // verus!
