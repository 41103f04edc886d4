//! The free-form, string-keyed fields a debt carries.
//!
//! The store keeps one binding per key, in insertion order. Lookup finds the
//! binding of a key; inserting an existing key replaces its binding and moves
//! it to the end.

use vstd::multiset::Multiset;
use vstd::prelude::*;
use vstd::seq_lib::*;
use vstd::string::*;

use crate::text::{chars_le, lemma_chars_le_total, lemma_chars_le_trans, str_le};

verus! {

/// The bindings stand in non-decreasing key order.
pub open spec fn sorted_by_keys(s: Seq<(Seq<char>, Seq<char>)>) -> bool {
    forall|i: int, j: int| 0 <= i < j < s.len() ==> chars_le(s[i].0, s[j].0)
}

/// One binding per key, insertion-ordered.
#[derive(Debug, Clone)]
pub struct CustomFields {
    entries: Vec<(String, String)>,
}

/// The binding of `key` in `s`: the value of the first pair holding it.
pub open spec fn cf_lookup(s: Seq<(Seq<char>, Seq<char>)>, key: Seq<char>) -> Option<Seq<char>>
    decreases s.len(),
{
    if s.len() == 0 {
        None
    } else if s[0].0 == key {
        Some(s[0].1)
    } else {
        cf_lookup(s.skip(1), key)
    }
}

/// `s` without any pair bound to `key`.
pub open spec fn cf_remove(s: Seq<(Seq<char>, Seq<char>)>, key: Seq<char>) -> Seq<
    (Seq<char>, Seq<char>),
>
    decreases s.len(),
{
    if s.len() == 0 {
        s
    } else if s.last().0 == key {
        cf_remove(s.drop_last(), key)
    } else {
        cf_remove(s.drop_last(), key).push(s.last())
    }
}

impl View for CustomFields {
    type V = Seq<(Seq<char>, Seq<char>)>;

    closed spec fn view(&self) -> Seq<(Seq<char>, Seq<char>)> {
        self.entries.deep_view()
    }
}

impl DeepView for CustomFields {
    type V = Seq<(Seq<char>, Seq<char>)>;

    open spec fn deep_view(&self) -> Seq<(Seq<char>, Seq<char>)> {
        self.view()
    }
}

impl CustomFields {
    /// Every key is bound at most once.
    pub open spec fn wf(&self) -> bool {
        forall|i: int, j: int| 0 <= i < j < self@.len() ==> self@[i].0 != self@[j].0
    }

    /// An empty store.
    pub fn new() -> (r: CustomFields)
        ensures
            r@ =~= Seq::<(Seq<char>, Seq<char>)>::empty(),
            r.wf(),
    {
        let r = CustomFields { entries: Vec::new() };
        proof {
            assert(r.entries.deep_view() =~= Seq::<(Seq<char>, Seq<char>)>::empty());
        }
        r
    }

    /// How many keys are bound.
    pub fn len(&self) -> (r: usize)
        ensures
            r == self@.len(),
    {
        self.entries.len()
    }

    /// Binds `key` to `value`: any earlier binding of the key is dropped and
    /// the new pair stands at the end.
    pub fn insert(&mut self, key: String, value: String)
        requires
            old(self).wf(),
        ensures
            final(self).wf(),
            final(self)@ =~= cf_remove(old(self)@, key@).push((key@, value@)),
            cf_lookup(final(self)@, key@) == Some(value@),
    {
        let ghost all = self@;
        let mut kept: Vec<(String, String)> = Vec::new();
        let mut i: usize = 0;
        while i < self.entries.len()
            invariant
                i <= self.entries.len(),
                all == self.entries.deep_view(),
                kept.deep_view() =~= cf_remove(all.take(i as int), key@),
                forall|p: int, q: int|
                    0 <= p < q < all.len() ==> #[trigger] all[p].0 != #[trigger] all[q].0,
            decreases self.entries.len() - i,
        {
            let k = self.entries[i].0.clone();
            let v = self.entries[i].1.clone();
            proof {
                assert(all.take(i + 1).drop_last() =~= all.take(i as int));
                assert(all.take(i + 1).last() == all[i as int]);
            }
            if !(k == key) {
                kept.push((k, v));
                proof {
                    assert(kept.deep_view() =~= cf_remove(all.take(i + 1), key@));
                }
            }
            i = i + 1;
        }
        proof {
            assert(all.take(all.len() as int) =~= all);
        }
        kept.push((key, value));
        proof {
            lemma_cf_remove_keeps_keys(all, key@);
            lemma_cf_remove_distinct(all, key@);
            assert(kept.deep_view() =~= cf_remove(all, key@).push((key@, value@)));
            lemma_cf_lookup_last(kept.deep_view(), key@, value@);
        }
        self.entries = kept;
    }

    /// The value bound to `key`, if any.
    pub fn get(&self, key: &str) -> (r: Option<&String>)
        ensures
            (r matches Some(v) ==> cf_lookup(self@, key@) == Some(v@)),
            (r is None ==> cf_lookup(self@, key@) is None),
    {
        let mut i: usize = 0;
        proof {
            assert(self@.skip(0) =~= self@);
        }
        while i < self.entries.len()
            invariant
                i <= self.entries.len(),
                self@.len() == self.entries.len(),
                cf_lookup(self@, key@) == cf_lookup(self@.skip(i as int), key@),
            decreases self.entries.len() - i,
        {
            if crate::text::str_eq(self.entries[i].0.as_str(), key) {
                proof {
                    assert(self@.skip(i as int)[0] == self@[i as int]);
                }
                return Some(&self.entries[i].1);
            }
            proof {
                assert(self@.skip(i as int)[0] == self@[i as int]);
                assert(self@.skip(i as int).skip(1) =~= self@.skip(i + 1));
            }
            i = i + 1;
        }
        proof {
            assert(self@.skip(i as int).len() == 0);
        }
        None
    }

    /// The bindings in order, for iteration or serialization.
    pub fn entries(&self) -> (r: &Vec<(String, String)>)
        ensures
            r.deep_view() == self@,
    {
        &self.entries
    }

    /// The same bindings in non-decreasing key order, the order a key-sorted
    /// map serializes in: equal stores serialize to equal text.
    pub fn sorted_entries(&self) -> (r: Vec<(String, String)>)
        ensures
            r.deep_view().to_multiset() == self@.to_multiset(),
            sorted_by_keys(r.deep_view()),
    {
        broadcast use vstd::seq_lib::group_to_multiset_ensures;

        let mut rest: Vec<(String, String)> = Vec::new();
        let mut i: usize = 0;
        proof {
            assert(rest.deep_view() =~= self@.take(0));
        }
        while i < self.entries.len()
            invariant
                i <= self.entries.len(),
                self@ == self.entries.deep_view(),
                self@.len() == self.entries.len(),
                rest.deep_view() =~= self@.take(i as int),
            decreases self.entries.len() - i,
        {
            let k = self.entries[i].0.clone();
            let v = self.entries[i].1.clone();
            let ghost prev = rest.deep_view();
            rest.push((k, v));
            proof {
                assert(prev.len() == i as int);
                assert(rest.deep_view().len() == i + 1);
                assert(self@.take(i + 1).len() == i + 1);
                assert(rest.deep_view()[i as int] == self@[i as int]);
                assert forall|t: int| 0 <= t < i + 1 implies rest.deep_view()[t] == self@.take(
                    i + 1,
                )[t] by {
                    if t < i as int {
                        assert(rest.deep_view()[t] == prev[t]);
                        assert(prev[t] == self@.take(i as int)[t]);
                    }
                }
                assert(rest.deep_view() =~= self@.take(i + 1));
            }
            i = i + 1;
        }
        proof {
            assert(self@.take(self@.len() as int) =~= self@);
        }
        let mut out: Vec<(String, String)> = Vec::new();
        proof {
            assert(out.deep_view().to_multiset().add(rest.deep_view().to_multiset()) =~= self@.to_multiset());
        }
        while rest.len() > 0
            invariant
                rest.deep_view().len() == rest.len(),
                out.deep_view().len() == out.len(),
                out.deep_view().to_multiset().add(rest.deep_view().to_multiset())
                    == self@.to_multiset(),
                sorted_by_keys(out.deep_view()),
                forall|p: int, q: int|
                    0 <= p < out.deep_view().len() && 0 <= q < rest.deep_view().len()
                        ==> chars_le(
                        (#[trigger] out.deep_view()[p]).0,
                        (#[trigger] rest.deep_view()[q]).0,
                    ),
            decreases rest.len(),
        {
            broadcast use vstd::seq_lib::group_to_multiset_ensures;

            let m = min_key_index(&rest);
            let ghost old_rest = rest.deep_view();
            let ghost old_out = out.deep_view();
            let e = rest.remove(m);
            proof {
                assert((e.0@, e.1@) == old_rest[m as int]);
                assert(rest.deep_view() =~= old_rest.remove(m as int));
                assert(old_rest.remove(m as int).to_multiset() =~= old_rest.to_multiset().remove(
                    old_rest[m as int],
                ));
                assert(old_rest.contains(old_rest[m as int]));
                assert(old_rest.to_multiset().count(old_rest[m as int]) > 0);
            }
            out.push(e);
            proof {
                assert(out.deep_view() =~= old_out.push(old_rest[m as int]));
                assert(old_out.push(old_rest[m as int]).to_multiset() =~= old_out.to_multiset()
                    .insert(old_rest[m as int]));
                assert(out.deep_view().to_multiset().add(rest.deep_view().to_multiset())
                    =~= old_out.to_multiset().add(old_rest.to_multiset()));
                assert forall|p: int, q: int|
                    0 <= p < out.deep_view().len() && 0 <= q < rest.deep_view().len() implies
                    chars_le(
                    (#[trigger] out.deep_view()[p]).0,
                    (#[trigger] rest.deep_view()[q]).0,
                ) by {
                    let rq = rest.deep_view()[q];
                    assert(rq == if q < m as int {
                        old_rest[q]
                    } else {
                        old_rest[q + 1]
                    });
                    if p < out.deep_view().len() - 1 {
                        assert(out.deep_view()[p] == old_out[p]);
                    } else {
                        assert(out.deep_view()[p] == old_rest[m as int]);
                    }
                }
                assert(sorted_by_keys(out.deep_view())) by {
                    assert forall|p: int, q: int|
                        0 <= p < q < out.deep_view().len() implies chars_le(
                        out.deep_view()[p].0,
                        out.deep_view()[q].0,
                    ) by {
                        if q < out.deep_view().len() - 1 {
                            assert(out.deep_view()[p] == old_out[p]);
                            assert(out.deep_view()[q] == old_out[q]);
                        } else {
                            assert(out.deep_view()[p] == old_out[p]);
                            assert(out.deep_view()[q] == old_rest[m as int]);
                        }
                    }
                }
            }
        }
        proof {
            assert(rest.deep_view() =~= Seq::<(Seq<char>, Seq<char>)>::empty());
            assert(rest.deep_view().to_multiset() =~= Multiset::<(Seq<char>, Seq<char>)>::empty());
            assert(out.deep_view().to_multiset() =~= self@.to_multiset());
        }
        out
    }
}

/// The index of a binding whose key is least, in code-point order.
fn min_key_index(v: &Vec<(String, String)>) -> (m: usize)
    requires
        v@.len() > 0,
    ensures
        m < v.deep_view().len(),
        forall|j: int|
            0 <= j < v.deep_view().len() ==> chars_le(
                v.deep_view()[m as int].0,
                (#[trigger] v.deep_view()[j]).0,
            ),
{
    let mut m: usize = 0;
    let mut j: usize = 1;
    proof {
        lemma_chars_le_total(v.deep_view()[0].0, v.deep_view()[0].0);
    }
    while j < v.len()
        invariant
            m < j <= v.len(),
            v.deep_view().len() == v.len(),
            forall|t: int|
                0 <= t < j ==> chars_le(
                    v.deep_view()[m as int].0,
                    (#[trigger] v.deep_view()[t]).0,
                ),
        decreases v.len() - j,
    {
        if str_le(v[j].0.as_str(), v[m].0.as_str()) {
            proof {
                let dv = v.deep_view();
                lemma_chars_le_total(dv[j as int].0, dv[j as int].0);
                assert forall|t: int| 0 <= t < j implies chars_le(
                    dv[j as int].0,
                    (#[trigger] dv[t]).0,
                ) by {
                    lemma_chars_le_trans(dv[j as int].0, dv[m as int].0, dv[t].0);
                }
            }
            m = j;
        } else {
            proof {
                lemma_chars_le_total(v.deep_view()[m as int].0, v.deep_view()[j as int].0);
            }
        }
        j = j + 1;
    }
    m
}

/// Removing a key binds no new keys: any key bound afterwards was bound
/// before, under the same first value, unless it is the removed key.
proof fn lemma_cf_remove_keeps_keys(s: Seq<(Seq<char>, Seq<char>)>, key: Seq<char>)
    ensures
        forall|i: int|
            0 <= i < cf_remove(s, key).len() ==> #[trigger] cf_remove(s, key)[i].0 != key,
        forall|i: int|
            0 <= i < cf_remove(s, key).len() ==> exists|j: int|
                0 <= j < s.len() && s[j] == #[trigger] cf_remove(s, key)[i],
    decreases s.len(),
{
    if s.len() > 0 {
        lemma_cf_remove_keeps_keys(s.drop_last(), key);
        assert forall|i: int| 0 <= i < cf_remove(s, key).len() implies #[trigger] cf_remove(
            s,
            key,
        )[i].0 != key by {
            if s.last().0 == key {
                assert(cf_remove(s, key)[i] == cf_remove(s.drop_last(), key)[i]);
            } else {
                if i < cf_remove(s, key).len() - 1 {
                    assert(cf_remove(s, key)[i] == cf_remove(s.drop_last(), key)[i]);
                } else {
                    assert(cf_remove(s, key)[i] == s.last());
                }
            }
        }
        assert forall|i: int| 0 <= i < cf_remove(s, key).len() implies exists|j: int|
            0 <= j < s.len() && s[j] == #[trigger] cf_remove(s, key)[i] by {
            if s.last().0 == key {
                let j = choose|j: int|
                    0 <= j < s.drop_last().len() && s.drop_last()[j] == cf_remove(
                        s.drop_last(),
                        key,
                    )[i];
                assert(s[j] == cf_remove(s, key)[i]);
            } else {
                if i < cf_remove(s, key).len() - 1 {
                    let j = choose|j: int|
                        0 <= j < s.drop_last().len() && s.drop_last()[j] == cf_remove(
                            s.drop_last(),
                            key,
                        )[i];
                    assert(s[j] == cf_remove(s, key)[i]);
                } else {
                    assert(s[s.len() - 1] == cf_remove(s, key)[i]);
                }
            }
        }
    }
}

/// Removing a key from a store with distinct keys keeps the keys distinct.
proof fn lemma_cf_remove_distinct(s: Seq<(Seq<char>, Seq<char>)>, key: Seq<char>)
    requires
        forall|p: int, q: int| 0 <= p < q < s.len() ==> #[trigger] s[p].0 != #[trigger] s[q].0,
    ensures
        forall|p: int, q: int|
            0 <= p < q < cf_remove(s, key).len() ==> #[trigger] cf_remove(s, key)[p].0
                != #[trigger] cf_remove(s, key)[q].0,
    decreases s.len(),
{
    if s.len() > 0 {
        lemma_cf_remove_distinct(s.drop_last(), key);
        lemma_cf_remove_keeps_keys(s.drop_last(), key);
        if s.last().0 != key {
            let r = cf_remove(s, key);
            assert forall|p: int, q: int| 0 <= p < q < r.len() implies #[trigger] r[p].0
                != #[trigger] r[q].0 by {
                if q == r.len() - 1 {
                    let j = choose|j: int|
                        0 <= j < s.drop_last().len() && s.drop_last()[j] == cf_remove(
                            s.drop_last(),
                            key,
                        )[p];
                    assert(s[j].0 != s.last().0);
                }
            }
        }
    }
}

/// In a store whose keys are distinct and where only the last pair holds
/// `key`, looking the key up yields that pair's value.
proof fn lemma_cf_lookup_last(s: Seq<(Seq<char>, Seq<char>)>, key: Seq<char>, value: Seq<char>)
    requires
        s.len() > 0,
        s.last() == (key, value),
        forall|i: int| 0 <= i < s.len() - 1 ==> #[trigger] s[i].0 != key,
    ensures
        cf_lookup(s, key) == Some(value),
    decreases s.len(),
{
    if s.len() == 1 {
        assert(s[0] == (key, value));
    } else {
        assert(s[0].0 != key);
        assert(s.skip(1).last() == (key, value));
        assert forall|i: int| 0 <= i < s.skip(1).len() - 1 implies #[trigger] s.skip(1)[i].0
            != key by {
            assert(s.skip(1)[i] == s[i + 1]);
        }
        lemma_cf_lookup_last(s.skip(1), key, value);
    }
}

} // verus!
