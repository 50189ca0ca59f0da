//! Header map: a mapping from header name to header value in which names
//! are compared after ASCII case folding, so `Content-Type` and
//! `content-type` are one key. Keys are unique; inserting a name that is
//! already present (up to case) overwrites the prior entry. Insertion order
//! of distinct names is preserved for iteration, but carries no meaning.

use vstd::prelude::*;

use crate::chars::{eq_fold, lower_seq};

verus! {

/// One header entry: a name and a value, both plain text.
#[derive(Debug)]
pub struct HeaderEntry {
    pub name: String,
    pub value: String,
}

impl View for HeaderEntry {
    type V = (Seq<char>, Seq<char>);

    open spec fn view(&self) -> (Seq<char>, Seq<char>) {
        (self.name@, self.value@)
    }
}

/// Whether some entry of `s` has `k` as its case-folded name.
pub open spec fn has_name(s: Seq<(Seq<char>, Seq<char>)>, k: Seq<char>) -> bool {
    exists|i: int| 0 <= i < s.len() && lower_seq((#[trigger] s[i]).0) == k
}

/// The index of the entry of `s` whose case-folded name is `k`; meaningful
/// when such an entry exists and the names of `s` are distinct.
pub open spec fn idx_of(s: Seq<(Seq<char>, Seq<char>)>, k: Seq<char>) -> int {
    choose|i: int| 0 <= i < s.len() && lower_seq((#[trigger] s[i]).0) == k
}

/// No two entries of `s` share a case-folded name.
pub open spec fn distinct_names(s: Seq<(Seq<char>, Seq<char>)>) -> bool {
    forall|i: int, j: int|
        0 <= i < j < s.len() ==> lower_seq((#[trigger] s[i]).0) != lower_seq((#[trigger] s[j]).0)
}

/// What inserting `(name, value)` into the entry sequence `s` yields:
/// the entry with the same case-folded name is replaced if one exists,
/// otherwise the pair is appended.
pub open spec fn insert_model(
    s: Seq<(Seq<char>, Seq<char>)>,
    name: Seq<char>,
    value: Seq<char>,
) -> Seq<(Seq<char>, Seq<char>)> {
    if has_name(s, lower_seq(name)) {
        s.update(idx_of(s, lower_seq(name)), (name, value))
    } else {
        s.push((name, value))
    }
}

/// A header map. Its view is the sequence of `(name, value)` entries in
/// insertion order; well-formedness says the case-folded names are unique.
#[derive(Debug)]
pub struct Headers {
    entries: Vec<HeaderEntry>,
}

impl View for Headers {
    type V = Seq<(Seq<char>, Seq<char>)>;

    closed spec fn view(&self) -> Seq<(Seq<char>, Seq<char>)> {
        self.entries@.map_values(|e: HeaderEntry| e@)
    }
}

impl Headers {
    /// Well-formedness: no two entries share a case-folded name.
    pub open spec fn wf(self) -> bool {
        distinct_names(self@)
    }

    /// An empty header map.
    pub fn new() -> (h: Headers)
        ensures
            h@ == Seq::<(Seq<char>, Seq<char>)>::empty(),
            h.wf(),
    {
        let h = Headers { entries: Vec::new() };
        proof {
            assert(h@ =~= Seq::<(Seq<char>, Seq<char>)>::empty());
        }
        h
    }

    /// How many entries the map holds.
    pub fn len(&self) -> (n: usize)
        ensures
            n == self@.len(),
    {
        self.entries.len()
    }

    /// The name of the entry at position `i`, in insertion order.
    pub fn name_at(&self, i: usize) -> (r: &String)
        requires
            i < self@.len(),
        ensures
            r@ == self@[i as int].0,
    {
        &self.entries[i].name
    }

    /// The value of the entry at position `i`, in insertion order.
    pub fn value_at(&self, i: usize) -> (r: &String)
        requires
            i < self@.len(),
        ensures
            r@ == self@[i as int].1,
    {
        &self.entries[i].value
    }

    /// Inserts a header. If an entry with the same case-folded name exists
    /// it is overwritten (last write wins); otherwise the entry is appended.
    /// Either way, case-folded names stay unique.
    pub fn insert(&mut self, name: String, value: String)
        requires
            old(self).wf(),
        ensures
            final(self).wf(),
            final(self)@ == insert_model(old(self)@, name@, value@),
    {
        let ghost k = lower_seq(name@);
        let n = self.entries.len();
        let mut i: usize = 0;
        while i < n
            invariant
                i <= n,
                n == self.entries@.len(),
                *self == *old(self),
                old(self).wf(),
                k == lower_seq(name@),
                forall|j: int| 0 <= j < i ==> lower_seq((#[trigger] self@[j]).0) != k,
            decreases n - i,
        {
            assert(self@[i as int] == self.entries@[i as int]@);
            if eq_fold(self.entries[i].name.as_str(), name.as_str()) {
                assert(lower_seq(self@[i as int].0) == k);
                let e = HeaderEntry { name, value };
                self.entries.remove(i);
                self.entries.insert(i, e);
                proof {
                    assert(has_name(old(self)@, k));
                    let w = idx_of(old(self)@, k);
                    assert(0 <= w < old(self)@.len() && lower_seq(old(self)@[w].0) == k);
                    assert(w == i as int) by {
                        if w != i as int {
                            assert(distinct_names(old(self)@));
                        }
                    }
                    assert(self@ =~= old(self)@.update(i as int, (name@, value@)));
                    assert forall|p: int, q: int|
                        0 <= p < q < self@.len() implies lower_seq(self@[p].0) != lower_seq(
                        self@[q].0,
                    ) by {
                        assert(distinct_names(old(self)@));
                        assert(lower_seq(old(self)@[p].0) != lower_seq(old(self)@[q].0));
                    }
                }
                return ;
            }
            i = i + 1;
        }
        self.entries.push(HeaderEntry { name, value });
        proof {
            assert(!has_name(old(self)@, k));
            assert(self@ =~= old(self)@.push((name@, value@)));
            assert forall|p: int, q: int|
                0 <= p < q < self@.len() implies lower_seq(self@[p].0) != lower_seq(
                self@[q].0,
            ) by {
                if q < self@.len() - 1 {
                    assert(lower_seq(old(self)@[p].0) != lower_seq(old(self)@[q].0));
                } else {
                    assert(!(0 <= p < old(self)@.len() && lower_seq(old(self)@[p].0) == k));
                }
            }
        }
    }

    /// Looks a header up by name, folding ASCII case; returns the value of
    /// the unique matching entry, if any.
    pub fn get(&self, name: &str) -> (r: Option<&String>)
        requires
            self.wf(),
        ensures
            match r {
                Some(v) => has_name(self@, lower_seq(name@)) && v@ == self@[idx_of(
                    self@,
                    lower_seq(name@),
                )].1,
                None => !has_name(self@, lower_seq(name@)),
            },
    {
        let ghost k = lower_seq(name@);
        let n = self.entries.len();
        let mut i: usize = 0;
        while i < n
            invariant
                i <= n,
                n == self.entries@.len(),
                self.wf(),
                k == lower_seq(name@),
                forall|j: int| 0 <= j < i ==> lower_seq((#[trigger] self@[j]).0) != k,
            decreases n - i,
        {
            assert(self@[i as int] == self.entries@[i as int]@);
            if eq_fold(self.entries[i].name.as_str(), name) {
                assert(lower_seq(self@[i as int].0) == k);
                proof {
                    let w = idx_of(self@, k);
                    assert(0 <= w < self@.len() && lower_seq(self@[w].0) == k);
                    assert(w == i as int) by {
                        if w != i as int {
                            assert(distinct_names(self@));
                        }
                    }
                }
                return Some(&self.entries[i].value);
            }
            i = i + 1;
        }
        None
    }

    /// Builds a header map from raw `(name, value)` pairs, first to last,
    /// with each pair inserted as by `insert`: a later pair whose
    /// case-folded name repeats an earlier one overwrites it.
    pub fn from_pairs(pairs: Vec<HeaderEntry>) -> (h: Headers)
        ensures
            h.wf(),
            h@ == collected(pairs@.map_values(|e: HeaderEntry| e@)),
    {
        let ghost ps = pairs@.map_values(|e: HeaderEntry| e@);
        let mut h = Headers::new();
        let n = pairs.len();
        let mut i: usize = 0;
        proof {
            assert(ps.take(0) =~= Seq::<(Seq<char>, Seq<char>)>::empty());
        }
        while i < n
            invariant
                i <= n,
                n == pairs@.len(),
                ps == pairs@.map_values(|e: HeaderEntry| e@),
                h.wf(),
                h@ == collected(ps.take(i as int)),
            decreases n - i,
        {
            let name = pairs[i].name.clone();
            let value = pairs[i].value.clone();
            h.insert(name, value);
            proof {
                assert(ps.take(i as int + 1).drop_last() =~= ps.take(i as int));
                assert(ps.take(i as int + 1).last() == ps[i as int]);
            }
            i = i + 1;
        }
        proof {
            assert(ps.take(n as int) =~= ps);
        }
        h
    }

    /// A copy of this header map with the same entries.
    pub fn duplicate(&self) -> (h: Headers)
        ensures
            h@ == self@,
            h.wf() == self.wf(),
    {
        let mut entries: Vec<HeaderEntry> = Vec::new();
        let n = self.entries.len();
        let mut i: usize = 0;
        while i < n
            invariant
                i <= n,
                n == self.entries@.len(),
                entries@.len() == i,
                forall|j: int| 0 <= j < i ==> (#[trigger] entries@[j])@ == self@[j],
            decreases n - i,
        {
            let e = HeaderEntry {
                name: self.entries[i].name.clone(),
                value: self.entries[i].value.clone(),
            };
            entries.push(e);
            i = i + 1;
        }
        let h = Headers { entries };
        proof {
            assert(h@ =~= self@);
        }
        h
    }
}

/// Inserting acts on lookups like a map write: afterwards the inserted
/// name (up to ASCII case) is present and carries the new value — a later
/// write to the same name wins — while every other name is present exactly
/// as before, with its value untouched.
pub proof fn lemma_insert_last_write_wins(
    s: Seq<(Seq<char>, Seq<char>)>,
    name: Seq<char>,
    value: Seq<char>,
    k: Seq<char>,
)
    requires
        distinct_names(s),
    ensures
        ({
            let t = insert_model(s, name, value);
            &&& (k == lower_seq(name) ==> has_name(t, k) && t[idx_of(t, k)] == (name, value))
            &&& (k != lower_seq(name) ==> has_name(t, k) == has_name(s, k))
            &&& (k != lower_seq(name) && has_name(s, k) ==> t[idx_of(t, k)] == s[idx_of(s, k)])
        }),
{
    let key = lower_seq(name);
    let t = insert_model(s, name, value);
    if has_name(s, key) {
        let i = idx_of(s, key);
        assert(0 <= i < s.len() && lower_seq(s[i].0) == key);
        assert(t == s.update(i, (name, value)));
        if k == key {
            assert(lower_seq(t[i].0) == k);
            assert(has_name(t, k));
            let j = idx_of(t, k);
            assert(0 <= j < t.len() && lower_seq(t[j].0) == k);
            if j != i {
                assert(t[j] == s[j]);
                assert(false);
            }
        } else {
            if has_name(s, k) {
                let j = idx_of(s, k);
                assert(0 <= j < s.len() && lower_seq(s[j].0) == k);
                assert(j != i);
                assert(t[j] == s[j]);
                assert(lower_seq(t[j].0) == k);
                assert(has_name(t, k));
                let j2 = idx_of(t, k);
                assert(0 <= j2 < t.len() && lower_seq(t[j2].0) == k);
                if j2 == i {
                    assert(false);
                }
                if j2 != j {
                    assert(t[j2] == s[j2]);
                    assert(false);
                }
            }
            if has_name(t, k) {
                let j = idx_of(t, k);
                assert(0 <= j < t.len() && lower_seq(t[j].0) == k);
                if j == i {
                    assert(false);
                }
                assert(t[j] == s[j]);
                assert(has_name(s, k));
            }
        }
    } else {
        assert(t == s.push((name, value)));
        let last = s.len() as int;
        if k == key {
            assert(t[last] == (name, value));
            assert(lower_seq(t[last].0) == k);
            assert(has_name(t, k));
            let j = idx_of(t, k);
            assert(0 <= j < t.len() && lower_seq(t[j].0) == k);
            if j != last {
                assert(t[j] == s[j]);
                assert(has_name(s, key));
                assert(false);
            }
        } else {
            if has_name(s, k) {
                let j = idx_of(s, k);
                assert(0 <= j < s.len() && lower_seq(s[j].0) == k);
                assert(t[j] == s[j]);
                assert(lower_seq(t[j].0) == k);
                assert(has_name(t, k));
                let j2 = idx_of(t, k);
                assert(0 <= j2 < t.len() && lower_seq(t[j2].0) == k);
                if j2 == last {
                    assert(false);
                }
                if j2 != j {
                    assert(t[j2] == s[j2]);
                    assert(false);
                }
            }
            if has_name(t, k) {
                let j = idx_of(t, k);
                assert(0 <= j < t.len() && lower_seq(t[j].0) == k);
                if j == last {
                    assert(false);
                }
                assert(t[j] == s[j]);
                assert(has_name(s, k));
            }
        }
    }
}

/// The header map, as an entry sequence, that collecting the raw pairs `s`
/// one by one produces: each pair inserted with last-write-wins on the
/// case-folded name.
pub open spec fn collected(s: Seq<(Seq<char>, Seq<char>)>) -> Seq<(Seq<char>, Seq<char>)>
    decreases s.len(),
{
    if s.len() == 0 {
        Seq::empty()
    } else {
        insert_model(collected(s.drop_last()), s.last().0, s.last().1)
    }
}

} // verus!
