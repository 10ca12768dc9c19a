//! A table from names to values that keeps the order of first insertion.
use crate::duplicate::Duplicate;
use crate::text::{same, view_opt};
use vstd::prelude::*;

verus! {

/// The value that a list of rows gives for a key.
pub open spec fn lookup<V>(s: Seq<(Seq<char>, V)>, k: Seq<char>) -> Option<V>
    decreases s.len(),
{
    if s.len() == 0 {
        None
    } else if s.last().0 == k {
        Some(s.last().1)
    } else {
        lookup(s.drop_last(), k)
    }
}

/// The rows with the value for `k` replaced in place, or a new row at the end.
pub open spec fn upsert<V>(s: Seq<(Seq<char>, V)>, k: Seq<char>, v: V) -> Seq<(Seq<char>, V)>
    decreases s.len(),
{
    if s.len() == 0 {
        seq![(k, v)]
    } else if s[0].0 == k {
        s.update(0, (k, v))
    } else {
        seq![s[0]] + upsert(s.drop_first(), k, v)
    }
}

/// No two rows have the same key.
pub open spec fn distinct<V>(s: Seq<(Seq<char>, V)>) -> bool {
    forall|i: int, j: int| 0 <= i < j < s.len() ==> s[i].0 != s[j].0
}

/// Some row has the key.
pub open spec fn has_key<V>(s: Seq<(Seq<char>, V)>, k: Seq<char>) -> bool {
    exists|i: int| 0 <= i < s.len() && (#[trigger] s[i]).0 == k
}

/// The row at `i` decides the value of its key.
pub proof fn lookup_at<V>(s: Seq<(Seq<char>, V)>, i: int)
    requires
        distinct(s),
        0 <= i < s.len(),
    ensures
        lookup(s, s[i].0) == Some(s[i].1),
    decreases s.len(),
{
    if i < s.len() - 1 {
        lookup_at(s.drop_last(), i);
    }
}

/// A key without a row has no value.
pub proof fn lookup_absent<V>(s: Seq<(Seq<char>, V)>, k: Seq<char>)
    requires
        !has_key(s, k),
    ensures
        lookup(s, k) is None,
    decreases s.len(),
{
    if s.len() > 0 {
        assert(s[s.len() - 1].0 != k);
        assert(!has_key(s.drop_last(), k)) by {
            if has_key(s.drop_last(), k) {
                let i = choose|i: int|
                    0 <= i < s.drop_last().len() && (#[trigger] s.drop_last()[i]).0 == k;
                assert(s[i].0 == k);
            }
        }
        lookup_absent(s.drop_last(), k);
    }
}

/// A key with a row has a value.
pub proof fn lookup_present<V>(s: Seq<(Seq<char>, V)>, k: Seq<char>)
    ensures
        lookup(s, k) is Some == has_key(s, k),
    decreases s.len(),
{
    if !has_key(s, k) {
        lookup_absent(s, k);
    } else if s.last().0 != k {
        let i = choose|i: int| 0 <= i < s.len() && (#[trigger] s[i]).0 == k;
        assert(s.drop_last()[i].0 == k);
        lookup_present(s.drop_last(), k);
    }
}

/// Replacing the row of a key in place is an upsert.
pub proof fn upsert_at<V>(s: Seq<(Seq<char>, V)>, i: int, v: V)
    requires
        distinct(s),
        0 <= i < s.len(),
    ensures
        upsert(s, s[i].0, v) == s.update(i, (s[i].0, v)),
    decreases s.len(),
{
    if i > 0 {
        let t = s.drop_first();
        assert(t[i - 1] == s[i]);
        assert(s[0].0 != s[i].0);
        assert(distinct(t)) by {
            assert forall|a: int, b: int| 0 <= a < b < t.len() implies t[a].0 != t[b].0 by {
                assert(s[a + 1].0 != s[b + 1].0);
            }
        }
        upsert_at(t, i - 1, v);
        assert(seq![s[0]] + t.update(i - 1, (s[i].0, v)) =~= s.update(i, (s[i].0, v)));
    }
}

/// Adding a row for a new key at the end is an upsert.
pub proof fn upsert_new<V>(s: Seq<(Seq<char>, V)>, k: Seq<char>, v: V)
    requires
        !has_key(s, k),
    ensures
        upsert(s, k, v) == s.push((k, v)),
    decreases s.len(),
{
    if s.len() == 0 {
        assert(upsert(s, k, v) =~= s.push((k, v)));
    } else {
        assert(s[0].0 != k);
        let t = s.drop_first();
        assert(!has_key(t, k)) by {
            if has_key(t, k) {
                let i = choose|i: int| 0 <= i < t.len() && (#[trigger] t[i]).0 == k;
                assert(s[i + 1].0 == k);
            }
        }
        upsert_new(t, k, v);
        assert(seq![s[0]] + t.push((k, v)) =~= s.push((k, v)));
    }
}

/// After an upsert the key has the new value, every other key has what it had,
/// and the rows stay distinct.
pub proof fn upsert_lookup<V>(s: Seq<(Seq<char>, V)>, k: Seq<char>, v: V, other: Seq<char>)
    requires
        distinct(s),
    ensures
        distinct(upsert(s, k, v)),
        lookup(upsert(s, k, v), k) == Some(v),
        other != k ==> lookup(upsert(s, k, v), other) == lookup(s, other),
{
    if has_key(s, k) {
        let i = choose|i: int| 0 <= i < s.len() && (#[trigger] s[i]).0 == k;
        upsert_at(s, i, v);
        let t = s.update(i, (k, v));
        assert(distinct(t)) by {
            assert forall|a: int, b: int| 0 <= a < b < t.len() implies t[a].0 != t[b].0 by {
                assert(s[a].0 != s[b].0);
            }
        }
        lookup_at(t, i);
        if other != k {
            if has_key(s, other) {
                let j = choose|j: int| 0 <= j < s.len() && (#[trigger] s[j]).0 == other;
                assert(t[j] == s[j]);
                lookup_at(t, j);
                lookup_at(s, j);
            } else {
                assert(!has_key(t, other)) by {
                    if has_key(t, other) {
                        let j = choose|j: int| 0 <= j < t.len() && (#[trigger] t[j]).0 == other;
                        assert(s[j].0 == other);
                    }
                }
                lookup_absent(t, other);
                lookup_absent(s, other);
            }
        }
    } else {
        upsert_new(s, k, v);
        let t = s.push((k, v));
        assert(t.drop_last() =~= s);
        assert(distinct(t)) by {
            assert forall|a: int, b: int| 0 <= a < b < t.len() implies t[a].0 != t[b].0 by {
                if b < s.len() {
                    assert(s[a].0 != s[b].0);
                } else {
                    assert(s[a].0 != k);
                }
            }
        }
    }
}

/// Removing the row of a key takes its value away and no other.
pub proof fn remove_lookup<V>(s: Seq<(Seq<char>, V)>, i: int, other: Seq<char>)
    requires
        distinct(s),
        0 <= i < s.len(),
    ensures
        distinct(s.remove(i)),
        lookup(s.remove(i), s[i].0) is None,
        other != s[i].0 ==> lookup(s.remove(i), other) == lookup(s, other),
{
    let t = s.remove(i);
    let k = s[i].0;
    assert(distinct(t)) by {
        assert forall|a: int, b: int| 0 <= a < b < t.len() implies t[a].0 != t[b].0 by {
            let a2 = if a < i { a } else { a + 1 };
            let b2 = if b < i { b } else { b + 1 };
            assert(t[a] == s[a2]);
            assert(t[b] == s[b2]);
            assert(s[a2].0 != s[b2].0);
        }
    }
    assert(!has_key(t, k)) by {
        if has_key(t, k) {
            let j = choose|j: int| 0 <= j < t.len() && (#[trigger] t[j]).0 == k;
            let j2 = if j < i { j } else { j + 1 };
            assert(t[j] == s[j2]);
            if j2 < i {
                assert(s[j2].0 != s[i].0);
            } else {
                assert(s[i].0 != s[j2].0);
            }
        }
    }
    lookup_absent(t, k);
    if other != k {
        if has_key(s, other) {
            let j = choose|j: int| 0 <= j < s.len() && (#[trigger] s[j]).0 == other;
            let j2 = if j < i { j } else { j - 1 };
            assert(t[j2] == s[j]);
            lookup_at(t, j2);
            lookup_at(s, j);
        } else {
            assert(!has_key(t, other)) by {
                if has_key(t, other) {
                    let j = choose|j: int| 0 <= j < t.len() && (#[trigger] t[j]).0 == other;
                    let j2 = if j < i { j } else { j + 1 };
                    assert(s[j2].0 == other);
                }
            }
            lookup_absent(t, other);
            lookup_absent(s, other);
        }
    }
}

/// The rows with each value replaced by its view.
pub open spec fn rows_view<V: View>(s: Seq<(Seq<char>, V)>) -> Seq<(Seq<char>, V::V)> {
    Seq::new(s.len(), |i: int| (s[i].0, s[i].1@))
}

/// Looking up and taking the view can be done in either order.
pub proof fn lookup_view<V: View>(s: Seq<(Seq<char>, V)>, k: Seq<char>)
    ensures
        lookup(rows_view(s), k) == view_opt(lookup(s, k)),
    decreases s.len(),
{
    if s.len() > 0 {
        lookup_view(s.drop_last(), k);
        assert(rows_view(s).drop_last() =~= rows_view(s.drop_last()));
    }
}

/// Setting a value and taking the view can be done in either order.
pub proof fn upsert_view<V: View>(s: Seq<(Seq<char>, V)>, k: Seq<char>, v: V)
    ensures
        rows_view(upsert(s, k, v)) == upsert(rows_view(s), k, v@),
    decreases s.len(),
{
    if s.len() == 0 || s[0].0 == k {
        assert(rows_view(upsert(s, k, v)) =~= upsert(rows_view(s), k, v@));
    } else {
        upsert_view(s.drop_first(), k, v);
        assert(rows_view(s).drop_first() =~= rows_view(s.drop_first()));
        assert(rows_view(upsert(s, k, v)) =~= upsert(rows_view(s), k, v@));
    }
}

/// Rows of a name and a value, in the order in which the names first came.
pub struct Table<V> {
    rows: Vec<(String, V)>,
}

impl<V> View for Table<V> {
    type V = Seq<(Seq<char>, V)>;

    closed spec fn view(&self) -> Seq<(Seq<char>, V)> {
        Seq::new(self.rows@.len(), |i: int| (self.rows@[i].0@, self.rows@[i].1))
    }
}

impl<V> Table<V> {
    /// The names are distinct.
    pub open spec fn wf(self) -> bool {
        distinct(self@)
    }

    /// The value under a name.
    pub open spec fn value(self, k: Seq<char>) -> Option<V> {
        lookup(self@, k)
    }

    /// A table without rows.
    pub fn new() -> (r: Table<V>)
        ensures
            r@ == Seq::<(Seq<char>, V)>::empty(),
            r.wf(),
    {
        let r = Table { rows: Vec::new() };
        assert(r@ =~= Seq::<(Seq<char>, V)>::empty());
        r
    }

    /// The number of rows.
    pub fn len(&self) -> (r: usize)
        ensures
            r == self@.len(),
    {
        self.rows.len()
    }

    /// The name in a row.
    pub fn key(&self, i: usize) -> (r: &String)
        requires
            i < self@.len(),
        ensures
            r@ == self@[i as int].0,
    {
        &self.rows[i].0
    }

    /// The value in a row.
    pub fn at(&self, i: usize) -> (r: &V)
        requires
            i < self@.len(),
        ensures
            *r == self@[i as int].1,
    {
        &self.rows[i].1
    }

    /// The row of a name.
    pub fn position(&self, k: &str) -> (r: Option<usize>)
        ensures
            match r {
                Some(i) => i < self@.len() && self@[i as int].0 == k@,
                None => !has_key(self@, k@),
            },
    {
        let mut i: usize = 0;
        while i < self.rows.len()
            invariant
                i <= self.rows@.len(),
                forall|j: int| 0 <= j < i ==> (#[trigger] self@[j]).0 != k@,
            decreases self.rows@.len() - i,
        {
            if same(&self.rows[i].0, k) {
                return Some(i);
            }
            i = i + 1;
        }
        None
    }

    /// Whether there is a row of the name.
    pub fn contains(&self, k: &str) -> (r: bool)
        requires
            self.wf(),
        ensures
            r == self.value(k@) is Some,
    {
        proof {
            lookup_present(self@, k@);
        }
        self.position(k).is_some()
    }

    /// The value under a name.
    pub fn get(&self, k: &str) -> (r: Option<&V>)
        requires
            self.wf(),
        ensures
            match r {
                Some(v) => self.value(k@) == Some(*v),
                None => self.value(k@) is None,
            },
    {
        match self.position(k) {
            Some(i) => {
                proof {
                    lookup_at(self@, i as int);
                }
                Some(&self.rows[i].1)
            },
            None => {
                proof {
                    lookup_absent(self@, k@);
                }
                None
            },
        }
    }

    /// Puts a value under a name, in place where the name is there already.
    pub fn insert(&mut self, k: String, v: V)
        requires
            old(self).wf(),
        ensures
            final(self)@ == upsert(old(self)@, k@, v),
            final(self).wf(),
            final(self).value(k@) == Some(v),
            forall|o: Seq<char>| o != k@ ==> final(self).value(o) == old(self).value(o),
    {
        let ghost before = self@;
        proof {
            assert forall|o: Seq<char>| #![trigger lookup(upsert(before, k@, v), o)]
                distinct(upsert(before, k@, v)) && lookup(upsert(before, k@, v), k@) == Some(v) && (
                o != k@ ==> lookup(upsert(before, k@, v), o) == lookup(before, o)) by {
                upsert_lookup(before, k@, v, o);
            }
            upsert_lookup(before, k@, v, k@);
        }
        match self.position(k.as_str()) {
            Some(i) => {
                proof {
                    upsert_at(before, i as int, v);
                }
                self.rows.set(i, (k, v));
                assert(self@ =~= upsert(before, k@, v));
            },
            None => {
                proof {
                    upsert_new(before, k@, v);
                }
                self.rows.push((k, v));
                assert(self@ =~= upsert(before, k@, v));
            },
        }
    }

    /// Replaces the value in a row.
    pub fn set_at(&mut self, i: usize, v: V)
        requires
            old(self).wf(),
            i < old(self)@.len(),
        ensures
            final(self)@ == old(self)@.update(i as int, (old(self)@[i as int].0, v)),
            final(self)@ == upsert(old(self)@, old(self)@[i as int].0, v),
            final(self).wf(),
    {
        let ghost before = self@;
        let k = self.rows[i].0.clone();
        self.rows.set(i, (k, v));
        proof {
            upsert_at(before, i as int, v);
            upsert_lookup(before, before[i as int].0, v, before[i as int].0);
            assert(self@ =~= before.update(i as int, (before[i as int].0, v)));
        }
    }

    /// Takes a row out.
    pub fn remove_at(&mut self, i: usize) -> (r: V)
        requires
            old(self).wf(),
            i < old(self)@.len(),
        ensures
            final(self)@ == old(self)@.remove(i as int),
            r == old(self)@[i as int].1,
            final(self).wf(),
            final(self).value(old(self)@[i as int].0) is None,
            forall|o: Seq<char>| o != old(self)@[i as int].0 ==> final(self).value(o) == old(self).value(o),
    {
        let ghost before = self@;
        let row = self.rows.remove(i);
        proof {
            assert(self@ =~= before.remove(i as int));
            assert forall|o: Seq<char>| o != before[i as int].0 implies lookup(self@, o) == lookup(
                before,
                o,
            ) by {
                remove_lookup(before, i as int, o);
            }
            remove_lookup(before, i as int, before[i as int].0);
        }
        row.1
    }

    /// Takes the row of a name out.
    pub fn remove(&mut self, k: &str) -> (r: Option<V>)
        requires
            old(self).wf(),
        ensures
            r == old(self).value(k@),
            final(self).wf(),
            final(self).value(k@) is None,
            forall|o: Seq<char>| o != k@ ==> final(self).value(o) == old(self).value(o),
            r is None ==> final(self)@ == old(self)@,
            r is Some ==> final(self)@.len() == old(self)@.len() - 1,
    {
        match self.position(k) {
            Some(i) => {
                proof {
                    lookup_at(self@, i as int);
                }
                Some(self.remove_at(i))
            },
            None => {
                proof {
                    lookup_absent(self@, k@);
                }
                None
            },
        }
    }
}

impl<V: Duplicate> Table<V> {
    /// A copy of the table.
    pub fn duplicate(&self) -> (r: Table<V>)
        ensures
            rows_view(r@) == rows_view(self@),
            r.wf() == self.wf(),
    {
        let mut rows: Vec<(String, V)> = Vec::new();
        let mut i: usize = 0;
        while i < self.rows.len()
            invariant
                i <= self.rows@.len(),
                rows@.len() == i,
                forall|k: int|
                    0 <= k < i ==> (#[trigger] rows@[k]).0@ == self.rows@[k].0@ && rows@[k].1@
                        == self.rows@[k].1@,
            decreases self.rows@.len() - i,
        {
            rows.push((self.rows[i].0.clone(), self.rows[i].1.copy()));
            i = i + 1;
        }
        let r = Table { rows };
        proof {
            assert(rows_view(r@) =~= rows_view(self@));
            assert forall|k: int| 0 <= k < r@.len() implies (#[trigger] r@[k]).0 == self@[k].0 by {
                assert(rows_view(r@)[k] == rows_view(self@)[k]);
            }
            if self.wf() {
                assert forall|a: int, b: int| 0 <= a < b < r@.len() implies r@[a].0 != r@[b].0 by {
                    assert(self@[a].0 != self@[b].0);
                }
            }
            if r.wf() {
                assert forall|a: int, b: int| 0 <= a < b < self@.len() implies self@[a].0
                    != self@[b].0 by {
                    assert(r@[a].0 != r@[b].0);
                }
            }
        }
        r
    }
}

} // verus!
