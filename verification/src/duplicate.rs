//! Copies that are known to keep what a value says.
use crate::json::Json;
use crate::text::{same, view_opt, views};
use vstd::prelude::*;

verus! {

/// The views of an optional list.
pub open spec fn views_opt<T: View>(o: Option<Vec<T>>) -> Option<Seq<T::V>> {
    match o {
        Some(v) => Some(views(v@)),
        None => None,
    }
}

/// A type whose values can be copied.
pub trait Duplicate: View + Sized {
    /// A value with the same view.
    fn copy(&self) -> (r: Self)
        ensures
            r@ == self@,
    ;
}

impl Duplicate for String {
    fn copy(&self) -> (r: String) {
        self.clone()
    }
}

impl Duplicate for Json {
    fn copy(&self) -> (r: Json) {
        Json::copy(self)
    }
}

/// A copy of an optional value.
pub fn duplicate_opt<T: Duplicate>(o: &Option<T>) -> (r: Option<T>)
    ensures
        view_opt(r) == view_opt(*o),
{
    match o {
        Some(x) => Some(x.copy()),
        None => None,
    }
}

/// A copy of a list.
pub fn duplicate_all<T: Duplicate>(v: &Vec<T>) -> (r: Vec<T>)
    ensures
        views(r@) == views(v@),
        r@.len() == v@.len(),
{
    let mut out: Vec<T> = Vec::new();
    let mut i: usize = 0;
    while i < v.len()
        invariant
            i <= v@.len(),
            out@.len() == i,
            forall|k: int| 0 <= k < i ==> (#[trigger] out@[k])@ == v@[k]@,
        decreases v@.len() - i,
    {
        out.push(v[i].copy());
        i = i + 1;
    }
    assert(views(out@) =~= views(v@));
    out
}

/// A copy of an optional list.
pub fn duplicate_all_opt<T: Duplicate>(o: &Option<Vec<T>>) -> (r: Option<Vec<T>>)
    ensures
        views_opt(r) == views_opt(*o),
{
    match o {
        Some(v) => Some(duplicate_all(v)),
        None => None,
    }
}

/// A map from names to texts, kept as the list of assignments that made it.
#[derive(Debug)]
pub struct TextMap {
    pub entries: Vec<(String, String)>,
}

/// The map that a list of assignments makes, later ones over earlier ones.
pub open spec fn assigned(s: Seq<(String, String)>) -> Map<Seq<char>, Seq<char>>
    decreases s.len(),
{
    if s.len() == 0 {
        Map::empty()
    } else {
        assigned(s.drop_last()).insert(s.last().0@, s.last().1@)
    }
}

/// The last assignment to a key decides what it maps to.
pub proof fn assigned_last(s: Seq<(String, String)>, key: Seq<char>, i: int)
    requires
        -1 <= i < s.len(),
        i >= 0 ==> s[i].0@ == key,
        forall|k: int| i < k < s.len() ==> s[k].0@ != key,
    ensures
        assigned(s).contains_key(key) == (i >= 0),
        i >= 0 ==> assigned(s)[key] == s[i].1@,
    decreases s.len(),
{
    if s.len() > 0 && i < s.len() - 1 {
        assigned_last(s.drop_last(), key, i);
    }
}

impl View for TextMap {
    type V = Map<Seq<char>, Seq<char>>;

    open spec fn view(&self) -> Map<Seq<char>, Seq<char>> {
        assigned(self.entries@)
    }
}

impl TextMap {
    /// The map without entries.
    pub fn new() -> (r: TextMap)
        ensures
            r@ == Map::<Seq<char>, Seq<char>>::empty(),
    {
        TextMap { entries: Vec::new() }
    }

    /// Maps `k` to `v`.
    pub fn put(&mut self, k: &str, v: &str)
        ensures
            final(self)@ == old(self)@.insert(k@, v@),
    {
        let ghost before = self.entries@;
        self.entries.push((k.to_owned(), v.to_owned()));
        proof {
            assert(self.entries@.drop_last() =~= before);
        }
    }

    /// What `k` maps to.
    pub fn get(&self, k: &str) -> (r: Option<String>)
        ensures
            match r {
                Some(v) => self@.contains_key(k@) && self@[k@] == v@,
                None => !self@.contains_key(k@),
            },
    {
        let mut i: usize = self.entries.len();
        while i > 0
            invariant
                i <= self.entries@.len(),
                forall|j: int| i <= j < self.entries@.len() ==> self.entries@[j].0@ != k@,
            decreases i,
        {
            if same(&self.entries[i - 1].0, k) {
                proof {
                    assigned_last(self.entries@, k@, i - 1);
                }
                return Some(self.entries[i - 1].1.clone());
            }
            i = i - 1;
        }
        proof {
            assigned_last(self.entries@, k@, -1);
        }
        None
    }

    /// Maps everything that `other` maps as `other` does.
    pub fn merge(&mut self, other: &TextMap)
        ensures
            final(self)@ == old(self)@.union_prefer_right(other@),
    {
        let ghost before = self@;
        let mut i: usize = 0;
        proof {
            assert(other.entries@.subrange(0, 0) =~= Seq::empty());
            assert(self@ =~= before.union_prefer_right(assigned(other.entries@.subrange(0, 0))));
        }
        while i < other.entries.len()
            invariant
                i <= other.entries@.len(),
                self@ == before.union_prefer_right(
                    assigned(other.entries@.subrange(0, i as int)),
                ),
            decreases other.entries@.len() - i,
        {
            let ghost mid = self@;
            let k = other.entries[i].0.as_str();
            let v = other.entries[i].1.as_str();
            self.put(k, v);
            proof {
                let t = other.entries@.subrange(0, i + 1);
                assert(t.drop_last() =~= other.entries@.subrange(0, i as int));
                assert(self@ =~= before.union_prefer_right(assigned(t)));
            }
            i = i + 1;
        }
        proof {
            assert(other.entries@.subrange(0, i as int) =~= other.entries@);
        }
    }
}

impl Duplicate for TextMap {
    fn copy(&self) -> (r: TextMap) {
        let mut r = TextMap::new();
        r.merge(self);
        assert(r@ =~= self@);
        r
    }
}

} // verus!
