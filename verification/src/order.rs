//! Stable sorting.
use crate::text::{chars_of, views};
use vstd::prelude::*;

verus! {

/// A type whose values are ranked by what they say.
pub trait Ranked: View + Sized {
    /// `a` may stand before `b`.
    spec fn le(a: Self::V, b: Self::V) -> bool;

    /// Of two values one may stand before the other.
    proof fn total(a: Self::V, b: Self::V)
        ensures
            Self::le(a, b) || Self::le(b, a),
    ;

    /// Standing before is transitive.
    proof fn transitive(a: Self::V, b: Self::V, c: Self::V)
        requires
            Self::le(a, b),
            Self::le(b, c),
        ensures
            Self::le(a, c),
    ;

    /// Whether this value may stand before the other.
    fn may_precede(&self, other: &Self) -> (r: bool)
        ensures
            r == Self::le(self@, other@),
    ;
}

/// `s` with `x` put behind everything that may stand before it.
pub open spec fn placed<T: Ranked>(s: Seq<T::V>, x: T::V) -> Seq<T::V>
    decreases s.len(),
{
    if s.len() == 0 {
        seq![x]
    } else if T::le(s.last(), x) {
        s.push(x)
    } else {
        placed::<T>(s.drop_last(), x).push(s.last())
    }
}

/// The values of `s` in order; equal ones keep their order.
pub open spec fn sorted<T: Ranked>(s: Seq<T::V>) -> Seq<T::V>
    decreases s.len(),
{
    if s.len() == 0 {
        s
    } else {
        placed::<T>(sorted::<T>(s.drop_last()), s.last())
    }
}

/// Every value may stand before the next ones.
pub open spec fn in_order<T: Ranked>(s: Seq<T::V>) -> bool {
    forall|i: int, j: int| 0 <= i < j < s.len() ==> T::le(s[i], s[j])
}

/// Placing a value adds just that value and keeps the order.
pub proof fn placed_keeps<T: Ranked>(s: Seq<T::V>, x: T::V)
    ensures
        placed::<T>(s, x).to_multiset() == s.to_multiset().insert(x),
        placed::<T>(s, x).len() == s.len() + 1,
        in_order::<T>(s) ==> in_order::<T>(placed::<T>(s, x)),
    decreases s.len(),
{
    broadcast use vstd::seq_lib::group_to_multiset_ensures;

    if s.len() == 0 {
        assert(seq![x] =~= Seq::<T::V>::empty().push(x));
        assert(s =~= Seq::<T::V>::empty());
    } else if T::le(s.last(), x) {
        if in_order::<T>(s) {
            assert forall|i: int, j: int| 0 <= i < j < s.push(x).len() implies T::le(
                s.push(x)[i],
                s.push(x)[j],
            ) by {
                if j == s.len() && i < s.len() - 1 {
                    assert(T::le(s[i], s[s.len() - 1]));
                    T::transitive(s[i], s.last(), x);
                }
            }
        }
    } else {
        let t = s.drop_last();
        placed_keeps::<T>(t, x);
        assert(s =~= t.push(s.last()));
        let p = placed::<T>(t, x);
        assert(t.to_multiset().insert(x).insert(s.last()) =~= t.to_multiset().insert(
            s.last(),
        ).insert(x));
        if in_order::<T>(s) {
            assert(in_order::<T>(t)) by {
                assert forall|i: int, j: int| 0 <= i < j < t.len() implies T::le(t[i], t[j]) by {
                    assert(T::le(s[i], s[j]));
                }
            }
            T::total(s.last(), x);
            assert forall|i: int, j: int| 0 <= i < j < p.push(s.last()).len() implies T::le(
                p.push(s.last())[i],
                p.push(s.last())[j],
            ) by {
                if j == p.len() {
                    assert(p.to_multiset().count(p[i]) > 0) by {
                        assert(p.contains(p[i]));
                    }
                    if p[i] != x {
                        assert(t.to_multiset().count(p[i]) > 0);
                        assert(t.contains(p[i]));
                        let k = choose|k: int| 0 <= k < t.len() && t[k] == p[i];
                        assert(T::le(s[k], s[s.len() - 1]));
                    }
                }
            }
        }
    }
}

/// Sorting puts the same values in order.
pub proof fn sorted_is_ordered_permutation<T: Ranked>(s: Seq<T::V>)
    ensures
        in_order::<T>(sorted::<T>(s)),
        sorted::<T>(s).to_multiset() == s.to_multiset(),
        sorted::<T>(s).len() == s.len(),
    decreases s.len(),
{
    broadcast use vstd::seq_lib::group_to_multiset_ensures;

    if s.len() > 0 {
        sorted_is_ordered_permutation::<T>(s.drop_last());
        placed_keeps::<T>(sorted::<T>(s.drop_last()), s.last());
        assert(s =~= s.drop_last().push(s.last()));
    }
}

/// Puts a value behind everything that may stand before it.
fn place<T: Ranked>(v: &mut Vec<T>, x: T)
    ensures
        views(final(v)@) == placed::<T>(views(old(v)@), x@),
{
    let ghost all = views(v@);
    let ghost xv = x@;
    let mut i: usize = v.len();
    proof {
        assert(all.subrange(0, i as int) =~= all);
        assert(placed::<T>(all.subrange(0, i as int), xv) + all.subrange(i as int, all.len() as int)
            =~= placed::<T>(all, xv));
    }
    while i > 0 && !v[i - 1].may_precede(&x)
        invariant
            i <= v@.len(),
            views(v@) == all,
            all.len() == v@.len(),
            x@ == xv,
            placed::<T>(all.subrange(0, i as int), xv) + all.subrange(i as int, all.len() as int)
                == placed::<T>(all, xv),
        decreases i,
    {
        proof {
            let s = all.subrange(0, i as int);
            assert(all[i - 1] == v@[i - 1]@);
            assert(s.last() == all[i - 1]);
            assert(s.drop_last() =~= all.subrange(0, i - 1));
            assert(placed::<T>(s.drop_last(), xv).push(s.last()) + all.subrange(
                i as int,
                all.len() as int,
            ) =~= placed::<T>(all.subrange(0, i - 1), xv) + all.subrange(
                i - 1,
                all.len() as int,
            ));
        }
        i = i - 1;
    }
    proof {
        let s = all.subrange(0, i as int);
        if i > 0 {
            assert(all[i - 1] == v@[i - 1]@);
            assert(s.last() == all[i - 1]);
        }
        assert(placed::<T>(s, xv) =~= s.push(xv));
    }
    let ghost before = v@;
    v.insert(i, x);
    proof {
        assert(views(v@) =~= all.subrange(0, i as int).push(xv) + all.subrange(
            i as int,
            all.len() as int,
        ));
    }
}

/// Sorts a list.
pub fn sort<T: Ranked>(v: Vec<T>) -> (r: Vec<T>)
    ensures
        views(r@) == sorted::<T>(views(v@)),
{
    let ghost all = views(v@);
    let mut v = v;
    let mut out: Vec<T> = Vec::new();
    let ghost mut done: int = 0;
    proof {
        assert(views(out@) =~= sorted::<T>(all.subrange(0, 0)));
        assert(all.subrange(0, all.len() as int) =~= all);
    }
    while v.len() > 0
        invariant
            0 <= done <= all.len(),
            v@.len() == all.len() - done,
            views(v@) == all.subrange(done, all.len() as int),
            views(out@) == sorted::<T>(all.subrange(0, done)),
        decreases v@.len(),
    {
        let ghost before = v@;
        let x = v.remove(0);
        proof {
            assert(views(before)[0] == x@);
            assert(all[done] == x@);
            let t = all.subrange(0, done + 1);
            assert(t.drop_last() =~= all.subrange(0, done));
            assert forall|k: int| 0 <= k < v@.len() implies views(v@)[k] == all.subrange(
                done + 1,
                all.len() as int,
            )[k] by {
                assert(views(before)[k + 1] == all.subrange(done, all.len() as int)[k + 1]);
            }
            assert(views(v@) =~= all.subrange(done + 1, all.len() as int));
            done = done + 1;
        }
        place(&mut out, x);
    }
    proof {
        assert(all.subrange(0, done) =~= all);
    }
    out
}

/// The dictionary order of texts, character by character.
pub open spec fn text_le(a: Seq<char>, b: Seq<char>) -> bool
    decreases a.len(),
{
    if a.len() == 0 {
        true
    } else if b.len() == 0 {
        false
    } else if a[0] == b[0] {
        text_le(a.drop_first(), b.drop_first())
    } else {
        a[0] < b[0]
    }
}

/// Of two texts one stands before the other.
pub proof fn text_le_total(a: Seq<char>, b: Seq<char>)
    ensures
        text_le(a, b) || text_le(b, a),
    decreases a.len(),
{
    if a.len() > 0 && b.len() > 0 && a[0] == b[0] {
        text_le_total(a.drop_first(), b.drop_first());
    }
}

/// The dictionary order is transitive.
pub proof fn text_le_transitive(a: Seq<char>, b: Seq<char>, c: Seq<char>)
    requires
        text_le(a, b),
        text_le(b, c),
    ensures
        text_le(a, c),
    decreases a.len(),
{
    if a.len() > 0 && b.len() > 0 && c.len() > 0 && a[0] == b[0] && b[0] == c[0] {
        text_le_transitive(a.drop_first(), b.drop_first(), c.drop_first());
    }
}

/// Whether a text stands before another.
pub fn text_precedes(a: &str, b: &str) -> (r: bool)
    ensures
        r == text_le(a@, b@),
{
    let x = chars_of(a);
    let y = chars_of(b);
    let mut i: usize = 0;
    proof {
        assert(x@.subrange(0, x@.len() as int) =~= a@);
        assert(y@.subrange(0, y@.len() as int) =~= b@);
    }
    while i < x.len() && i < y.len()
        invariant
            i <= x@.len(),
            i <= y@.len(),
            text_le(a@, b@) == text_le(
                x@.subrange(i as int, x@.len() as int),
                y@.subrange(i as int, y@.len() as int),
            ),
        decreases x@.len() - i,
    {
        proof {
            let s = x@.subrange(i as int, x@.len() as int);
            let t = y@.subrange(i as int, y@.len() as int);
            assert(s[0] == x@[i as int]);
            assert(t[0] == y@[i as int]);
            assert(s.drop_first() =~= x@.subrange(i + 1, x@.len() as int));
            assert(t.drop_first() =~= y@.subrange(i + 1, y@.len() as int));
        }
        if x[i] != y[i] {
            return x[i] < y[i];
        }
        i = i + 1;
    }
    i == x.len()
}

} // verus!
