//! Operations on character sequences, each with a functional model.
//!
//! A `str` is modelled by its sequence of characters. The executable
//! functions here unpack a string into a `Vec<char>`, work on indices and pack
//! the result again.
use vstd::prelude::*;

verus! {

/// `String::push` appends one character.
pub assume_specification[ String::push ](s: &mut String, c: char)
    ensures
        final(s)@ == old(s)@.push(c),
;

/// The views of a list of values, one by one.
pub open spec fn views<T: View>(v: Seq<T>) -> Seq<T::V> {
    Seq::new(v.len(), |i: int| v[i]@)
}

/// The view of an optional value.
pub open spec fn view_opt<T: View>(o: Option<T>) -> Option<T::V> {
    match o {
        Some(x) => Some(x@),
        None => None,
    }
}

/// The value of an optional string, or `d` when it is absent.
pub open spec fn text_or(o: Option<String>, d: Seq<char>) -> Seq<char> {
    match o {
        Some(s) => s@,
        None => d,
    }
}

/// `p` stands in `s` at index `i`.
pub open spec fn occurs_at(s: Seq<char>, p: Seq<char>, i: int) -> bool {
    0 <= i && i + p.len() <= s.len() && s.subrange(i, i + p.len()) == p
}

/// `s` begins with `p`.
pub open spec fn starts_with(s: Seq<char>, p: Seq<char>) -> bool {
    occurs_at(s, p, 0)
}

/// `s` ends with `p`.
pub open spec fn ends_with(s: Seq<char>, p: Seq<char>) -> bool {
    occurs_at(s, p, s.len() - p.len())
}

/// `p` occurs somewhere in `s`.
pub open spec fn contains(s: Seq<char>, p: Seq<char>) -> bool {
    exists|i: int| occurs_at(s, p, i)
}

/// The first index at or after `from` where `p` occurs in `s`, if there is one.
pub open spec fn find_from(s: Seq<char>, p: Seq<char>, from: int) -> Option<int>
    decreases s.len() + 1 - from,
{
    if from < 0 || from + p.len() > s.len() {
        None
    } else if occurs_at(s, p, from) {
        Some(from)
    } else {
        find_from(s, p, from + 1)
    }
}

/// A character with the Unicode property White_Space.
pub open spec fn is_space(c: char) -> bool {
    ('\u{9}' <= c && c <= '\u{d}') || c == ' ' || c == '\u{85}' || c == '\u{a0}' || c == '\u{1680}'
        || ('\u{2000}' <= c && c <= '\u{200a}') || c == '\u{2028}' || c == '\u{2029}' || c
        == '\u{202f}' || c == '\u{205f}' || c == '\u{3000}'
}

/// `s` without its leading white space.
pub open spec fn trim_start(s: Seq<char>) -> Seq<char>
    decreases s.len(),
{
    if s.len() > 0 && is_space(s[0]) {
        trim_start(s.drop_first())
    } else {
        s
    }
}

/// `s` without its trailing white space.
pub open spec fn trim_end(s: Seq<char>) -> Seq<char>
    decreases s.len(),
{
    if s.len() > 0 && is_space(s.last()) {
        trim_end(s.drop_last())
    } else {
        s
    }
}

/// `s` without leading and trailing white space.
pub open spec fn trim(s: Seq<char>) -> Seq<char> {
    trim_end(trim_start(s))
}

/// The index of the first `c` in `s`, or the length of `s`.
pub open spec fn index_of(s: Seq<char>, c: char) -> int
    decreases s.len(),
{
    if s.len() == 0 || s[0] == c {
        0
    } else {
        1 + index_of(s.drop_first(), c)
    }
}

/// The pieces of `s` between occurrences of `c`.
pub open spec fn split(s: Seq<char>, c: char) -> Seq<Seq<char>>
    decreases s.len(),
{
    let i = index_of(s, c);
    if i < 0 || i >= s.len() {
        seq![s]
    } else {
        seq![s.subrange(0, i)] + split(s.subrange(i + 1, s.len() as int), c)
    }
}

/// A line's content once its line feed is taken off: one carriage return
/// directly before the line feed belongs to the line ending.
pub open spec fn strip_cr(s: Seq<char>) -> Seq<char> {
    if s.len() > 0 && s.last() == '\r' {
        s.drop_last()
    } else {
        s
    }
}

/// The lines of `s`; a final line ending opens no further line.
pub open spec fn lines(s: Seq<char>) -> Seq<Seq<char>>
    decreases s.len(),
{
    let i = index_of(s, '\n');
    if s.len() == 0 {
        Seq::empty()
    } else if i < 0 || i >= s.len() {
        seq![s]
    } else {
        seq![strip_cr(s.subrange(0, i))] + lines(s.subrange(i + 1, s.len() as int))
    }
}

/// The pieces one after the other with `sep` between neighbours.
pub open spec fn join(parts: Seq<Seq<char>>, sep: Seq<char>) -> Seq<char>
    decreases parts.len(),
{
    if parts.len() == 0 {
        Seq::empty()
    } else if parts.len() == 1 {
        parts[0]
    } else {
        join(parts.drop_last(), sep) + sep + parts.last()
    }
}

/// `s` with every `from` replaced by the character `to`.
pub open spec fn replace_char(s: Seq<char>, from: char, to: char) -> Seq<char> {
    Seq::new(
        s.len(),
        |i: int|
            if s[i] == from {
                to
            } else {
                s[i]
            },
    )
}

/// `s` with every `from` replaced by the text `to`.
pub open spec fn replace_with(s: Seq<char>, from: char, to: Seq<char>) -> Seq<char>
    decreases s.len(),
{
    if s.len() == 0 {
        s
    } else {
        replace_with(s.drop_last(), from, to) + if s.last() == from {
            to
        } else {
            seq![s.last()]
        }
    }
}

/// The character of a decimal digit.
pub open spec fn digit(n: nat) -> char {
    ('0' as u8 + n) as u8 as char
}

/// The decimal numeral of `n`.
pub open spec fn decimal(n: nat) -> Seq<char>
    decreases n,
{
    if n < 10 {
        seq![digit(n)]
    } else {
        decimal(n / 10).push(digit(n % 10))
    }
}

/// An ASCII letter.
pub open spec fn is_alpha(c: char) -> bool {
    ('a' <= c && c <= 'z') || ('A' <= c && c <= 'Z')
}

/// An ASCII letter or digit.
pub open spec fn is_alnum(c: char) -> bool {
    is_alpha(c) || ('0' <= c && c <= '9')
}

/// The characters of a string as a vector.
pub fn chars_of(s: &str) -> (r: Vec<char>)
    ensures
        r@ == s@,
{
    let mut out: Vec<char> = Vec::new();
    let n: usize = s.unicode_len();
    let mut it = s.chars();
    let mut i: usize = 0;
    while i < n
        invariant
            i <= n,
            n == s@.len(),
            out@ == s@.subrange(0, i as int),
            vstd::std_specs::iter::IteratorSpec::remaining(&it) == s@.subrange(i as int, n as int),
            vstd::std_specs::iter::IteratorSpec::obeys_prophetic_iter_laws(&it),
        decreases n - i,
    {
        match it.next() {
            Some(c) => {
                out.push(c);
            },
            None => {},
        }
        i = i + 1;
        assert(out@ =~= s@.subrange(0, i as int));
        assert(vstd::std_specs::iter::IteratorSpec::remaining(&it) =~= s@.subrange(i as int, n as int));
    }
    assert(out@ =~= s@);
    out
}

/// The string of a range of characters.
pub fn pack(v: &Vec<char>, from: usize, to: usize) -> (r: String)
    requires
        from <= to <= v@.len(),
    ensures
        r@ == v@.subrange(from as int, to as int),
{
    let mut out = String::new();
    let mut i: usize = from;
    while i < to
        invariant
            from <= i <= to <= v@.len(),
            out@ =~= v@.subrange(from as int, i as int),
        decreases to - i,
    {
        out.push(v[i]);
        i = i + 1;
    }
    out
}

/// Whether two strings hold the same characters.
pub fn same(a: &str, b: &str) -> (r: bool)
    ensures
        r == (a@ == b@),
{
    let x = chars_of(a);
    let y = chars_of(b);
    same_chars(&x, &y)
}

/// Whether two character vectors are equal.
pub fn same_chars(x: &Vec<char>, y: &Vec<char>) -> (r: bool)
    ensures
        r == (x@ == y@),
{
    if x.len() != y.len() {
        return false;
    }
    let mut i: usize = 0;
    while i < x.len()
        invariant
            i <= x@.len(),
            x@.len() == y@.len(),
            forall|k: int| 0 <= k < i ==> x@[k] == y@[k],
        decreases x@.len() - i,
    {
        if x[i] != y[i] {
            return false;
        }
        i = i + 1;
    }
    assert(x@ =~= y@);
    true
}

/// Whether an optional string is present and holds the characters of `b`.
pub fn same_opt(a: &Option<String>, b: &str) -> (r: bool)
    ensures
        r == (view_opt(*a) == Some(b@)),
{
    match a {
        Some(s) => same(s, b),
        None => false,
    }
}

/// Whether `p` occurs in `s` at index `i`.
pub fn occurs(s: &Vec<char>, p: &Vec<char>, i: usize) -> (r: bool)
    ensures
        r == occurs_at(s@, p@, i as int),
{
    if p.len() > s.len() || i > s.len() - p.len() {
        return false;
    }
    let n: usize = s.len();
    let mut k: usize = 0;
    while k < p.len()
        invariant
            n == s@.len(),
            i + p@.len() <= n,
            k <= p@.len(),
            forall|j: int| 0 <= j < k ==> s@[i + j] == p@[j],
        decreases p@.len() - k,
    {
        if s[i + k] != p[k] {
            assert(s@.subrange(i as int, i + p@.len())[k as int] == s@[i + k]);
            return false;
        }
        k = k + 1;
    }
    assert(s@.subrange(i as int, i + p@.len()) =~= p@);
    true
}

/// The first index at or after `from` where `p` occurs in `s`.
pub fn find(s: &Vec<char>, p: &Vec<char>, from: usize) -> (r: Option<usize>)
    ensures
        match r {
            Some(i) => find_from(s@, p@, from as int) == Some(i as int),
            None => find_from(s@, p@, from as int) is None,
        },
        r matches Some(i) ==> from <= i && i + p@.len() <= s@.len() && occurs_at(
            s@,
            p@,
            i as int,
        ),
{
    if p.len() > s.len() {
        return None;
    }
    let last: usize = s.len() - p.len();
    let mut i: usize = from;
    while i <= last
        invariant
            from <= i,
            last == s@.len() - p@.len(),
            i > from ==> i <= last + 1,
            find_from(s@, p@, from as int) == find_from(s@, p@, i as int),
        decreases last + 1 - i,
    {
        if occurs(s, p, i) {
            return Some(i);
        }
        if i == last {
            assert(find_from(s@, p@, i + 1) is None);
            return None;
        }
        i = i + 1;
    }
    None
}

/// A search from the start succeeds exactly when there is an occurrence.
pub proof fn find_from_complete(s: Seq<char>, p: Seq<char>, from: int)
    requires
        0 <= from,
    ensures
        find_from(s, p, from) is Some <==> exists|i: int| from <= i && occurs_at(s, p, i),
        find_from(s, p, from) matches Some(i) ==> from <= i && occurs_at(s, p, i) && (forall|j: int|
            from <= j < i ==> !occurs_at(s, p, j)),
    decreases s.len() + 1 - from,
{
    if from + p.len() <= s.len() && !occurs_at(s, p, from) {
        find_from_complete(s, p, from + 1);
        if exists|i: int| from <= i && occurs_at(s, p, i) {
            let i = choose|i: int| from <= i && occurs_at(s, p, i);
            assert(from + 1 <= i);
        }
    }
}

/// Whether `s` begins with `p`.
pub fn has_prefix(s: &str, p: &str) -> (r: bool)
    ensures
        r == starts_with(s@, p@),
{
    let x = chars_of(s);
    let y = chars_of(p);
    occurs(&x, &y, 0)
}

/// An optional text, empty where it is missing.
pub fn or_empty(o: &Option<String>) -> (r: String)
    ensures
        r@ == view_opt(*o).unwrap_or(Seq::empty()),
{
    match o {
        Some(s) => s.clone(),
        None => String::new(),
    }
}

/// What follows the prefix `p` of `s`.
pub fn after_prefix(s: &str, p: &str) -> (r: Option<String>)
    ensures
        r is Some == starts_with(s@, p@),
        r matches Some(t) ==> t@ == s@.subrange(p@.len() as int, s@.len() as int),
{
    let x = chars_of(s);
    let y = chars_of(p);
    if occurs(&x, &y, 0) {
        Some(pack(&x, y.len(), x.len()))
    } else {
        None
    }
}

/// What stands before the suffix `p` of `s`.
pub fn before_suffix(s: &str, p: &str) -> (r: Option<String>)
    ensures
        r is Some == ends_with(s@, p@),
        r matches Some(t) ==> t@ == s@.subrange(0, s@.len() - p@.len()),
{
    let x = chars_of(s);
    let y = chars_of(p);
    if y.len() <= x.len() && occurs(&x, &y, x.len() - y.len()) {
        Some(pack(&x, 0, x.len() - y.len()))
    } else {
        None
    }
}

/// Whether `s` ends with `p`.
pub fn has_suffix(s: &str, p: &str) -> (r: bool)
    ensures
        r == ends_with(s@, p@),
{
    let x = chars_of(s);
    let y = chars_of(p);
    y.len() <= x.len() && occurs(&x, &y, x.len() - y.len())
}

/// Whether `p` occurs in `s`.
pub fn has_part(s: &str, p: &str) -> (r: bool)
    ensures
        r == contains(s@, p@),
{
    let x = chars_of(s);
    let y = chars_of(p);
    let f = find(&x, &y, 0);
    proof {
        find_from_complete(s@, p@, 0);
        if contains(s@, p@) {
            let i = choose|i: int| occurs_at(s@, p@, i);
            assert(0 <= i && occurs_at(s@, p@, i));
        }
    }
    f.is_some()
}

/// Whether the character has the White_Space property.
pub fn space(c: char) -> (r: bool)
    ensures
        r == is_space(c),
{
    ('\u{9}' <= c && c <= '\u{d}') || c == ' ' || c == '\u{85}' || c == '\u{a0}' || c == '\u{1680}'
        || ('\u{2000}' <= c && c <= '\u{200a}') || c == '\u{2028}' || c == '\u{2029}' || c
        == '\u{202f}' || c == '\u{205f}' || c == '\u{3000}'
}

/// The bounds of the trimmed part of a range of characters.
pub fn trim_bounds(v: &Vec<char>, from: usize, to: usize) -> (r: (usize, usize))
    requires
        from <= to <= v@.len(),
    ensures
        from <= r.0 <= r.1 <= to,
        v@.subrange(r.0 as int, r.1 as int) == trim(v@.subrange(from as int, to as int)),
{
    let mut a: usize = from;
    while a < to && space(v[a])
        invariant
            from <= a <= to <= v@.len(),
            trim_start(v@.subrange(from as int, to as int)) == trim_start(
                v@.subrange(a as int, to as int),
            ),
        decreases to - a,
    {
        proof {
            let t = v@.subrange(a as int, to as int);
            assert(t.drop_first() =~= v@.subrange(a + 1, to as int));
            assert(t[0] == v@[a as int]);
        }
        a = a + 1;
    }
    proof {
        let t = v@.subrange(a as int, to as int);
        if a < to {
            assert(t[0] == v@[a as int]);
        }
        assert(trim_start(t) == t);
    }
    let mut b: usize = to;
    while b > a && space(v[b - 1])
        invariant
            a <= b <= to <= v@.len(),
            trim_end(v@.subrange(a as int, to as int)) == trim_end(
                v@.subrange(a as int, b as int),
            ),
        decreases b,
    {
        proof {
            let t = v@.subrange(a as int, b as int);
            assert(t.drop_last() =~= v@.subrange(a as int, b - 1));
            assert(t.last() == v@[b - 1]);
        }
        b = b - 1;
    }
    proof {
        let t = v@.subrange(a as int, b as int);
        if a < b {
            assert(t.last() == v@[b - 1]);
        }
        assert(trim_end(t) == t);
    }
    (a, b)
}

/// `s` without leading and trailing white space.
pub fn trimmed(s: &str) -> (r: String)
    ensures
        r@ == trim(s@),
{
    let v = chars_of(s);
    let (a, b) = trim_bounds(&v, 0, v.len());
    proof {
        assert(v@.subrange(0, v@.len() as int) =~= s@);
    }
    pack(&v, a, b)
}

/// Whether nothing but white space stands in `s`.
pub fn is_blank(s: &str) -> (r: bool)
    ensures
        r == (trim(s@).len() == 0),
{
    let v = chars_of(s);
    let (a, b) = trim_bounds(&v, 0, v.len());
    proof {
        assert(v@.subrange(0, v@.len() as int) =~= s@);
    }
    a == b
}

/// The index of the first `c` in the characters from `from` on, or the length.
pub fn seek(v: &Vec<char>, c: char, from: usize) -> (r: usize)
    requires
        from <= v@.len(),
    ensures
        from <= r <= v@.len(),
        r == from + index_of(v@.subrange(from as int, v@.len() as int), c),
        r < v@.len() ==> v@[r as int] == c,
{
    let mut i: usize = from;
    while i < v.len() && v[i] != c
        invariant
            from <= i <= v@.len(),
            from + index_of(v@.subrange(from as int, v@.len() as int), c) == i + index_of(
                v@.subrange(i as int, v@.len() as int),
                c,
            ),
        decreases v@.len() - i,
    {
        proof {
            let t = v@.subrange(i as int, v@.len() as int);
            assert(t.drop_first() =~= v@.subrange(i + 1, v@.len() as int));
            assert(t[0] == v@[i as int]);
        }
        i = i + 1;
    }
    proof {
        let t = v@.subrange(i as int, v@.len() as int);
        if i < v@.len() {
            assert(t[0] == v@[i as int]);
        }
    }
    i
}

/// The pieces of `s` between occurrences of `c`.
pub fn split_on(s: &str, c: char) -> (r: Vec<String>)
    ensures
        views(r@) == split(s@, c),
{
    let v = chars_of(s);
    let mut out: Vec<String> = Vec::new();
    let mut i: usize = 0;
    proof {
        assert(v@.subrange(0, v@.len() as int) =~= s@);
        assert(views(out@) + split(s@, c) =~= split(s@, c));
    }
    loop
        invariant
            i <= v@.len(),
            views(out@) + split(v@.subrange(i as int, v@.len() as int), c) == split(s@, c),
        decreases v@.len() - i,
    {
        let j: usize = seek(&v, c, i);
        let ghost rest = v@.subrange(i as int, v@.len() as int);
        let ghost before = out@;
        let piece = pack(&v, i, j);
        out.push(piece);
        proof {
            assert(rest.subrange(0, j - i) =~= v@.subrange(i as int, j as int));
            assert(views(out@) =~= views(before).push(piece@));
        }
        if j == v.len() {
            proof {
                assert(rest =~= piece@);
                assert(views(out@) =~= views(before) + split(rest, c));
            }
            return out;
        }
        proof {
            let next = v@.subrange(j + 1, v@.len() as int);
            assert(rest.subrange(j - i + 1, rest.len() as int) =~= next);
            assert(views(out@) + split(next, c) =~= views(before) + split(rest, c));
        }
        i = j + 1;
    }
}

/// The lines of `s`.
pub fn lines_of(s: &str) -> (r: Vec<String>)
    ensures
        views(r@) == lines(s@),
{
    let v = chars_of(s);
    let mut out: Vec<String> = Vec::new();
    let mut i: usize = 0;
    proof {
        assert(v@.subrange(0, v@.len() as int) =~= s@);
        assert(views(out@) + lines(s@) =~= lines(s@));
    }
    while i < v.len()
        invariant
            i <= v@.len(),
            views(out@) + lines(v@.subrange(i as int, v@.len() as int)) == lines(s@),
        decreases v@.len() - i,
    {
        let j: usize = seek(&v, '\n', i);
        let ghost rest = v@.subrange(i as int, v@.len() as int);
        let ghost before = out@;
        proof {
            assert(rest.subrange(0, j - i) =~= v@.subrange(i as int, j as int));
        }
        if j == v.len() {
            let piece = pack(&v, i, j);
            out.push(piece);
            proof {
                assert(rest =~= piece@);
                assert(views(out@) =~= views(before) + lines(rest));
            }
            return out;
        }
        let end: usize = if j > i && v[j - 1] == '\r' {
            j - 1
        } else {
            j
        };
        let piece = pack(&v, i, end);
        out.push(piece);
        proof {
            let whole = v@.subrange(i as int, j as int);
            assert(strip_cr(whole) =~= piece@) by {
                if j > i {
                    assert(whole.last() == v@[j - 1]);
                }
            }
            let next = v@.subrange(j + 1, v@.len() as int);
            assert(rest.subrange(j - i + 1, rest.len() as int) =~= next);
            assert(views(out@) + lines(next) =~= views(before) + lines(rest));
        }
        i = j + 1;
    }
    proof {
        assert(lines(v@.subrange(i as int, v@.len() as int)) =~= Seq::empty());
        assert(views(out@) =~= lines(s@));
    }
    out
}

/// The strings one after the other with `sep` between neighbours.
pub fn joined(parts: &Vec<String>, sep: &str) -> (r: String)
    ensures
        r@ == join(views(parts@), sep@),
{
    let mut out = String::new();
    let mut i: usize = 0;
    while i < parts.len()
        invariant
            i <= parts@.len(),
            out@ == join(views(parts@).subrange(0, i as int), sep@),
        decreases parts@.len() - i,
    {
        if i > 0 {
            out.append(sep);
        }
        out.append(&parts[i]);
        proof {
            let t = views(parts@);
            assert(t.subrange(0, i + 1).drop_last() =~= t.subrange(0, i as int));
            assert(t.subrange(0, i + 1).last() == parts@[i as int]@);
            if i == 0 {
                assert(out@ =~= parts@[0]@);
            }
        }
        i = i + 1;
    }
    proof {
        assert(views(parts@).subrange(0, i as int) =~= views(parts@));
    }
    out
}

/// `s` with every `from` replaced by the character `to`.
pub fn swap_char(s: &str, from: char, to: char) -> (r: String)
    ensures
        r@ == replace_char(s@, from, to),
{
    let v = chars_of(s);
    let mut out = String::new();
    let mut i: usize = 0;
    while i < v.len()
        invariant
            i <= v@.len(),
            v@ == s@,
            out@ =~= replace_char(s@, from, to).subrange(0, i as int),
        decreases v@.len() - i,
    {
        if v[i] == from {
            out.push(to);
        } else {
            out.push(v[i]);
        }
        i = i + 1;
    }
    proof {
        assert(out@ =~= replace_char(s@, from, to));
    }
    out
}

/// `s` with every `from` replaced by the text `to`.
pub fn swap_text(s: &str, from: char, to: &str) -> (r: String)
    ensures
        r@ == replace_with(s@, from, to@),
{
    let v = chars_of(s);
    let mut out = String::new();
    let mut i: usize = 0;
    while i < v.len()
        invariant
            i <= v@.len(),
            v@ == s@,
            out@ == replace_with(s@.subrange(0, i as int), from, to@),
        decreases v@.len() - i,
    {
        let ghost before = out@;
        if v[i] == from {
            out.append(to);
        } else {
            out.push(v[i]);
        }
        proof {
            let t = s@.subrange(0, i + 1);
            assert(t.drop_last() =~= s@.subrange(0, i as int));
            assert(t.last() == v@[i as int]);
            assert(before.push(v@[i as int]) =~= before + seq![v@[i as int]]);
        }
        i = i + 1;
    }
    proof {
        assert(s@.subrange(0, i as int) =~= s@);
    }
    out
}

/// The decimal numeral of `n`.
pub fn decimal_of(n: u64) -> (r: String)
    ensures
        r@ == decimal(n as nat),
    decreases n,
{
    let d: u8 = (n % 10) as u8;
    let c: char = (48u8 + d) as char;
    if n < 10 {
        let mut out = String::new();
        out.push(c);
        proof {
            assert(out@ =~= decimal(n as nat));
        }
        out
    } else {
        let mut out = decimal_of(n / 10);
        out.push(c);
        out
    }
}

/// A copy of the string slice.
pub fn own(s: &str) -> (r: String)
    ensures
        r@ == s@,
{
    s.to_owned()
}

/// Two texts one after the other.
pub fn cat2(a: &str, b: &str) -> (r: String)
    ensures
        r@ == a@ + b@,
{
    let mut out = a.to_owned();
    out.append(b);
    out
}

/// Three texts one after the other.
pub fn cat3(a: &str, b: &str, c: &str) -> (r: String)
    ensures
        r@ == a@ + b@ + c@,
{
    let mut out = cat2(a, b);
    out.append(c);
    out
}

/// Four texts one after the other.
pub fn cat4(a: &str, b: &str, c: &str, d: &str) -> (r: String)
    ensures
        r@ == a@ + b@ + c@ + d@,
{
    let mut out = cat3(a, b, c);
    out.append(d);
    out
}

/// Five texts one after the other.
pub fn cat5(a: &str, b: &str, c: &str, d: &str, e: &str) -> (r: String)
    ensures
        r@ == a@ + b@ + c@ + d@ + e@,
{
    let mut out = cat4(a, b, c, d);
    out.append(e);
    out
}

/// Whether `needle` is one of the strings.
pub fn has_text(v: &Vec<String>, needle: &str) -> (r: bool)
    ensures
        r == views(v@).contains(needle@),
{
    let mut i: usize = 0;
    while i < v.len()
        invariant
            i <= v@.len(),
            forall|k: int| 0 <= k < i ==> v@[k]@ != needle@,
        decreases v@.len() - i,
    {
        if same(&v[i], needle) {
            assert(views(v@)[i as int] == needle@);
            return true;
        }
        i = i + 1;
    }
    false
}

/// The first `c` stands where `index_of` says, and none before it.
pub proof fn index_of_first(s: Seq<char>, c: char)
    ensures
        0 <= index_of(s, c) <= s.len(),
        index_of(s, c) < s.len() ==> s[index_of(s, c)] == c,
        forall|i: int| 0 <= i < index_of(s, c) ==> s[i] != c,
    decreases s.len(),
{
    if s.len() > 0 && s[0] != c {
        let t = s.drop_first();
        index_of_first(t, c);
        assert forall|i: int| 0 <= i < index_of(s, c) implies s[i] != c by {
            if i > 0 {
                assert(t[i - 1] == s[i]);
            }
        }
        if index_of(s, c) < s.len() {
            assert(t[index_of(t, c)] == s[index_of(s, c)]);
        }
    }
}

/// The first `c` of a text that starts with a part without `c` and then `c`.
pub proof fn index_of_at(s: Seq<char>, c: char, i: int)
    requires
        0 <= i < s.len(),
        s[i] == c,
        forall|k: int| 0 <= k < i ==> s[k] != c,
    ensures
        index_of(s, c) == i,
{
    index_of_first(s, c);
    if index_of(s, c) < i {
        assert(s[index_of(s, c)] == c);
    }
    if index_of(s, c) > i {
        assert(s[i] != c);
    }
}

/// Joined lines are read back as they were, if none holds a line feed or ends in
/// a carriage return.
pub proof fn joined_lines_read_back(ls: Seq<Seq<char>>)
    requires
        ls.len() > 0,
        forall|i: int| 0 <= i < ls.len() ==> !(#[trigger] ls[i]).contains('\n'),
        forall|i: int|
            0 <= i < ls.len() ==> (#[trigger] ls[i]).len() == 0 || ls[i].last() != '\r',
    ensures
        lines(join(ls, "\n"@) + "\n"@) == ls,
    decreases ls.len(),
{
    reveal_strlit("\n");
    let sep = "\n"@;
    assert(sep =~= seq!['\n']);
    let first = ls[0];
    let rest = ls.drop_first();
    let whole = join(ls, sep) + sep;
    let tail = if rest.len() == 0 {
        Seq::empty()
    } else {
        join(rest, sep) + sep
    };
    join_first(ls, sep);
    assert(whole =~= first + sep + tail);
    assert forall|k: int| 0 <= k < first.len() implies whole[k] != '\n' by {
        assert(whole[k] == first[k]);
        assert(ls[0].contains(first[k]));
    }
    index_of_at(whole, '\n', first.len() as int);
    assert(whole.subrange(0, first.len() as int) =~= first);
    assert(whole.subrange(first.len() as int + 1, whole.len() as int) =~= tail);
    assert(strip_cr(first) == first);
    if rest.len() == 0 {
        assert(lines(tail) =~= Seq::empty());
        assert(lines(whole) =~= ls);
    } else {
        assert forall|i: int| 0 <= i < rest.len() implies !(#[trigger] rest[i]).contains('\n') && (
        rest[i].len() == 0 || rest[i].last() != '\r') by {
            assert(rest[i] == ls[i + 1]);
            assert(!ls[i + 1].contains('\n'));
        }
        joined_lines_read_back(rest);
        assert(lines(whole) =~= ls);
    }
}

/// A join begins with its first piece.
pub proof fn join_first(parts: Seq<Seq<char>>, sep: Seq<char>)
    requires
        parts.len() > 0,
    ensures
        parts.len() == 1 ==> join(parts, sep) == parts[0],
        parts.len() > 1 ==> join(parts, sep) == parts[0] + sep + join(parts.drop_first(), sep),
    decreases parts.len(),
{
    if parts.len() > 1 {
        let init = parts.drop_last();
        join_first(init, sep);
        let rest = parts.drop_first();
        if parts.len() == 2 {
            assert(init.len() == 1);
            assert(join(parts, sep) =~= parts[0] + sep + join(rest, sep));
        } else {
            assert(rest.drop_last() =~= init.drop_first());
            assert(rest.last() == parts.last());
            assert(join(parts, sep) =~= parts[0] + sep + join(rest, sep));
        }
    }
}

/// The lines of a text hold no line feed.
pub proof fn lines_are_lines(s: Seq<char>)
    ensures
        forall|i: int| 0 <= i < lines(s).len() ==> !(#[trigger] lines(s)[i]).contains('\n'),
    decreases s.len(),
{
    if s.len() > 0 {
        let i = index_of(s, '\n');
        index_of_first(s, '\n');
        if i < s.len() {
            let rest = s.subrange(i + 1, s.len() as int);
            lines_are_lines(rest);
            let first = strip_cr(s.subrange(0, i));
            assert forall|k: int| 0 <= k < lines(s).len() implies !(
            #[trigger] lines(s)[k]).contains('\n') by {
                if k == 0 {
                    assert forall|j: int| 0 <= j < first.len() implies first[j] != '\n' by {
                        assert(first[j] == s[j]);
                    }
                } else {
                    assert(lines(s)[k] == lines(rest)[k - 1]);
                }
            }
        } else {
            assert(lines(s) =~= seq![s]);
            assert(!s.contains('\n'));
        }
    }
}

/// White space after a character that is none is trimmed away from behind it.
pub proof fn trim_end_behind(a: Seq<char>, b: Seq<char>)
    requires
        a.len() > 0,
        !is_space(a.last()),
    ensures
        trim_end(a + b) == a + trim_end(b),
    decreases b.len(),
{
    if b.len() == 0 {
        assert(a + b =~= a);
        assert(a + trim_end(b) =~= a);
    } else if is_space(b.last()) {
        assert((a + b).last() == b.last());
        assert((a + b).drop_last() =~= a + b.drop_last());
        trim_end_behind(a, b.drop_last());
    } else {
        assert((a + b).last() == b.last());
    }
}

/// A text trims to nothing exactly when it is white space throughout.
pub proof fn trim_empty(s: Seq<char>)
    ensures
        trim(s).len() == 0 <==> forall|i: int| 0 <= i < s.len() ==> is_space(#[trigger] s[i]),
{
    trim_start_empty(s);
    trim_end_empty(trim_start(s));
}

/// Trimming the front leaves nothing of white space, and all of what starts with
/// something else.
proof fn trim_start_empty(s: Seq<char>)
    ensures
        trim_start(s).len() == 0 <==> forall|i: int| 0 <= i < s.len() ==> is_space(#[trigger] s[i]),
        trim_start(s).len() > 0 ==> !is_space(trim_start(s)[0]),
    decreases s.len(),
{
    if s.len() > 0 && is_space(s[0]) {
        let t = s.drop_first();
        trim_start_empty(t);
        if forall|i: int| 0 <= i < t.len() ==> is_space(#[trigger] t[i]) {
            assert forall|i: int| 0 <= i < s.len() implies is_space(#[trigger] s[i]) by {
                if i > 0 {
                    assert(t[i - 1] == s[i]);
                }
            }
        } else {
            let i = choose|i: int| 0 <= i < t.len() && !is_space(#[trigger] t[i]);
            assert(s[i + 1] == t[i]);
        }
    }
}

/// Trimming the end leaves nothing of white space only.
proof fn trim_end_empty(s: Seq<char>)
    ensures
        trim_end(s).len() == 0 <==> forall|i: int| 0 <= i < s.len() ==> is_space(#[trigger] s[i]),
    decreases s.len(),
{
    if s.len() > 0 && is_space(s.last()) {
        let t = s.drop_last();
        trim_end_empty(t);
        if forall|i: int| 0 <= i < t.len() ==> is_space(#[trigger] t[i]) {
            assert forall|i: int| 0 <= i < s.len() implies is_space(#[trigger] s[i]) by {
                if i < t.len() {
                    assert(t[i] == s[i]);
                }
            }
        } else {
            let i = choose|i: int| 0 <= i < t.len() && !is_space(#[trigger] t[i]);
            assert(s[i] == t[i]);
        }
    } else if s.len() > 0 {
        assert(!is_space(s[s.len() - 1]));
    }
}

/// A text without white space at either end is its own trim.
pub proof fn trim_of_tight(s: Seq<char>)
    requires
        s.len() > 0 ==> !is_space(s[0]) && !is_space(s.last()),
    ensures
        trim(s) == s,
{
}

/// The value of a decimal digit.
pub open spec fn digit_value(c: char) -> Option<int> {
    if '0' <= c && c <= '9' {
        Some(c as u32 - 48)
    } else {
        None
    }
}

/// The number that some decimal digits write.
pub open spec fn digits_value(s: Seq<char>) -> Option<int>
    decreases s.len(),
{
    if s.len() == 0 {
        None
    } else {
        match digit_value(s.last()) {
            None => None,
            Some(d) => if s.len() == 1 {
                Some(d)
            } else {
                match digits_value(s.drop_last()) {
                    Some(n) => Some(n * 10 + d),
                    None => None,
                }
            },
        }
    }
}

/// The number that a text writes: decimal digits, perhaps with a plus sign in
/// front, of a number up to `max`.
pub open spec fn number_in(s: Seq<char>, max: int) -> Option<int> {
    let digits = if s.len() > 0 && s[0] == '+' {
        s.drop_first()
    } else {
        s
    };
    match digits_value(digits) {
        Some(n) => if n <= max {
            Some(n)
        } else {
            None
        },
        None => None,
    }
}

/// More digits write no smaller number.
proof fn digits_grow(s: Seq<char>, k: int)
    requires
        0 < k <= s.len(),
        digits_value(s) is Some,
    ensures
        digits_value(s.subrange(0, k)) matches Some(n) && 0 <= n <= digits_value(s)->0,
    decreases s.len(),
{
    if k < s.len() {
        let t = s.drop_last();
        digits_grow(t, k);
        assert(t.subrange(0, k) =~= s.subrange(0, k));
        digits_grow(t, t.len() as int);
        assert(t.subrange(0, t.len() as int) =~= t);
    } else {
        assert(s.subrange(0, k) =~= s);
        if s.len() > 1 {
            let t = s.drop_last();
            digits_grow(t, t.len() as int);
            assert(t.subrange(0, t.len() as int) =~= t);
        }
    }
}

/// A part that is no number makes the whole no number.
proof fn digits_part(s: Seq<char>, k: int)
    requires
        0 < k <= s.len(),
        digits_value(s.subrange(0, k)) is None,
    ensures
        digits_value(s) is None,
{
    if digits_value(s) is Some {
        digits_grow(s, k);
    }
}

/// Reads a number.
pub fn parse_number(s: &str, max: u64) -> (r: Option<u64>)
    ensures
        match r {
            Some(n) => number_in(s@, max as int) == Some(n as int),
            None => number_in(s@, max as int) is None,
        },
{
    let v = chars_of(s);
    let start: usize = if v.len() > 0 && v[0] == '+' {
        1
    } else {
        0
    };
    let ghost d = v@.subrange(start as int, v@.len() as int);
    proof {
        if start == 1 {
            assert(d =~= s@.drop_first());
        } else {
            assert(d =~= s@);
        }
    }
    if start == v.len() {
        return None;
    }
    let mut n: u64 = 0;
    let mut i: usize = start;
    while i < v.len()
        invariant
            start <= i <= v@.len(),
            start < v@.len(),
            v@ == s@,
            d == v@.subrange(start as int, v@.len() as int),
            number_in(s@, max as int) == match digits_value(d) {
                Some(x) => if x <= max {
                    Some(x)
                } else {
                    None
                },
                None => None,
            },
            i == start ==> n == 0,
            i > start ==> digits_value(d.subrange(0, i - start)) == Some(n as int),
            n <= max,
        decreases v@.len() - i,
    {
        let c = v[i];
        let ghost t = d.subrange(0, i + 1 - start);
        proof {
            assert(t.drop_last() =~= d.subrange(0, i - start));
            assert(t.last() == c);
        }
        if !('0' <= c && c <= '9') {
            proof {
                digits_part(d, i + 1 - start);
            }
            return None;
        }
        let x: u64 = (c as u32 - 48) as u64;
        let next: u128 = n as u128 * 10 + x as u128;
        assert(digits_value(t) == Some(next as int));
        if next > max as u128 {
            proof {
                if digits_value(d) is Some {
                    digits_grow(d, i + 1 - start);
                }
            }
            return None;
        }
        n = next as u64;
        i = i + 1;
    }
    assert(d.subrange(0, i - start) =~= d);
    Some(n)
}

/// Every piece of a join stands in it.
pub proof fn pieces_stand_in_join(parts: Seq<Seq<char>>, sep: Seq<char>, i: int)
    requires
        0 <= i < parts.len(),
    ensures
        contains(join(parts, sep), parts[i]),
    decreases parts.len(),
{
    let all = join(parts, sep);
    if parts.len() == 1 {
        assert(all.subrange(0, all.len() as int) =~= parts[0]);
        assert(occurs_at(all, parts[0], 0));
    } else if i == parts.len() - 1 {
        let k = all.len() - parts[i].len();
        assert(all.subrange(k, k + parts[i].len()) =~= parts[i]);
        assert(occurs_at(all, parts[i], k));
    } else {
        let init = parts.drop_last();
        pieces_stand_in_join(init, sep, i);
        let k = choose|k: int| occurs_at(join(init, sep), init[i], k);
        assert(all.subrange(k, k + parts[i].len()) =~= join(init, sep).subrange(
            k,
            k + parts[i].len(),
        ));
        assert(occurs_at(all, parts[i], k));
    }
}

/// What stands in a part of a text stands in the text.
pub proof fn part_stands_in_whole(a: Seq<char>, b: Seq<char>, c: Seq<char>)
    ensures
        contains(a + b + c, b),
{
    let all = a + b + c;
    let k = a.len() as int;
    assert(all.subrange(k, k + b.len()) =~= b);
    assert(occurs_at(all, b, k));
}

/// Standing in a text is transitive.
pub proof fn contains_is_transitive(a: Seq<char>, b: Seq<char>, c: Seq<char>)
    requires
        contains(a, b),
        contains(b, c),
    ensures
        contains(a, c),
{
    let i = choose|i: int| occurs_at(a, b, i);
    let j = choose|j: int| occurs_at(b, c, j);
    assert(a.subrange(i + j, i + j + c.len()) =~= a.subrange(i, i + b.len()).subrange(
        j,
        j + c.len(),
    ));
    assert(occurs_at(a, c, i + j));
}

/// What stands in one of two texts stands in both put together.
pub proof fn stands_in_sum(a: Seq<char>, b: Seq<char>, x: Seq<char>)
    ensures
        contains(a, x) || contains(b, x) ==> contains(a + b, x),
        contains(a + x, x),
        contains(x + b, x),
{
    part_stands_in_whole(Seq::empty(), a, b);
    assert(Seq::<char>::empty() + a + b =~= a + b);
    part_stands_in_whole(a, b, Seq::empty());
    assert(a + b + Seq::<char>::empty() =~= a + b);
    if contains(a, x) {
        contains_is_transitive(a + b, a, x);
    }
    if contains(b, x) {
        contains_is_transitive(a + b, b, x);
    }
    part_stands_in_whole(a, x, Seq::empty());
    assert(a + x + Seq::<char>::empty() =~= a + x);
    part_stands_in_whole(Seq::empty(), x, b);
    assert(Seq::<char>::empty() + x + b =~= x + b);
}

/// A trimmed text stands in the text and has no blank at either end.
pub proof fn trimmed_is_inside(s: Seq<char>)
    ensures
        contains(s, trim(s)),
        trim(s).len() > 0 ==> !is_space(trim(s)[0]) && !is_space(trim(s).last()),
{
    let t = trim_start(s);
    start_is_behind(s);
    end_is_before(t);
    contains_is_transitive(s, t, trim(s));
    if trim(s).len() > 0 {
        assert(trim(s)[0] == t[0]);
    }
}

/// What is left of a text without its leading blanks ends it.
proof fn start_is_behind(s: Seq<char>)
    ensures
        contains(s, trim_start(s)),
        trim_start(s).len() > 0 ==> !is_space(trim_start(s)[0]),
    decreases s.len(),
{
    if s.len() > 0 && is_space(s[0]) {
        start_is_behind(s.drop_first());
        stands_in_sum(seq![s[0]], s.drop_first(), trim_start(s));
        assert(seq![s[0]] + s.drop_first() =~= s);
    } else {
        stands_in_sum(s, Seq::empty(), s);
        assert(s + Seq::<char>::empty() =~= s);
    }
}

/// What is left of a text without its trailing blanks begins it.
proof fn end_is_before(s: Seq<char>)
    ensures
        contains(s, trim_end(s)),
        trim_end(s).len() > 0 ==> !is_space(trim_end(s).last()) && trim_end(s)[0] == s[0],
{
    end_is_prefix(s);
    assert(occurs_at(s, trim_end(s), 0));
    if trim_end(s).len() > 0 {
        assert(trim_end(s)[0] == s.subrange(0, trim_end(s).len() as int)[0]);
    }
}

/// A text without its trailing blanks is a prefix of the text.
proof fn end_is_prefix(s: Seq<char>)
    ensures
        trim_end(s).len() <= s.len(),
        s.subrange(0, trim_end(s).len() as int) == trim_end(s),
        trim_end(s).len() > 0 ==> !is_space(trim_end(s).last()),
    decreases s.len(),
{
    if s.len() > 0 && is_space(s.last()) {
        let t = s.drop_last();
        end_is_prefix(t);
        let n = trim_end(t).len() as int;
        assert(s.subrange(0, n) =~= t.subrange(0, n));
    } else {
        assert(s.subrange(0, s.len() as int) =~= s);
    }
}

/// The pieces of a text put together again are the text, and none of them holds the separator.
pub proof fn pieces_make_the_text(s: Seq<char>, c: char, i: int)
    ensures
        split(s, c).len() > 0,
        join(split(s, c), seq![c]) == s,
        0 <= i < split(s, c).len() ==> !split(s, c)[i].contains(c),
    decreases s.len(),
{
    let k = index_of(s, c);
    index_of_first(s, c);
    if k >= s.len() {
        assert(split(s, c) =~= seq![s]);
        assert forall|m: int| 0 <= m < s.len() implies s[m] != c by {}
    } else {
        let head = s.subrange(0, k);
        let rest = s.subrange(k + 1, s.len() as int);
        pieces_make_the_text(rest, c, i - 1);
        let all = split(s, c);
        assert(all =~= seq![head] + split(rest, c));
        assert(all.drop_first() =~= split(rest, c));
        join_first(all, seq![c]);
        assert(head + seq![c] + rest =~= s);
        assert forall|m: int| 0 <= m < head.len() implies head[m] != c by {
            assert(head[m] == s[m]);
        }
        if 0 < i < all.len() {
            assert(all[i] == split(rest, c)[i - 1]);
        }
    }
}

/// A replaced character is gone and the others stay where they are.
pub proof fn characters_are_replaced(s: Seq<char>, from: char, to: char, i: int)
    requires
        0 <= i < s.len(),
    ensures
        replace_char(s, from, to).len() == s.len(),
        s[i] == from ==> replace_char(s, from, to)[i] == to,
        s[i] != from ==> replace_char(s, from, to)[i] == s[i],
{
}

/// The numeral of a number is read back as that number.
pub proof fn numerals_are_read_back(n: nat, max: int)
    ensures
        n <= max ==> number_in(decimal(n), max) == Some(n as int),
        n > max ==> number_in(decimal(n), max) is None,
{
    decimal_value(n);
}

/// The value of a numeral.
proof fn decimal_value(n: nat)
    ensures
        decimal(n).len() > 0,
        digits_value(decimal(n)) == Some(n as int),
        '0' <= decimal(n)[0] <= '9',
    decreases n,
{
    if n < 10 {
        assert(decimal(n).last() == digit(n));
    } else {
        decimal_value(n / 10);
        let d = decimal(n);
        assert(d.drop_last() =~= decimal(n / 10));
        assert(d.last() == digit(n % 10));
        assert(d[0] == decimal(n / 10)[0]);
    }
}

/// A line loses one carriage return at its end, and nothing else.
pub proof fn line_ends_are_taken_off(s: Seq<char>)
    ensures
        strip_cr(s.push('\r')) == s,
        s.len() == 0 || s.last() != '\r' ==> strip_cr(s) == s,
{
    assert(s.push('\r').drop_last() =~= s);
}

/// Letters are those of the alphabet, in either case; with the digits they are all that counts
/// as alphanumeric.
pub proof fn letters_and_digits(c: char)
    ensures
        is_alpha(c) <==> 'a' <= c <= 'z' || 'A' <= c <= 'Z',
        is_alnum(c) <==> 'a' <= c <= 'z' || 'A' <= c <= 'Z' || '0' <= c <= '9',
{
}

/// Replacing a character by a text leaves the others as they are, in their order.
pub proof fn character_is_spelled_out(s: Seq<char>, from: char, to: Seq<char>, c: char)
    ensures
        c == from ==> replace_with(s.push(c), from, to) == replace_with(s, from, to) + to,
        c != from ==> replace_with(s.push(c), from, to) == replace_with(s, from, to).push(c),
        replace_with(Seq::empty(), from, to).len() == 0,
{
    assert(s.push(c).drop_last() =~= s);
    assert(replace_with(s, from, to) + seq![c] =~= replace_with(s, from, to).push(c));
}

} // verus!
