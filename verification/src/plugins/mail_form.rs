//! Mails that the mail parser can be given.
//!
//! On a few damaged mails the arithmetic of the parser overflows: where a soft line
//! break stands right before a boundary, and where a trace header states the least
//! number there is as its time zone. What a nested message holds is hidden if the message
//! itself is encoded, which the standards do not allow; such mails are set apart too.
use crate::text::chars_of;
use vstd::prelude::*;

verus! {

/// A blank within a line.
pub open spec fn blank(c: u8) -> bool {
    c == 0x20 || c == 0x09 || c == 0x0d || c == 0x0c
}

/// What does not count in the spelling of a field: blanks, line ends, quotes and
/// backslashes.
pub open spec fn skipped(c: u8) -> bool {
    blank(c) || c == 0x0a || c == 0x22 || c == 0x5c
}

/// The lower case of an ASCII character.
pub open spec fn lower(c: u8) -> u8 {
    if 0x41 <= c && c <= 0x5a {
        (c + 0x20) as u8
    } else {
        c
    }
}

/// From `i` on, the bytes spell a word from its letter `k` on, whatever the case and what
/// does not count.
pub open spec fn spelled(b: Seq<u8>, i: int, w: Seq<char>, k: int) -> bool
    decreases b.len() - i,
{
    if k >= w.len() {
        true
    } else if i < 0 || i >= b.len() {
        false
    } else if skipped(b[i]) {
        spelled(b, i + 1, w, k)
    } else {
        lower(b[i]) as char == w[k] && spelled(b, i + 1, w, k + 1)
    }
}

/// A word begins at `i`.
pub open spec fn begins(b: Seq<u8>, i: int, w: Seq<char>) -> bool {
    0 <= i < b.len() && !skipped(b[i]) && spelled(b, i, w, 0)
}

/// The first index from `i` on at which no blank stands.
pub open spec fn past_blanks(b: Seq<u8>, i: int) -> int
    decreases b.len() - i,
{
    if 0 <= i < b.len() && blank(b[i]) {
        past_blanks(b, i + 1)
    } else {
        i
    }
}

/// A line ends at `i` and the next one is blank.
pub open spec fn blank_line_at(b: Seq<u8>, i: int) -> bool {
    0 <= i < b.len() && b[i] == 0x0a && past_blanks(b, i + 1) < b.len() && b[past_blanks(b, i + 1)]
        == 0x0a
}

/// A blank line stands between two places, so that they are in different headers.
pub open spec fn parted(b: Seq<u8>, i: int, j: int) -> bool {
    exists|k: int| i <= k < j && blank_line_at(b, k)
}

/// A soft line break stands right before two dashes.
pub open spec fn soft_break_at(b: Seq<u8>, i: int) -> bool {
    let e = past_blanks(b, i + 1);
    0 <= i < b.len() && b[i] == 0x3d && e + 2 < b.len() && b[e] == 0x0a && b[e + 1] == 0x2d && b[e
        + 2] == 0x2d
}

/// A trace header begins.
pub open spec fn trace_at(b: Seq<u8>, i: int) -> bool {
    begins(b, i, "received:"@)
}

/// The field begins that makes a part a message, or one whose type a comment hides.
pub open spec fn message_at(b: Seq<u8>, i: int) -> bool {
    begins(b, i, "content-type:message"@) || begins(b, i, "content-type:("@)
}

/// The field begins that makes messages of the parts of a part, or one whose type a
/// comment hides.
pub open spec fn digest_at(b: Seq<u8>, i: int) -> bool {
    begins(b, i, "content-type:multipart/digest"@) || begins(b, i, "content-type:multipart("@)
        || begins(b, i, "content-type:multipart/("@) || begins(b, i, "content-type:("@)
}

/// The field begins that makes a part encoded, or one that is encoded itself.
pub open spec fn encoding_at(b: Seq<u8>, i: int) -> bool {
    begins(b, i, "content-transfer-encoding:base64"@) || begins(
        b,
        i,
        "content-transfer-encoding:quoted-printable"@,
    ) || begins(b, i, "content-transfer-encoding:=?"@)
}

/// The digits of the least number that an `i64` can be begin.
pub open spec fn least_number_at(b: Seq<u8>, i: int) -> bool {
    begins(b, i, "9223372036854775808"@)
}

/// A trace header states the least number as far as that can be told.
pub open spec fn least_number_traced(b: Seq<u8>) -> bool {
    exists|i: int, k: int|
        0 <= i < k && #[trigger] trace_at(b, i) && #[trigger] least_number_at(b, k) && !parted(
            b,
            i,
            k,
        )
}

/// A part is an encoded message as far as that can be told.
pub open spec fn message_encoded(b: Seq<u8>) -> bool {
    exists|i: int, j: int| #[trigger]
        message_at(b, i) && #[trigger] encoding_at(b, j) && !parted(b, i, j) && !parted(b, j, i)
}

/// A part of a digest is an encoded message as far as that can be told.
pub open spec fn digest_encoded(b: Seq<u8>) -> bool {
    exists|i: int, j: int| #[trigger] digest_at(b, i) && #[trigger] encoding_at(b, j)
}

/// The mail parser can be given the bytes.
pub open spec fn parsable(b: Seq<u8>) -> bool {
    &&& b.len() <= i32::MAX
    &&& forall|i: int| !#[trigger] soft_break_at(b, i)
    &&& !least_number_traced(b)
    &&& !message_encoded(b)
    &&& !digest_encoded(b)
}

/// Whether a byte is a blank within a line.
fn is_blank(c: u8) -> (r: bool)
    ensures
        r == blank(c),
{
    c == 0x20 || c == 0x09 || c == 0x0d || c == 0x0c
}

/// Whether a word begins at `i`.
fn word_begins(b: &[u8], i: usize, word: &str) -> (r: bool)
    requires
        i < b@.len(),
    ensures
        r == begins(b@, i as int, word@),
{
    let w = chars_of(word);
    if is_blank(b[i]) || b[i] == 0x0a || b[i] == 0x22 || b[i] == 0x5c {
        return false;
    }
    let mut p: usize = i;
    let mut k: usize = 0;
    while k < w.len() && p < b.len()
        invariant
            w@ == word@,
            i <= p <= b@.len(),
            k <= w@.len(),
            i < b@.len(),
            !skipped(b@[i as int]),
            spelled(b@, i as int, w@, 0) == spelled(b@, p as int, w@, k as int),
        decreases b@.len() - p,
    {
        let c = b[p];
        if !(is_blank(c) || c == 0x0a || c == 0x22 || c == 0x5c) {
            let l: u8 = if 0x41 <= c && c <= 0x5a {
                c + 0x20
            } else {
                c
            };
            if l as char != w[k] {
                return false;
            }
            k = k + 1;
        }
        p = p + 1;
    }
    k >= w.len()
}

/// The first index from `i` on at which no blank stands.
fn skip_blanks(b: &[u8], i: usize) -> (r: usize)
    requires
        i <= b@.len(),
    ensures
        r == past_blanks(b@, i as int),
        i <= r <= b@.len(),
{
    let mut p: usize = i;
    while p < b.len() && is_blank(b[p])
        invariant
            i <= p <= b@.len(),
            past_blanks(b@, i as int) == past_blanks(b@, p as int),
        decreases b@.len() - p,
    {
        p = p + 1;
    }
    p
}

/// No blank line stands between two places, nor between the first one and a later one
/// unless one stands behind the second.
proof fn parting(b: Seq<u8>, i: int, p: int)
    requires
        i <= p,
    ensures
        !parted(b, i, i),
        parted(b, i, p + 1) == (parted(b, i, p) || blank_line_at(b, p)),
{
    if parted(b, i, p) {
        let k = choose|k: int| i <= k < p && blank_line_at(b, k);
        assert(i <= k < p + 1 && blank_line_at(b, k));
    }
    if parted(b, i, p + 1) {
        let k = choose|k: int| i <= k < p + 1 && blank_line_at(b, k);
        if k < p {
            assert(i <= k < p && blank_line_at(b, k));
        }
    }
    if blank_line_at(b, p) {
        assert(i <= p < p + 1);
    }
}

/// What a field says of a part.
#[derive(PartialEq, Eq, Structural, Clone, Copy)]
enum Kind {
    Trace,
    Message,
    Encoding,
}

/// A field of a kind begins.
spec fn kind_at(b: Seq<u8>, kind: Kind, i: int) -> bool {
    match kind {
        Kind::Trace => trace_at(b, i),
        Kind::Message => message_at(b, i),
        Kind::Encoding => encoding_at(b, i),
    }
}

/// A field of a kind stands before `p` in the header at `p`.
spec fn seen(b: Seq<u8>, kind: Kind, p: int) -> bool {
    exists|i: int| 0 <= i < p && #[trigger] kind_at(b, kind, i) && !parted(b, i, p)
}

/// One place further, what was seen and what stands there has been seen; or nothing, if
/// the header ends.
proof fn seen_step(b: Seq<u8>, kind: Kind, p: int)
    requires
        0 <= p < b.len(),
    ensures
        seen(b, kind, p + 1) == (!blank_line_at(b, p) && (seen(b, kind, p) || kind_at(b, kind, p))),
{
    if seen(b, kind, p + 1) {
        let i = choose|i: int|
            0 <= i < p + 1 && #[trigger] kind_at(b, kind, i) && !parted(b, i, p + 1);
        parting(b, i, p);
        assert(i < p ==> kind_at(b, kind, i) && !parted(b, i, p));
    }
    if !blank_line_at(b, p) {
        parting(b, p, p);
        if kind_at(b, kind, p) {
            assert(!parted(b, p, p + 1));
        }
        if seen(b, kind, p) {
            let i = choose|i: int| 0 <= i < p && #[trigger] kind_at(b, kind, i) && !parted(b, i, p);
            parting(b, i, p);
            assert(kind_at(b, kind, i) && !parted(b, i, p + 1));
        }
    }
}

/// Whether the mail parser can be given the bytes.
pub fn is_parsable(b: &[u8]) -> (r: bool)
    ensures
        r == parsable(b@),
{
    let n: usize = b.len();
    if n > 0x7fff_ffff {
        return false;
    }
    let mut trace = false;
    let mut message = false;
    let mut encoding = false;
    let mut digest = false;
    let mut encoded = false;
    let mut p: usize = 0;
    while p < n
        invariant
            p <= n == b@.len() <= 0x7fff_ffff,
            trace == seen(b@, Kind::Trace, p as int),
            message == seen(b@, Kind::Message, p as int),
            encoding == seen(b@, Kind::Encoding, p as int),
            digest == exists|i: int| 0 <= i < p && #[trigger] digest_at(b@, i),
            encoded == exists|i: int| 0 <= i < p && #[trigger] encoding_at(b@, i),
            forall|i: int| 0 <= i < p ==> !#[trigger] soft_break_at(b@, i),
            forall|i: int, k: int|
                0 <= i < k < p && #[trigger] trace_at(b@, i) && #[trigger] least_number_at(b@, k)
                    ==> parted(b@, i, k),
            forall|i: int, j: int|
                0 <= i < p && 0 <= j < p && #[trigger] message_at(b@, i) && #[trigger] encoding_at(
                    b@,
                    j,
                ) ==> parted(b@, i, j) || parted(b@, j, i),
        decreases n - p,
    {
        let ghost q = p as int;
        proof {
            seen_step(b@, Kind::Trace, q);
            seen_step(b@, Kind::Message, q);
            seen_step(b@, Kind::Encoding, q);
            parting(b@, q, q);
        }
        let e = skip_blanks(b, p + 1);
        let c = b[p];
        let ends = c == 0x0a && e < n && b[e] == 0x0a;
        if c == 0x3d && n - e > 2 && b[e] == 0x0a && b[e + 1] == 0x2d && b[e + 2] == 0x2d {
            assert(soft_break_at(b@, q));
            return false;
        }
        let is_trace = word_begins(b, p, "received:");
        let hidden = word_begins(b, p, "content-type:(");
        let is_message = hidden || word_begins(b, p, "content-type:message");
        let is_digest = hidden || word_begins(b, p, "content-type:multipart/digest") || word_begins(
            b,
            p,
            "content-type:multipart(",
        ) || word_begins(b, p, "content-type:multipart/(");
        let is_encoding = word_begins(b, p, "content-transfer-encoding:base64") || word_begins(
            b,
            p,
            "content-transfer-encoding:quoted-printable",
        ) || word_begins(b, p, "content-transfer-encoding:=?");
        if trace && word_begins(b, p, "9223372036854775808") {
            proof {
                let i = choose|i: int|
                    0 <= i < q && #[trigger] kind_at(b@, Kind::Trace, i) && !parted(b@, i, q);
                assert(trace_at(b@, i) && least_number_at(b@, q) && !parted(b@, i, q));
            }
            return false;
        }
        if is_message && (encoding || is_encoding) {
            proof {
                let j = if encoding {
                    choose|j: int|
                        0 <= j < q && #[trigger] kind_at(b@, Kind::Encoding, j) && !parted(
                            b@,
                            j,
                            q,
                        )
                } else {
                    q
                };
                assert(message_at(b@, q) && encoding_at(b@, j));
                assert(!parted(b@, j, q) && !parted(b@, q, j));
            }
            return false;
        }
        if is_encoding && message {
            proof {
                let i = choose|i: int|
                    0 <= i < q && #[trigger] kind_at(b@, Kind::Message, i) && !parted(b@, i, q);
                assert(message_at(b@, i) && encoding_at(b@, q));
                assert(!parted(b@, i, q) && !parted(b@, q, i));
            }
            return false;
        }
        proof {
            assert forall|i: int, k: int|
                0 <= i < k < q + 1 && #[trigger] trace_at(b@, i) && #[trigger] least_number_at(
                    b@,
                    k,
                ) implies parted(b@, i, k) by {
                if k == q && !parted(b@, i, k) {
                    assert(kind_at(b@, Kind::Trace, i));
                }
            }
            assert forall|i: int, j: int|
                0 <= i < q + 1 && 0 <= j < q + 1 && #[trigger] message_at(b@, i)
                    && #[trigger] encoding_at(b@, j) implies parted(b@, i, j) || parted(
                b@,
                j,
                i,
            ) by {
                assert(kind_at(b@, Kind::Message, i));
                assert(kind_at(b@, Kind::Encoding, j));
            }
            if is_digest {
                assert(digest_at(b@, q));
            }
            if is_encoding {
                assert(encoding_at(b@, q));
            }
        }
        trace = !ends && (trace || is_trace);
        message = !ends && (message || is_message);
        encoding = !ends && (encoding || is_encoding);
        digest = digest || is_digest;
        encoded = encoded || is_encoding;
        p = p + 1;
    }
    proof {
        if digest && encoded {
            let i = choose|i: int| 0 <= i < n && #[trigger] digest_at(b@, i);
            let j = choose|j: int| 0 <= j < n && #[trigger] encoding_at(b@, j);
            assert(digest_at(b@, i) && encoding_at(b@, j));
        }
    }
    !(digest && encoded)
}

} // verus!
