//! Finds feedback on agents in the messages of users.
use crate::duplicate::duplicate_opt;
use crate::events::{
    AgentFeedback, AgentFeedbackView, ChannelInbound, ChannelInboundView, FeedbackType,
};
use crate::gateway::protocol::{PluginHealthResponse, PluginHealthResponseView};
use crate::json::{Json, JsonView};
use crate::outside::{lowercase, to_lowercase};
use crate::text::{contains, has_part, own, view_opt};
use vstd::prelude::*;

verus! {

/// A cache of the `lru` crate.
#[verifier::external_type_specification]
#[verifier::external_body]
#[verifier::reject_recursive_types(K)]
#[verifier::reject_recursive_types(V)]
#[verifier::reject_recursive_types(S)]
pub struct ExLruCache<K, V, S>(lru::LruCache<K, V, S>);

/// How a cache of the `lru` crate hashes its keys.
#[verifier::external_type_specification]
#[verifier::external_body]
pub struct ExCacheHasher(lru::DefaultHasher);

/// What a cache holds: its keys and values, the one put last first.
pub uninterp spec fn rows_of(c: lru::LruCache<String, String>) -> Seq<(Seq<char>, Seq<char>)>;

/// How many keys a cache may hold.
pub uninterp spec fn limit_of(c: lru::LruCache<String, String>) -> nat;

/// The rows that do not have a key.
pub open spec fn without(rows: Seq<(Seq<char>, Seq<char>)>, k: Seq<char>) -> Seq<
    (Seq<char>, Seq<char>),
>
    decreases rows.len(),
{
    if rows.len() == 0 {
        rows
    } else if rows.last().0 == k {
        without(rows.drop_last(), k)
    } else {
        without(rows.drop_last(), k).push(rows.last())
    }
}

/// The rows of a cache with a key set to a value: that row comes first, and where
/// the key is new and the cache is full the last row leaves.
pub open spec fn put_first(
    rows: Seq<(Seq<char>, Seq<char>)>,
    limit: nat,
    k: Seq<char>,
    v: Seq<char>,
) -> Seq<(Seq<char>, Seq<char>)> {
    if exists|i: int| 0 <= i < rows.len() && (#[trigger] rows[i]).0 == k {
        seq![(k, v)] + without(rows, k)
    } else if rows.len() == limit {
        seq![(k, v)] + rows.drop_last()
    } else {
        seq![(k, v)] + rows
    }
}

/// `lru::LruCache::new`: an empty cache with a limit. It allocates room for the
/// limit at once, so the limit is kept well below what can be addressed.
#[verifier::external_body]
fn cache_new(limit: usize) -> (r: lru::LruCache<String, String>)
    requires
        0 < limit <= usize::MAX / 128,
    ensures
        rows_of(r).len() == 0,
        limit_of(r) == limit,
{
    lru::LruCache::new(std::num::NonZeroUsize::new(limit).unwrap())
}

/// `lru::LruCache::put`: sets a key, makes it the most recent one, and drops the
/// least recent one where a new key finds the cache full.
#[verifier::external_body]
fn cache_put(c: &mut lru::LruCache<String, String>, k: String, v: String)
    ensures
        rows_of(*final(c)) == put_first(rows_of(*old(c)), limit_of(*old(c)), k@, v@),
        limit_of(*final(c)) == limit_of(*old(c)),
{
    c.put(k, v);
}

/// `lru::LruCache::peek`, with the value copied: the value of a key, if the cache
/// holds it.
#[verifier::external_body]
fn cache_peek(c: &lru::LruCache<String, String>, k: &str) -> (r: Option<String>)
    ensures
        match r {
            Some(v) => rows_of(*c).contains((k@, v@)),
            None => forall|i: int| 0 <= i < rows_of(*c).len() ==> (
                #[trigger] rows_of(*c)[i]
            ).0 != k@,
        },
{
    c.peek(k).cloned()
}

/// The words of a correction occur in a text in lower case.
pub open spec fn corrects(l: Seq<char>) -> bool {
    contains(l, "no, i"@) || contains(l, "no that's"@) || contains(l, "not that"@)
        || contains(l, "i meant"@) || contains(l, "i think you"@) || contains(l, "wrong"@)
        || contains(l, "incorrect"@)
}

/// Whether the words of a correction occur in a text in lower case.
fn corrects_text(l: &str) -> (r: bool)
    ensures
        r == corrects(l@),
{
    has_part(l, "no, i") || has_part(l, "no that's") || has_part(l, "not that")
        || has_part(l, "i meant") || has_part(l, "i think you") || has_part(l, "wrong")
        || has_part(l, "incorrect")
}

/// The words of a confirmation occur in a text in lower case.
pub open spec fn confirms(l: Seq<char>) -> bool {
    contains(l, "yes, exactly"@) || contains(l, "yes exactly"@)
        || contains(l, "that's right"@) || contains(l, "perfect"@)
        || contains(l, "spot on"@) || contains(l, "precisely"@) || contains(l, "correct"@)
}

/// Whether the words of a confirmation occur in a text in lower case.
fn confirms_text(l: &str) -> (r: bool)
    ensures
        r == confirms(l@),
{
    has_part(l, "yes, exactly") || has_part(l, "yes exactly")
        || has_part(l, "that's right") || has_part(l, "perfect") || has_part(l, "spot on")
        || has_part(l, "precisely") || has_part(l, "correct")
}

/// The words of a preference occur in a text in lower case.
pub open spec fn prefers(l: Seq<char>) -> bool {
    contains(l, "i prefer"@) || contains(l, "i'd prefer"@) || contains(l, "i like"@)
        || contains(l, "i dislike"@) || contains(l, "shorter"@) || contains(l, "longer"@)
        || contains(l, "more detailed"@) || contains(l, "less detailed"@)
        || contains(l, "always do"@) || contains(l, "never do"@) || contains(l, "don't"@)
        || contains(l, "avoid"@)
}

/// Whether the words of a preference occur in a text in lower case.
fn prefers_text(l: &str) -> (r: bool)
    ensures
        r == prefers(l@),
{
    has_part(l, "i prefer") || has_part(l, "i'd prefer") || has_part(l, "i like")
        || has_part(l, "i dislike") || has_part(l, "shorter") || has_part(l, "longer")
        || has_part(l, "more detailed") || has_part(l, "less detailed")
        || has_part(l, "always do") || has_part(l, "never do") || has_part(l, "don't")
        || has_part(l, "avoid")
}

/// The feedback that a text in lower case gives and how sure that is, in
/// hundredths.
pub open spec fn signal_in(l: Seq<char>) -> (u32, Option<FeedbackType>) {
    if corrects(l) {
        (85, Some(FeedbackType::Correction))
    } else if confirms(l) {
        (88, Some(FeedbackType::Confirmation))
    } else if prefers(l) {
        (75, Some(FeedbackType::Preference))
    } else {
        (0, None)
    }
}

/// The feedback that a text in lower case gives and how sure that is.
pub fn analyze_lowercase(l: &str) -> (r: (u32, Option<FeedbackType>))
    ensures
        r == signal_in(l@),
{
    if corrects_text(l) {
        (85, Some(FeedbackType::Correction))
    } else if confirms_text(l) {
        (88, Some(FeedbackType::Confirmation))
    } else if prefers_text(l) {
        (75, Some(FeedbackType::Preference))
    } else {
        (0, None)
    }
}

/// The feedback that a message gives and how sure that is, in hundredths. Case
/// does not matter.
pub fn analyze_heuristics(text: &str) -> (r: (u32, Option<FeedbackType>))
    ensures
        r == signal_in(lowercase(text@)),
{
    analyze_lowercase(&to_lowercase(text))
}

/// The preference that a text in lower case states: its key and its value.
pub open spec fn preference_in(l: Seq<char>) -> Option<(Seq<char>, Seq<char>)> {
    if contains(l, "short"@) && contains(l, "response"@) {
        Some(("response_length"@, "short"@))
    } else if contains(l, "long"@) && contains(l, "response"@) {
        Some(("response_length"@, "long"@))
    } else if contains(l, "concise"@) {
        Some(("style"@, "concise"@))
    } else if contains(l, "detailed"@) {
        Some(("style"@, "detailed"@))
    } else if contains(l, "formal"@) {
        Some(("tone"@, "formal"@))
    } else if contains(l, "casual"@) || contains(l, "friendly"@) {
        Some(("tone"@, "casual"@))
    } else {
        None
    }
}

/// The first of an optional pair.
pub open spec fn first_of(p: Option<(Seq<char>, Seq<char>)>) -> Option<Seq<char>> {
    match p {
        Some((k, _)) => Some(k),
        None => None,
    }
}

/// The second of an optional pair.
pub open spec fn second_of(p: Option<(Seq<char>, Seq<char>)>) -> Option<Seq<char>> {
    match p {
        Some((_, v)) => Some(v),
        None => None,
    }
}

/// The preference that a text in lower case states.
pub fn preference_lowercase(l: &str) -> (r: (Option<String>, Option<String>))
    ensures
        view_opt(r.0) == first_of(preference_in(l@)),
        view_opt(r.1) == second_of(preference_in(l@)),
{
    if has_part(l, "short") && has_part(l, "response") {
        (Some(own("response_length")), Some(own("short")))
    } else if has_part(l, "long") && has_part(l, "response") {
        (Some(own("response_length")), Some(own("long")))
    } else if has_part(l, "concise") {
        (Some(own("style")), Some(own("concise")))
    } else if has_part(l, "detailed") {
        (Some(own("style")), Some(own("detailed")))
    } else if has_part(l, "formal") {
        (Some(own("tone")), Some(own("formal")))
    } else if has_part(l, "casual") || has_part(l, "friendly") {
        (Some(own("tone")), Some(own("casual")))
    } else {
        (None, None)
    }
}

/// The preference that a message states. Case does not matter.
pub fn extract_preference(text: &str) -> (r: (Option<String>, Option<String>))
    ensures
        view_opt(r.0) == first_of(preference_in(lowercase(text@))),
        view_opt(r.1) == second_of(preference_in(lowercase(text@))),
{
    preference_lowercase(&to_lowercase(text))
}

/// How sure a signal is, as a number.
pub open spec fn score_numeral(score: u32) -> Seq<char> {
    if score == 85 {
        "0.85"@
    } else if score == 88 {
        "0.88"@
    } else if score == 75 {
        "0.75"@
    } else {
        "0.0"@
    }
}

/// How sure a signal is, as a number.
fn numeral_of(score: u32) -> (r: String)
    ensures
        r@ == score_numeral(score),
{
    if score == 85 {
        own("0.85")
    } else if score == 88 {
        own("0.88")
    } else if score == 75 {
        own("0.75")
    } else {
        own("0.0")
    }
}

/// No key stands in two rows.
pub open spec fn keys_differ(rows: Seq<(Seq<char>, Seq<char>)>) -> bool {
    forall|i: int, j: int| 0 <= i < j < rows.len() ==> (
        #[trigger] rows[i]
    ).0 != (#[trigger] rows[j]).0
}

/// The value of a key.
pub open spec fn value_of(rows: Seq<(Seq<char>, Seq<char>)>, k: Seq<char>) -> Option<Seq<char>> {
    if exists|i: int| 0 <= i < rows.len() && (#[trigger] rows[i]).0 == k {
        let i = choose|i: int| 0 <= i < rows.len() && (#[trigger] rows[i]).0 == k;
        Some(rows[i].1)
    } else {
        None
    }
}

/// Rows that are left of rows with different keys have different keys, none of
/// them the one left out.
proof fn filtered_keys_differ(rows: Seq<(Seq<char>, Seq<char>)>, k: Seq<char>)
    requires
        keys_differ(rows),
    ensures
        ({
            let f = without(rows, k);
            &&& keys_differ(f)
            &&& forall|i: int| 0 <= i < f.len() ==> (#[trigger] f[i]).0 != k && rows.contains(f[i])
            &&& f.len() <= rows.len()
            &&& (exists|i: int| 0 <= i < rows.len() && (#[trigger] rows[i]).0 == k) ==> f.len()
                < rows.len()
            &&& forall|i: int|
                0 <= i < rows.len() && (#[trigger] rows[i]).0 != k ==> f.contains(rows[i])
        }),
    decreases rows.len(),
{
    let f = without(rows, k);
    if rows.len() > 0 {
        let rest = rows.drop_last();
        filtered_keys_differ(rest, k);
        let g = without(rest, k);
        assert forall|i: int| 0 <= i < g.len() implies (#[trigger] g[i]).0 != rows.last().0 by {
            assert(rest.contains(g[i]));
        }
        assert forall|i: int| 0 <= i < rest.len() implies rows.contains(#[trigger] rest[i]) by {
            assert(rows[i] == rest[i]);
        }
        if rows.last().0 != k {
            assert(f == g.push(rows.last()));
            assert forall|i: int| 0 <= i < f.len() implies (#[trigger] f[i]).0 != k
                && rows.contains(f[i]) by {
                if i < g.len() {
                    assert(f[i] == g[i]);
                    assert(rest.contains(g[i]));
                } else {
                    assert(rows[rows.len() - 1] == f[i]);
                }
            }
            assert forall|i: int| 0 <= i < rows.len() && (#[trigger] rows[i]).0 != k implies f.contains(
                rows[i],
            ) by {
                if i < rest.len() {
                    assert(rest[i] == rows[i]);
                    let n = choose|n: int| 0 <= n < g.len() && g[n] == rest[i];
                    assert(f[n] == rows[i]);
                } else {
                    assert(f[g.len() as int] == rows[i]);
                }
            }
            if exists|i: int| 0 <= i < rows.len() && (#[trigger] rows[i]).0 == k {
                let i = choose|i: int| 0 <= i < rows.len() && (#[trigger] rows[i]).0 == k;
                assert(rest[i].0 == k);
            }
        } else {
            assert(f == g);
            assert forall|i: int| 0 <= i < f.len() implies (#[trigger] f[i]).0 != k
                && rows.contains(f[i]) by {
                assert(rest.contains(g[i]));
            }
            assert forall|i: int| 0 <= i < rows.len() && (#[trigger] rows[i]).0 != k implies f.contains(
                rows[i],
            ) by {
                assert(rest[i] == rows[i]);
            }
        }
    }
}

/// The answers that were given last, by the request that they belong to.
pub struct ResponseBuffer {
    cache: lru::LruCache<String, String>,
}

impl ResponseBuffer {
    /// The requests and their answers, the latest first.
    pub closed spec fn rows(self) -> Seq<(Seq<char>, Seq<char>)> {
        rows_of(self.cache)
    }

    /// How many answers are kept.
    pub closed spec fn limit(self) -> nat {
        limit_of(self.cache)
    }

    /// No more answers than the limit are kept, and one of each request.
    pub closed spec fn wf(self) -> bool {
        0 < limit_of(self.cache) && rows_of(self.cache).len() <= limit_of(self.cache)
            && keys_differ(rows_of(self.cache))
    }

    /// An empty buffer.
    pub fn new(limit: usize) -> (r: ResponseBuffer)
        requires
            0 < limit <= usize::MAX / 128,
        ensures
            r.wf(),
            r.rows().len() == 0,
            r.limit() == limit,
    {
        ResponseBuffer { cache: cache_new(limit) }
    }

    /// Keeps the answer to a request.
    pub fn remember(&mut self, id: &str, answer: &str)
        requires
            old(self).wf(),
        ensures
            final(self).wf(),
            final(self).rows() == put_first(old(self).rows(), old(self).limit(), id@, answer@),
            final(self).limit() == old(self).limit(),
    {
        proof {
            put_first_kept(self.rows(), self.limit(), id@, answer@);
        }
        cache_put(&mut self.cache, own(id), own(answer));
    }

    /// The answer to a request, if it is kept.
    pub fn recall(&self, id: &str) -> (r: Option<String>)
        requires
            self.wf(),
        ensures
            view_opt(r) == value_of(self.rows(), id@),
    {
        let r = cache_peek(&self.cache, id);
        proof {
            if r is Some {
                let rows = self.rows();
                let n = choose|n: int| 0 <= n < rows.len() && rows[n] == (id@, (r->0)@);
                assert(rows[n].0 == id@);
                let i = choose|i: int| 0 <= i < rows.len() && (#[trigger] rows[i]).0 == id@;
                assert(i == n);
            }
        }
        r
    }
}

/// To put a row keeps the limit and the difference of the keys.
proof fn put_first_kept(
    rows: Seq<(Seq<char>, Seq<char>)>,
    limit: nat,
    k: Seq<char>,
    v: Seq<char>,
)
    requires
        0 < limit,
        rows.len() <= limit,
        keys_differ(rows),
    ensures
        put_first(rows, limit, k, v).len() <= limit,
        keys_differ(put_first(rows, limit, k, v)),
        put_first(rows, limit, k, v).len() > 0,
        put_first(rows, limit, k, v)[0] == (k, v),
{
    filtered_keys_differ(rows, k);
    let f = without(rows, k);
    let after = put_first(rows, limit, k, v);
    if exists|i: int| 0 <= i < rows.len() && (#[trigger] rows[i]).0 == k {
        assert(after == seq![(k, v)] + f);
        assert forall|i: int, j: int| 0 <= i < j < after.len() implies (#[trigger] after[i]).0 != (
        #[trigger] after[j]).0 by {
            assert(after[j] == f[j - 1]);
            if i > 0 {
                assert(after[i] == f[i - 1]);
            }
        }
    } else {
        assert forall|i: int, j: int| 0 <= i < j < after.len() implies (#[trigger] after[i]).0 != (
        #[trigger] after[j]).0 by {
            assert(after[j] == rows[j - 1]);
            if i > 0 {
                assert(after[i] == rows[i - 1]);
            }
        }
    }
}

/// An answer that was kept last is recalled, and no more answers than the limit
/// are kept.
pub proof fn last_answer_is_recalled(
    rows: Seq<(Seq<char>, Seq<char>)>,
    limit: nat,
    k: Seq<char>,
    v: Seq<char>,
)
    requires
        0 < limit,
        rows.len() <= limit,
        keys_differ(rows),
    ensures
        value_of(put_first(rows, limit, k, v), k) == Some(v),
        put_first(rows, limit, k, v).len() <= limit,
{
    put_first_kept(rows, limit, k, v);
    let after = put_first(rows, limit, k, v);
    assert(after[0].0 == k);
    let i = choose|i: int| 0 <= i < after.len() && (#[trigger] after[i]).0 == k;
    assert(i == 0);
}

/// While there is room, to keep an answer makes no other one forgotten or
/// changed.
pub proof fn other_answers_stay(
    rows: Seq<(Seq<char>, Seq<char>)>,
    limit: nat,
    k: Seq<char>,
    v: Seq<char>,
    other: Seq<char>,
)
    requires
        rows.len() < limit,
        keys_differ(rows),
        other != k,
    ensures
        value_of(put_first(rows, limit, k, v), other) == value_of(rows, other),
{
    filtered_keys_differ(rows, k);
    put_first_kept(rows, limit, k, v);
    let after = put_first(rows, limit, k, v);
    let f = without(rows, k);
    if exists|i: int| 0 <= i < rows.len() && (#[trigger] rows[i]).0 == other {
        let i = choose|i: int| 0 <= i < rows.len() && (#[trigger] rows[i]).0 == other;
        if exists|n: int| 0 <= n < rows.len() && (#[trigger] rows[n]).0 == k {
            assert(f.contains(rows[i]));
            let n = choose|n: int| 0 <= n < f.len() && f[n] == rows[i];
            assert(after == seq![(k, v)] + f);
            assert(after[n + 1] == f[n]);
        } else {
            assert(after[i + 1] == rows[i]);
        }
        let m = choose|m: int| 0 <= m < after.len() && (#[trigger] after[m]).0 == other;
        assert(after[m] == rows[i]);
    } else if exists|i: int| 0 <= i < after.len() && (#[trigger] after[i]).0 == other {
        let i = choose|i: int| 0 <= i < after.len() && (#[trigger] after[i]).0 == other;
        if exists|n: int| 0 <= n < rows.len() && (#[trigger] rows[n]).0 == k {
            assert(after[i] == f[i - 1]);
            assert(rows.contains(f[i - 1]));
        } else {
            assert(after[i] == rows[i - 1]);
        }
    }
}

/// The feedback in a message whose text is `l` in lower case. A signal counts from
/// a threshold on, in hundredths; without a signal that counts there is none.
pub open spec fn feedback_in(
    l: Seq<char>,
    inbound: ChannelInboundView,
    scope: Option<Seq<char>>,
    prior: Option<Seq<char>>,
    threshold: u32,
) -> Option<AgentFeedbackView> {
    let (score, kind) = signal_in(l);
    if score >= threshold {
        Some(
            AgentFeedbackView {
                agent_id: scope.unwrap_or(Seq::empty()),
                conversation_id: None,
                message_id: Some(inbound.chat_id),
                feedback_type: kind.unwrap_or(FeedbackType::Preference),
                content: inbound.text,
                prior_context: prior,
                preference_key: first_of(preference_in(l)),
                preference_value: second_of(preference_in(l)),
                confidence: JsonView::Float(score_numeral(score)),
            },
        )
    } else {
        None
    }
}

/// The feedback in a message whose text is `l` in lower case.
pub fn feedback_lowercase(
    l: &str,
    inbound: &ChannelInbound,
    scope: &Option<String>,
    prior: Option<String>,
    threshold: u32,
) -> (r: Option<AgentFeedback>)
    ensures
        view_opt(r) == feedback_in(l@, inbound@, view_opt(*scope), view_opt(prior), threshold),
{
    let (score, kind) = analyze_lowercase(l);
    if score >= threshold {
        let (preference_key, preference_value) = preference_lowercase(l);
        let agent_id = match scope {
            Some(s) => s.clone(),
            None => String::new(),
        };
        let feedback_type = match kind {
            Some(k) => k,
            None => FeedbackType::Preference,
        };
        Some(
            AgentFeedback {
                agent_id,
                conversation_id: None,
                message_id: Some(inbound.chat_id.clone()),
                feedback_type,
                content: inbound.text.clone(),
                prior_context: prior,
                preference_key,
                preference_value,
                confidence: Json::Float(numeral_of(score)),
            },
        )
    } else {
        None
    }
}

/// Finds feedback in messages, with the answers that they may speak of.
pub struct FeedbackExtractor {
    pub buffer: ResponseBuffer,
    /// From how many hundredths on a signal counts.
    pub threshold: u32,
    pub events_processed: u64,
}

impl FeedbackExtractor {
    /// An extractor that has seen nothing.
    pub fn new(limit: usize, threshold: u32) -> (r: FeedbackExtractor)
        requires
            0 < limit <= usize::MAX / 128,
        ensures
            r.buffer.wf(),
            r.buffer.rows().len() == 0,
            r.buffer.limit() == limit,
            r.threshold == threshold,
            r.events_processed == 0,
    {
        FeedbackExtractor { buffer: ResponseBuffer::new(limit), threshold, events_processed: 0 }
    }

    /// Keeps an answer, where it belongs to a request. An answer without content
    /// is kept as an empty one.
    pub fn on_response(&mut self, correlation_id: &Option<String>, content: &Option<String>)
        requires
            old(self).buffer.wf(),
        ensures
            final(self).buffer.wf(),
            final(self).threshold == old(self).threshold,
            final(self).events_processed == old(self).events_processed,
            final(self).buffer.limit() == old(self).buffer.limit(),
            final(self).buffer.rows() == match *correlation_id {
                Some(id) => put_first(
                    old(self).buffer.rows(),
                    old(self).buffer.limit(),
                    id@,
                    view_opt(*content).unwrap_or(Seq::empty()),
                ),
                None => old(self).buffer.rows(),
            },
    {
        match correlation_id {
            Some(id) => {
                let answer = match content {
                    Some(c) => c.clone(),
                    None => String::new(),
                };
                self.buffer.remember(id, &answer);
            },
            None => {},
        }
    }

    /// The feedback in a message, with the answer of its request as the context.
    pub fn on_inbound(
        &self,
        inbound: &ChannelInbound,
        correlation_id: &Option<String>,
        scope: &Option<String>,
    ) -> (r: Option<AgentFeedback>)
        requires
            self.buffer.wf(),
        ensures
            view_opt(r) == feedback_in(
                lowercase(inbound@.text),
                inbound@,
                view_opt(*scope),
                match *correlation_id {
                    Some(id) => value_of(self.buffer.rows(), id@),
                    None => None,
                },
                self.threshold,
            ),
    {
        let prior = match correlation_id {
            Some(id) => self.buffer.recall(id),
            None => None,
        };
        feedback_lowercase(&to_lowercase(&inbound.text), inbound, scope, prior, self.threshold)
    }

    /// Counts an event, whatever came of it.
    pub fn count_event(&mut self)
        ensures
            final(self).events_processed == if old(self).events_processed == u64::MAX {
                0
            } else {
                (old(self).events_processed + 1) as u64
            },
            final(self).threshold == old(self).threshold,
            final(self).buffer == old(self).buffer,
    {
        self.events_processed = self.events_processed.wrapping_add(1);
    }

    /// The state of the plugin: degraded after an error.
    pub fn health(
        &self,
        uptime_seconds: u64,
        last_error: &Option<String>,
    ) -> (r: PluginHealthResponse)
        ensures
            r@ == (PluginHealthResponseView {
                plugin_id: "feedback-extractor"@,
                status: if last_error is Some {
                    "degraded"@
                } else {
                    "healthy"@
                },
                uptime_seconds,
                events_processed: self.events_processed,
                last_error: view_opt(*last_error),
            }),
    {
        PluginHealthResponse {
            plugin_id: own("feedback-extractor"),
            status: match last_error {
                Some(_) => own("degraded"),
                None => own("healthy"),
            },
            uptime_seconds,
            events_processed: self.events_processed,
            last_error: duplicate_opt(last_error),
        }
    }
}

/// Feedback says who gave it on what: the text, the chat, the agent and the answer before it.
pub proof fn feedback_tells(
    l: Seq<char>,
    inbound: ChannelInboundView,
    scope: Option<Seq<char>>,
    prior: Option<Seq<char>>,
    threshold: u32,
)
    ensures
        feedback_in(l, inbound, scope, prior, threshold) is Some <==> signal_in(l).0 >= threshold,
        feedback_in(l, inbound, scope, prior, threshold) is Some ==> ({
            let f = feedback_in(l, inbound, scope, prior, threshold)->0;
            &&& f.content == inbound.text
            &&& f.message_id == Some(inbound.chat_id)
            &&& f.prior_context == prior
            &&& f.confidence == JsonView::Float(score_numeral(signal_in(l).0))
            &&& scope is Some ==> f.agent_id == scope->0
            &&& signal_in(l).1 is Some ==> f.feedback_type == signal_in(l).1->0
            &&& preference_in(l) is Some ==> f.preference_key == Some((preference_in(l)->0).0)
                && f.preference_value == Some((preference_in(l)->0).1)
            &&& preference_in(l) is None ==> f.preference_key is None && f.preference_value is None
        }),
{
}

/// A correction outweighs a confirmation, and that a preference; a text with none of them is no
/// feedback.
pub proof fn signals_are_ranked(l: Seq<char>)
    ensures
        corrects(l) ==> signal_in(l).1 == Some(FeedbackType::Correction),
        !corrects(l) && confirms(l) ==> signal_in(l).1 == Some(FeedbackType::Confirmation),
        !corrects(l) && !confirms(l) && prefers(l) ==> signal_in(l).1 == Some(
            FeedbackType::Preference,
        ),
        !corrects(l) && !confirms(l) && !prefers(l) ==> signal_in(l).1 is None && signal_in(l).0
            == 0,
{
}

/// The score of a signal is told as a fraction.
pub proof fn scores_are_told(l: Seq<char>)
    ensures
        corrects(l) ==> score_numeral(signal_in(l).0) == "0.85"@,
        !corrects(l) && confirms(l) ==> score_numeral(signal_in(l).0) == "0.88"@,
        !corrects(l) && !confirms(l) && prefers(l) ==> score_numeral(signal_in(l).0) == "0.75"@,
{
}

/// A text names a length, a style or a tone in its own words, the length first.
pub proof fn preferences_are_named(l: Seq<char>)
    ensures
        contains(l, "short"@) && contains(l, "response"@) ==> preference_in(l) == Some(
            ("response_length"@, "short"@),
        ),
        !contains(l, "short"@) && contains(l, "long"@) && contains(l, "response"@)
            ==> preference_in(l) == Some(("response_length"@, "long"@)),
        !contains(l, "response"@) && contains(l, "concise"@) ==> preference_in(l) == Some(
            ("style"@, "concise"@),
        ),
        !contains(l, "response"@) && !contains(l, "concise"@) && contains(l, "detailed"@)
            ==> preference_in(l) == Some(("style"@, "detailed"@)),
        !contains(l, "response"@) && !contains(l, "concise"@) && !contains(l, "detailed"@)
            && contains(l, "formal"@) ==> preference_in(l) == Some(("tone"@, "formal"@)),
        !contains(l, "response"@) && !contains(l, "concise"@) && !contains(l, "detailed"@)
            && !contains(l, "formal"@) && (contains(l, "casual"@) || contains(l, "friendly"@))
            ==> preference_in(l) == Some(("tone"@, "casual"@)),
        !contains(l, "response"@) && !contains(l, "concise"@) && !contains(l, "detailed"@)
            && !contains(l, "formal"@) && !contains(l, "casual"@) && !contains(l, "friendly"@)
            ==> preference_in(l) is None,
{
}

/// Each of these phrases corrects, confirms or states a preference.
pub proof fn phrases_are_signals(l: Seq<char>)
    ensures
        contains(l, "wrong"@) || contains(l, "incorrect"@) || contains(l, "i meant"@) || contains(
            l,
            "not that"@,
        ) ==> corrects(l),
        contains(l, "perfect"@) || contains(l, "precisely"@) || contains(l, "spot on"@) || contains(
            l,
            "that's right"@,
        ) ==> confirms(l),
        contains(l, "i prefer"@) || contains(l, "i like"@) || contains(l, "shorter"@) || contains(
            l,
            "longer"@,
        ) || contains(l, "avoid"@) ==> prefers(l),
{
}

} // verus!
