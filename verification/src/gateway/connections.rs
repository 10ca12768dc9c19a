//! The plugins that are connected from outside, and the requests that wait for an
//! answer from them.
use crate::json::{Json, JsonView};
use crate::text::{cat3, own, views};
use vstd::prelude::*;

verus! {

/// A concurrent map of the `dashmap` crate.
#[verifier::external_type_specification]
#[verifier::external_body]
#[verifier::reject_recursive_types(K)]
#[verifier::reject_recursive_types(V)]
#[verifier::reject_recursive_types(S)]
pub struct ExDashMap<K, V, S>(dashmap::DashMap<K, V, S>);

/// What a map from names holds. A connection is its handle, the number of events
/// it has had, and a flag that is not used; a pending request is the handle to
/// reply to, the deadline in milliseconds, and whether it is a health check.
pub uninterp spec fn slots_of(m: dashmap::DashMap<String, (u64, u64, bool)>) -> Map<
    Seq<char>,
    (u64, u64, bool),
>;

/// `dashmap::DashMap::new`: an empty map.
#[verifier::external_body]
fn slots_new() -> (r: dashmap::DashMap<String, (u64, u64, bool)>)
    ensures
        slots_of(r).dom().is_empty(),
{
    dashmap::DashMap::new()
}

/// `dashmap::DashMap::insert`: maps the key to the value, whatever it was mapped
/// to before.
#[verifier::external_body]
fn slots_insert(
    m: &mut dashmap::DashMap<String, (u64, u64, bool)>,
    k: String,
    v: (u64, u64, bool),
)
    ensures
        slots_of(*final(m)) == slots_of(*old(m)).insert(k@, v),
{
    m.insert(k, v);
}

/// `dashmap::DashMap::contains_key`.
#[verifier::external_body]
fn slots_contains(m: &dashmap::DashMap<String, (u64, u64, bool)>, k: &str) -> (r: bool)
    ensures
        r == slots_of(*m).contains_key(k@),
{
    m.contains_key(k)
}

/// `dashmap::DashMap::get`, with the value copied out.
#[verifier::external_body]
fn slots_get(m: &dashmap::DashMap<String, (u64, u64, bool)>, k: &str) -> (r: Option<
    (u64, u64, bool),
>)
    ensures
        r == if slots_of(*m).contains_key(k@) {
            Some(slots_of(*m)[k@])
        } else {
            None
        },
{
    m.get(k).map(|v| *v)
}

/// `dashmap::DashMap::remove`: takes the key out and gives its value.
#[verifier::external_body]
fn slots_remove(m: &mut dashmap::DashMap<String, (u64, u64, bool)>, k: &str) -> (r: Option<
    (u64, u64, bool),
>)
    ensures
        slots_of(*final(m)) == slots_of(*old(m)).remove(k@),
        r == if slots_of(*old(m)).contains_key(k@) {
            Some(slots_of(*old(m))[k@])
        } else {
            None
        },
{
    m.remove(k).map(|e| e.1)
}

/// `dashmap::DashMap::len`: the number of keys.
#[verifier::external_body]
fn slots_len(m: &dashmap::DashMap<String, (u64, u64, bool)>) -> (r: usize)
    ensures
        r == slots_of(*m).dom().len(),
{
    m.len()
}

/// A list holds each key of a map once, with its value, in some order.
pub open spec fn lists(v: Seq<(
    String,
    (u64, u64, bool),
)>, m: Map<Seq<char>, (u64, u64, bool)>) -> bool {
    &&& forall|i: int|
        0 <= i < v.len() ==> m.contains_key((#[trigger] v[i]).0@) && m[v[i].0@] == v[i].1
    &&& forall|i: int, j: int| 0 <= i < j < v.len() ==> v[i].0@ != v[j].0@
    &&& forall|k: Seq<char>| #[trigger]
        m.contains_key(k) ==> exists|i: int| 0 <= i < v.len() && (#[trigger] v[i]).0@ == k
}

/// `dashmap::DashMap::iter`, collected: each key once with its value, in an order
/// that nothing is stated of.
#[verifier::external_body]
fn slots_list(
    m: &dashmap::DashMap<String,
    (u64, u64, bool)>,
) -> (r: Vec<(String, (u64, u64, bool))>)
    ensures
        lists(r@, slots_of(*m)),
{
    m.iter().map(|e| (e.key().clone(), *e.value())).collect()
}

/// Milliseconds that a connected plugin has to answer a capability call.
pub const CAPABILITY_TIMEOUT_MS: u64 = 30_000;

/// Milliseconds that a connected plugin has to answer a health check.
pub const HEALTH_TIMEOUT_MS: u64 = 5_000;

/// A request that waits for an answer.
#[derive(Clone, Copy)]
pub struct PendingRequest {
    /// Where the answer goes.
    pub reply: u64,
    /// When it must be there, in milliseconds.
    pub deadline: u64,
    /// Whether it is a health check.
    pub is_health_check: bool,
}

/// A pending request as it is kept.
pub open spec fn pending_slot(p: PendingRequest) -> (u64, u64, bool) {
    (p.reply, p.deadline, p.is_health_check)
}

/// The answer in place of one that did not come in time.
pub open spec fn timeout_answer(is_health_check: bool) -> JsonView {
    if is_health_check {
        JsonView::object().put("plugin_id"@, JsonView::Text("unknown"@)).put(
            "status"@,
            JsonView::Text("unhealthy"@),
        ).put("uptime_seconds"@, JsonView::Int(0)).put("events_processed"@, JsonView::Int(0)).put(
            "last_error"@,
            JsonView::Text("External plugin did not respond to health check in time"@),
        )
    } else {
        JsonView::object().put("tool_id"@, JsonView::Text("unknown"@)).put(
            "result"@,
            JsonView::object().put("error"@, JsonView::Text("External plugin timed out"@)),
        ).put("is_error"@, JsonView::Bool(true))
    }
}

/// The answer in place of one that did not come in time.
pub fn timeout_response(is_health_check: bool) -> (r: Json)
    ensures
        r@ == timeout_answer(is_health_check),
{
    if is_health_check {
        Json::object().put("plugin_id", Json::text("unknown")).put(
            "status",
            Json::text("unhealthy"),
        ).put("uptime_seconds", Json::Unsigned(0)).put("events_processed", Json::Unsigned(0)).put(
            "last_error",
            Json::text("External plugin did not respond to health check in time"),
        )
    } else {
        Json::object().put("tool_id", Json::text("unknown")).put(
            "result",
            Json::object().put("error", Json::text("External plugin timed out")),
        ).put("is_error", Json::Bool(true))
    }
}

/// The connected plugins and the pending requests.
pub struct ConnectionManager {
    connections: dashmap::DashMap<String, (u64, u64, bool)>,
    pending: dashmap::DashMap<String, (u64, u64, bool)>,
}

impl ConnectionManager {
    /// The connections by plugin id: a handle and a number of events each.
    pub closed spec fn connected(self) -> Map<Seq<char>, (u64, u64, bool)> {
        slots_of(self.connections)
    }

    /// The pending requests by id.
    pub closed spec fn waiting(self) -> Map<Seq<char>, (u64, u64, bool)> {
        slots_of(self.pending)
    }

    /// There are finitely many connections.
    pub open spec fn wf(self) -> bool {
        self.connected().dom().finite()
    }

    /// Nothing is connected and nothing is pending.
    pub fn new() -> (r: ConnectionManager)
        ensures
            r.wf(),
            r.connected() == Map::<Seq<char>, (u64, u64, bool)>::empty(),
            r.waiting() == Map::<Seq<char>, (u64, u64, bool)>::empty(),
    {
        let r = ConnectionManager { connections: slots_new(), pending: slots_new() };
        assert(r.connected() =~= Map::empty());
        assert(r.waiting() =~= Map::empty());
        r
    }

    /// Connects a plugin, unless one of its id is connected. The handle is where
    /// messages for it go.
    pub fn register(&mut self, plugin_id: String, handle: u64) -> (r: Result<(), String>)
        requires
            old(self).wf(),
        ensures
            final(self).wf(),
            final(self).waiting() == old(self).waiting(),
            match r {
                Ok(_) => !old(self).connected().contains_key(plugin_id@)
                    && final(self).connected() == old(self).connected().insert(
                    plugin_id@,
                    (handle, 0u64, false),
                ),
                Err(e) => old(self).connected().contains_key(plugin_id@)
                    && final(self).connected() == old(self).connected() && e@ == "Plugin '"@
                    + plugin_id@ + "' is already connected"@,
            },
    {
        if slots_contains(&self.connections, &plugin_id) {
            return Err(cat3("Plugin '", &plugin_id, "' is already connected"));
        }
        slots_insert(&mut self.connections, plugin_id, (handle, 0, false));
        Ok(())
    }

    /// Disconnects a plugin. The result says whether it was connected.
    pub fn deregister(&mut self, plugin_id: &str) -> (r: bool)
        requires
            old(self).wf(),
        ensures
            final(self).wf(),
            final(self).waiting() == old(self).waiting(),
            r == old(self).connected().contains_key(plugin_id@),
            final(self).connected() == old(self).connected().remove(plugin_id@),
    {
        slots_remove(&mut self.connections, plugin_id).is_some()
    }

    /// Where messages for a connected plugin go.
    pub fn get_sender(&self, plugin_id: &str) -> (r: Option<u64>)
        ensures
            r == if self.connected().contains_key(plugin_id@) {
                Some(self.connected()[plugin_id@].0)
            } else {
                None
            },
    {
        match slots_get(&self.connections, plugin_id) {
            Some(c) => Some(c.0),
            None => None,
        }
    }

    /// Counts an event of a connected plugin. The count starts again at zero after
    /// the largest number.
    pub fn increment_events(&mut self, plugin_id: &str)
        requires
            old(self).wf(),
        ensures
            final(self).wf(),
            final(self).waiting() == old(self).waiting(),
            final(self).connected() == counted(old(self).connected(), plugin_id@),
    {
        match slots_get(&self.connections, plugin_id) {
            Some(c) => {
                let n: u64 = if c.1 == u64::MAX {
                    0
                } else {
                    c.1 + 1
                };
                slots_insert(&mut self.connections, own(plugin_id), (c.0, n, c.2));
            },
            None => {},
        }
    }

    /// The number of events that a connected plugin has had.
    pub fn events_processed(&self, plugin_id: &str) -> (r: Option<u64>)
        ensures
            r == if self.connected().contains_key(plugin_id@) {
                Some(self.connected()[plugin_id@].1)
            } else {
                None
            },
    {
        match slots_get(&self.connections, plugin_id) {
            Some(c) => Some(c.1),
            None => None,
        }
    }

    /// Notes a request that waits for an answer.
    pub fn add_pending(&mut self, request_id: String, pending: PendingRequest)
        ensures
            final(self).connected() == old(self).connected(),
            final(self).waiting() == old(self).waiting().insert(
                request_id@,
                pending_slot(pending),
            ),
    {
        slots_insert(
            &mut self.pending,
            request_id,
            (pending.reply, pending.deadline, pending.is_health_check),
        );
    }

    /// Takes a pending request out.
    pub fn take_pending(&mut self, request_id: &str) -> (r: Option<PendingRequest>)
        ensures
            final(self).connected() == old(self).connected(),
            final(self).waiting() == old(self).waiting().remove(request_id@),
            match r {
                Some(p) => old(self).waiting().contains_key(request_id@) && old(self).waiting()[request_id@] == pending_slot(p),
                None => !old(self).waiting().contains_key(request_id@),
            },
    {
        match slots_remove(&mut self.pending, request_id) {
            Some(p) => Some(
                PendingRequest { reply: p.0, deadline: p.1, is_health_check: p.2 },
            ),
            None => None,
        }
    }

    /// Takes out the requests whose deadline has come, and answers each with an
    /// error: the result lists where each answer goes, and the answer.
    pub fn reap_expired(&mut self, now: u64) -> (r: Vec<(u64, Json)>)
        ensures
            final(self).connected() == old(self).connected(),
            final(self).waiting() == unexpired(old(self).waiting(), now),
            exists|ids: Seq<Seq<char>>|
                #[trigger] expired_ids(ids, old(self).waiting(), now) && answers_for(
                    r@,
                    ids,
                    old(self).waiting(),
                ),
    {
        let ghost w = self.waiting();
        let all = slots_list(&self.pending);
        let mut out: Vec<(u64, Json)> = Vec::new();
        let ghost mut ids: Seq<Seq<char>> = Seq::empty();
        let mut i: usize = 0;
        assert(self.waiting() =~= without(w, ids));
        while i < all.len()
            invariant
                i <= all@.len(),
                lists(all@, w),
                self.connected() == old(self).connected(),
                self.waiting() == without(w, ids),
                out@.len() == ids.len(),
                answers_for(out@, ids, w),
                forall|k: int|
                    0 <= k < ids.len() ==> w.contains_key(#[trigger] ids[k]) && now >= w[ids[k]].1,
                forall|k: int|
                    0 <= k < ids.len() ==> exists|j: int|
                        0 <= j < i && (#[trigger] all@[j]).0@ == #[trigger] ids[k],
                forall|a: int, b: int| 0 <= a < b < ids.len() ==> ids[a] != ids[b],
                forall|j: int|
                    0 <= j < i && now >= (#[trigger] all@[j]).1.1 ==> ids.contains(all@[j].0@),
            decreases all@.len() - i,
        {
            let entry = &all[i];
            let ghost before = out@;
            let ghost was = ids;
            assert(w.contains_key(entry.0@) && w[entry.0@] == entry.1);
            if now >= entry.1.1 {
                let gone = slots_remove(&mut self.pending, &entry.0);
                out.push((entry.1.0, timeout_response(entry.1.2)));
                proof {
                    ids = was.push(entry.0@);
                    assert(self.waiting() =~= without(w, ids)) by {
                        assert forall|k: Seq<char>| without(w, ids).contains_key(k)
                            == self.waiting().contains_key(k) by {
                            if was.contains(k) {
                                let n = choose|n: int| 0 <= n < was.len() && was[n] == k;
                                assert(ids[n] == k);
                            }
                            if ids.contains(k) && !was.contains(k) {
                                let n = choose|n: int| 0 <= n < ids.len() && ids[n] == k;
                                assert(n == was.len());
                            }
                            if k == entry.0@ {
                                assert(ids[was.len() as int] == k);
                            }
                        }
                    }
                    assert forall|k: int| 0 <= k < ids.len() implies exists|j: int|
                        0 <= j < i + 1 && (#[trigger] all@[j]).0@ == #[trigger] ids[k] by {
                        if k < was.len() {
                            let j = choose|j: int|
                                0 <= j < i && (#[trigger] all@[j]).0@ == was[k];
                            assert(all@[j].0@ == ids[k]);
                        } else {
                            assert(all@[i as int].0@ == ids[k]);
                        }
                    }
                    assert forall|a: int, b: int| 0 <= a < b < ids.len() implies ids[a]
                        != ids[b] by {
                        if b == was.len() {
                            let j = choose|j: int|
                                0 <= j < i && (#[trigger] all@[j]).0@ == was[a];
                            assert(all@[j].0@ != all@[i as int].0@);
                        }
                    }
                    assert forall|j: int|
                        0 <= j < i + 1 && now >= (#[trigger] all@[j]).1.1 implies ids.contains(
                        all@[j].0@,
                    ) by {
                        if j < i {
                            let n = choose|n: int| 0 <= n < was.len() && was[n] == all@[j].0@;
                            assert(ids[n] == all@[j].0@);
                        } else {
                            assert(ids[was.len() as int] == all@[j].0@);
                        }
                    }
                    assert forall|k: int| 0 <= k < ids.len() implies (#[trigger] out@[k]).0
                        == w[ids[k]].0 && out@[k].1@ == timeout_answer(w[ids[k]].2) by {
                        if k < was.len() {
                            assert(out@[k] == before[k]);
                            assert(ids[k] == was[k]);
                        }
                    }
                }
            }
            i = i + 1;
        }
        proof {
            assert forall|k: Seq<char>| w.contains_key(k) && now >= w[k].1 implies ids.contains(
                k,
            ) by {
                let j = choose|j: int| 0 <= j < all@.len() && (#[trigger] all@[j]).0@ == k;
                assert(all@[j].1 == w[k]);
            }
            assert(expired_ids(ids, w, now));
            assert(self.waiting() =~= unexpired(w, now)) by {
                assert forall|k: Seq<char>| without(w, ids).contains_key(k) == unexpired(
                    w,
                    now,
                ).contains_key(k) by {
                    if ids.contains(k) {
                        let n = choose|n: int| 0 <= n < ids.len() && ids[n] == k;
                        assert(now >= w[ids[n]].1);
                    }
                }
            }
        }
        out
    }

    /// The ids of the connected plugins, each once, in some order.
    pub fn list_plugin_ids(&self) -> (r: Vec<String>)
        ensures
            forall|i: int, j: int| 0 <= i < j < r@.len() ==> r@[i]@ != r@[j]@,
            forall|k: Seq<char>|
                self.connected().contains_key(k) <==> #[trigger] views(r@).contains(k),
    {
        let all = slots_list(&self.connections);
        let ghost m = self.connected();
        let mut out: Vec<String> = Vec::new();
        let mut i: usize = 0;
        while i < all.len()
            invariant
                i <= all@.len(),
                out@.len() == i,
                forall|k: int| 0 <= k < i ==> (#[trigger] out@[k])@ == all@[k].0@,
            decreases all@.len() - i,
        {
            out.push(all[i].0.clone());
            i = i + 1;
        }
        proof {
            assert(lists(all@, m));
            assert forall|a: int, b: int| 0 <= a < b < out@.len() implies out@[a]@ != out@[b]@ by {
                assert(all@[a].0@ != all@[b].0@);
            }
            assert forall|k: Seq<char>| m.contains_key(k) <==> #[trigger] views(
                out@,
            ).contains(k) by {
                if m.contains_key(k) {
                    let j = choose|j: int| 0 <= j < all@.len() && (#[trigger] all@[j]).0@ == k;
                    assert(views(out@)[j] == k);
                }
                if views(out@).contains(k) {
                    let j = choose|j: int| 0 <= j < views(out@).len() && views(out@)[j] == k;
                    assert(out@[j]@ == all@[j].0@);
                    assert(m.contains_key(all@[j].0@));
                }
            }
        }
        out
    }

    /// The number of connected plugins.
    pub fn connected_count(&self) -> (r: usize)
        ensures
            r == self.connected().dom().len(),
    {
        slots_len(&self.connections)
    }
}

/// The connections with one more event of a plugin counted.
pub open spec fn counted(
    m: Map<Seq<char>, (u64, u64, bool)>,
    plugin_id: Seq<char>,
) -> Map<Seq<char>, (u64, u64, bool)> {
    if m.contains_key(plugin_id) {
        let c = m[plugin_id];
        m.insert(
            plugin_id,
            (
                c.0,
                if c.1 == u64::MAX {
                    0u64
                } else {
                    (c.1 + 1) as u64
                },
                c.2,
            ),
        )
    } else {
        m
    }
}

/// A map without some keys.
pub open spec fn without(
    m: Map<Seq<char>, (u64, u64, bool)>,
    ids: Seq<Seq<char>>,
) -> Map<Seq<char>, (u64, u64, bool)> {
    Map::new(|k: Seq<char>| m.contains_key(k) && !ids.contains(k), |k: Seq<char>| m[k])
}

/// The requests whose deadline is still to come.
pub open spec fn unexpired(m: Map<Seq<char>, (u64, u64, bool)>, now: u64) -> Map<
    Seq<char>,
    (u64, u64, bool),
> {
    Map::new(|k: Seq<char>| m.contains_key(k) && now < m[k].1, |k: Seq<char>| m[k])
}

/// The ids of the requests whose deadline has come, each once.
pub open spec fn expired_ids(
    ids: Seq<Seq<char>>,
    m: Map<Seq<char>, (u64, u64, bool)>,
    now: u64,
) -> bool {
    &&& forall|a: int, b: int| 0 <= a < b < ids.len() ==> ids[a] != ids[b]
    &&& forall|k: Seq<char>|
        #[trigger] ids.contains(k) <==> m.contains_key(k) && now >= m[k].1
}

/// For each id an answer in place of the one that did not come.
pub open spec fn answers_for(
    r: Seq<(u64, Json)>,
    ids: Seq<Seq<char>>,
    m: Map<Seq<char>, (u64, u64, bool)>,
) -> bool {
    r.len() == ids.len() && forall|k: int|
        0 <= k < ids.len() ==> (#[trigger] r[k]).0 == m[ids[k]].0 && r[k].1@ == timeout_answer(
            m[ids[k]].2,
        )
}

/// A request that ran out of time is answered as what it was: a plugin that is asked for its
/// health is unhealthy, a call has failed.
pub proof fn lateness_is_told()
    ensures
        timeout_answer(false).get("is_error"@) == Some(JsonView::Bool(true)),
        timeout_answer(false).get("result"@) is Some,
        timeout_answer(false).get("result"@)->0.text_at("error"@) == Some(
            "External plugin timed out"@,
        ),
        timeout_answer(false).text_at("tool_id"@) == Some("unknown"@),
        timeout_answer(true).text_at("status"@) == Some("unhealthy"@),
        timeout_answer(true).text_at("plugin_id"@) == Some("unknown"@),
        timeout_answer(true).text_at("last_error"@) is Some,
{
    reveal_strlit("tool_id");
    reveal_strlit("result");
    reveal_strlit("is_error");
    reveal_strlit("plugin_id");
    reveal_strlit("status");
    reveal_strlit("uptime_seconds");
    reveal_strlit("events_processed");
    reveal_strlit("last_error");
    assert("tool_id"@.len() == 7);
    assert("result"@.len() == 6);
    assert("is_error"@.len() == 8);
    assert("plugin_id"@.len() == 9);
    assert("status"@.len() == 6);
    assert("uptime_seconds"@.len() == 14);
    assert("events_processed"@.len() == 16);
    assert("last_error"@.len() == 10);
    assert("result"@[0] != "status"@[0]);
}

/// A request stays open until its time is over, and no longer; nothing else about it changes.
pub proof fn open_requests_stay(m: Map<Seq<char>, (u64, u64, bool)>, now: u64, id: Seq<char>)
    ensures
        unexpired(m, now).contains_key(id) <==> m.contains_key(id) && now < m[id].1,
        unexpired(m, now).contains_key(id) ==> unexpired(m, now)[id] == m[id],
{
}

/// Every request that ran out of time is answered once, to the one who asked.
pub proof fn late_requests_are_answered(
    r: Seq<(u64, Json)>,
    ids: Seq<Seq<char>>,
    m: Map<Seq<char>, (u64, u64, bool)>,
    now: u64,
    id: Seq<char>,
)
    requires
        expired_ids(ids, m, now),
        answers_for(r, ids, m),
    ensures
        m.contains_key(id) && now >= m[id].1 ==> exists|k: int|
            0 <= k < r.len() && (#[trigger] r[k]).0 == m[id].0 && r[k].1@ == timeout_answer(
                m[id].2,
            ),
        r.len() == ids.len(),
        forall|k: int|
            0 <= k < r.len() ==> m.contains_key(#[trigger] ids[k]) && now >= m[ids[k]].1
                && r[k].0 == m[ids[k]].0,
{
    if m.contains_key(id) && now >= m[id].1 {
        assert(ids.contains(id));
        let k = choose|k: int| 0 <= k < ids.len() && ids[k] == id;
        assert(r[k].0 == m[ids[k]].0);
    }
    assert forall|k: int| 0 <= k < r.len() implies m.contains_key(#[trigger] ids[k]) && now
        >= m[ids[k]].1 && r[k].0 == m[ids[k]].0 by {
        assert(ids.contains(ids[k]));
        assert(r[k].0 == m[ids[k]].0);
    }
}

/// An event counts for the plugin it went to, and for no other; its handle stays.
pub proof fn events_are_counted(
    m: Map<Seq<char>, (u64, u64, bool)>,
    plugin_id: Seq<char>,
    other: Seq<char>,
)
    requires
        m.contains_key(plugin_id),
        m[plugin_id].1 < u64::MAX,
        other != plugin_id,
    ensures
        counted(m, plugin_id)[plugin_id].1 == m[plugin_id].1 + 1,
        counted(m, plugin_id)[plugin_id].0 == m[plugin_id].0,
        counted(m, plugin_id).contains_key(other) == m.contains_key(other),
        m.contains_key(other) ==> counted(m, plugin_id)[other] == m[other],
        counted(m, plugin_id).dom() == m.dom(),
{
    assert(counted(m, plugin_id).dom() =~= m.dom());
}

/// A waiting request is kept with who asked, how long it waits and what it is.
pub proof fn waiting_is_kept(p: PendingRequest)
    ensures
        pending_slot(p).0 == p.reply,
        pending_slot(p).1 == p.deadline,
        pending_slot(p).2 == p.is_health_check,
{
}

} // verus!
