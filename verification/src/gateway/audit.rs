//! The audit log of the gateway.
use crate::duplicate::{duplicate_opt, Duplicate};
use crate::text::{own, view_opt, views};
use crate::time::Timestamp;
use std::collections::VecDeque;
use vstd::prelude::*;

verus! {

/// A recorded change or authentication event.
pub struct AuditEntry {
    pub timestamp: Timestamp,
    /// What was done, such as `auth.login`.
    pub action: String,
    /// Who did it.
    pub subject: String,
    /// What was affected.
    pub resource: String,
    /// The HTTP method.
    pub method: String,
    /// The path of the request.
    pub path: String,
    /// The status of the response.
    pub status: u16,
    pub details: Option<String>,
    pub user_id: Option<String>,
}

/// The mathematical content of a [`AuditEntry`].
pub struct AuditEntryView {
    pub timestamp: int,
    pub action: Seq<char>,
    pub subject: Seq<char>,
    pub resource: Seq<char>,
    pub method: Seq<char>,
    pub path: Seq<char>,
    pub status: u16,
    pub details: Option<Seq<char>>,
    pub user_id: Option<Seq<char>>,
}

impl View for AuditEntry {
    type V = AuditEntryView;

    open spec fn view(&self) -> AuditEntryView {
        AuditEntryView {
            timestamp: self.timestamp@,
            action: self.action@,
            subject: self.subject@,
            resource: self.resource@,
            method: self.method@,
            path: self.path@,
            status: self.status,
            details: view_opt(self.details),
            user_id: view_opt(self.user_id),
        }
    }
}

impl Duplicate for AuditEntry {
    fn copy(&self) -> (r: AuditEntry) {
        AuditEntry {
            timestamp: self.timestamp,
            action: self.action.clone(),
            subject: self.subject.clone(),
            resource: self.resource.clone(),
            method: self.method.clone(),
            path: self.path.clone(),
            status: self.status,
            details: duplicate_opt(&self.details),
            user_id: duplicate_opt(&self.user_id),
        }
    }
}

/// An entry in the making. The time is added when it is built.
pub struct AuditEntryBuilder {
    pub action: String,
    pub subject: String,
    pub resource: String,
    pub method: String,
    pub path: String,
    pub status: u16,
    pub details: Option<String>,
    pub user_id: Option<String>,
}

/// The mathematical content of a [`AuditEntryBuilder`].
pub struct AuditEntryBuilderView {
    pub action: Seq<char>,
    pub subject: Seq<char>,
    pub resource: Seq<char>,
    pub method: Seq<char>,
    pub path: Seq<char>,
    pub status: u16,
    pub details: Option<Seq<char>>,
    pub user_id: Option<Seq<char>>,
}

impl View for AuditEntryBuilder {
    type V = AuditEntryBuilderView;

    open spec fn view(&self) -> AuditEntryBuilderView {
        AuditEntryBuilderView {
            action: self.action@,
            subject: self.subject@,
            resource: self.resource@,
            method: self.method@,
            path: self.path@,
            status: self.status,
            details: view_opt(self.details),
            user_id: view_opt(self.user_id),
        }
    }
}

impl Duplicate for AuditEntryBuilder {
    fn copy(&self) -> (r: AuditEntryBuilder) {
        AuditEntryBuilder {
            action: self.action.clone(),
            subject: self.subject.clone(),
            resource: self.resource.clone(),
            method: self.method.clone(),
            path: self.path.clone(),
            status: self.status,
            details: duplicate_opt(&self.details),
            user_id: duplicate_opt(&self.user_id),
        }
    }
}

/// The entry that a builder makes at a point in time.
pub open spec fn entry_at(b: AuditEntryBuilderView, timestamp: int) -> AuditEntryView {
    AuditEntryView {
        timestamp,
        action: b.action,
        subject: b.subject,
        resource: b.resource,
        method: b.method,
        path: b.path,
        status: b.status,
        details: b.details,
        user_id: b.user_id,
    }
}

/// What a builder starts with.
pub open spec fn fresh_builder(
    action: Seq<char>,
    subject: Seq<char>,
    resource: Seq<char>,
) -> AuditEntryBuilderView {
    AuditEntryBuilderView {
        action,
        subject,
        resource,
        method: Seq::empty(),
        path: Seq::empty(),
        status: 200,
        details: None,
        user_id: None,
    }
}

impl AuditEntryBuilder {
    /// Starts an entry; its status is 200 until told otherwise.
    pub fn new(action: &str, subject: &str, resource: &str) -> (r: AuditEntryBuilder)
        ensures
            r@ == fresh_builder(action@, subject@, resource@),
    {
        AuditEntryBuilder {
            action: own(action),
            subject: own(subject),
            resource: own(resource),
            method: String::new(),
            path: String::new(),
            status: 200,
            details: None,
            user_id: None,
        }
    }

    /// Sets the method.
    pub fn method(self, method: &str) -> (r: AuditEntryBuilder)
        ensures
            r@ == (AuditEntryBuilderView { method: method@, ..self@ }),
    {
        let mut b = self;
        b.method = own(method);
        b
    }

    /// Sets the path.
    pub fn path(self, path: &str) -> (r: AuditEntryBuilder)
        ensures
            r@ == (AuditEntryBuilderView { path: path@, ..self@ }),
    {
        let mut b = self;
        b.path = own(path);
        b
    }

    /// Sets the status.
    pub fn status(self, status: u16) -> (r: AuditEntryBuilder)
        ensures
            r@ == (AuditEntryBuilderView { status, ..self@ }),
    {
        let mut b = self;
        b.status = status;
        b
    }

    /// Sets the details.
    pub fn details(self, details: &str) -> (r: AuditEntryBuilder)
        ensures
            r@ == (AuditEntryBuilderView { details: Some(details@), ..self@ }),
    {
        let mut b = self;
        b.details = Some(own(details));
        b
    }

    /// Sets the user.
    pub fn user_id(self, user_id: Option<String>) -> (r: AuditEntryBuilder)
        ensures
            r@ == (AuditEntryBuilderView { user_id: view_opt(user_id), ..self@ }),
    {
        let mut b = self;
        b.user_id = user_id;
        b
    }

    /// The entry, at the current time.
    pub fn build(self) -> (r: AuditEntry)
        ensures
            r@ == entry_at(self@, r@.timestamp),
    {
        self.build_at(Timestamp::now())
    }

    /// The entry, at a point in time.
    pub fn build_at(self, timestamp: Timestamp) -> (r: AuditEntry)
        ensures
            r@ == entry_at(self@, timestamp@),
    {
        AuditEntry {
            timestamp,
            action: self.action,
            subject: self.subject,
            resource: self.resource,
            method: self.method,
            path: self.path,
            status: self.status,
            details: self.details,
            user_id: self.user_id,
        }
    }
}

/// The last `n` elements, or all.
pub open spec fn last_n<T>(s: Seq<T>, n: int) -> Seq<T> {
    if s.len() <= n {
        s
    } else {
        s.subrange(s.len() - n, s.len() as int)
    }
}

/// The entries at or after a point in time.
pub open spec fn entries_since(s: Seq<AuditEntryView>, since: Option<int>) -> Seq<AuditEntryView>
    decreases s.len(),
{
    if s.len() == 0 {
        Seq::empty()
    } else {
        let rest = entries_since(s.drop_last(), since);
        if since matches Some(t) && s.last().timestamp < t {
            rest
        } else {
            rest.push(s.last())
        }
    }
}

/// What a query gives: the entries since a point in time, the latest first, at
/// most `limit` of them; a limit of zero is none.
pub open spec fn queried(s: Seq<AuditEntryView>, limit: int, since: Option<int>) -> Seq<
    AuditEntryView,
> {
    let all = entries_since(s, since).reverse();
    if 0 < limit < all.len() {
        all.subrange(0, limit)
    } else {
        all
    }
}

/// The latest entries, up to a limit.
pub struct AuditLog {
    entries: VecDeque<AuditEntry>,
    max_entries: usize,
    persistent: bool,
}

impl AuditLog {
    /// The entries, the oldest first.
    pub closed spec fn log_view(self) -> Seq<AuditEntryView> {
        views(self.entries@)
    }

    /// How many entries are kept.
    pub closed spec fn capacity(self) -> int {
        self.max_entries as int
    }

    /// Whether entries are to be stored elsewhere too.
    pub closed spec fn persists(self) -> bool {
        self.persistent
    }

    /// There are no more entries than are kept.
    pub open spec fn wf(self) -> bool {
        self.log_view().len() <= self.capacity()
    }

    /// An empty log.
    pub fn new(max_entries: usize) -> (r: AuditLog)
        ensures
            r.wf(),
            r.log_view() == Seq::<AuditEntryView>::empty(),
            r.capacity() == max_entries,
            !r.persists(),
    {
        let r = AuditLog { entries: VecDeque::new(), max_entries, persistent: false };
        assert(r.log_view() =~= Seq::empty());
        r
    }

    /// An empty log whose entries are to be stored elsewhere too.
    pub fn with_nats(max_entries: usize) -> (r: AuditLog)
        ensures
            r.wf(),
            r.log_view() == Seq::<AuditEntryView>::empty(),
            r.capacity() == max_entries,
            r.persists(),
    {
        let r = AuditLog { entries: VecDeque::new(), max_entries, persistent: true };
        assert(r.log_view() =~= Seq::empty());
        r
    }

    /// Adds an entry; the oldest goes where there would be too many. The result is
    /// the entry to store elsewhere, if there is a place for it.
    pub fn log(&mut self, entry: AuditEntry) -> (r: Option<AuditEntry>)
        requires
            old(self).wf(),
        ensures
            final(self).wf(),
            final(self).capacity() == old(self).capacity(),
            final(self).persists() == old(self).persists(),
            final(self).log_view() == last_n(
                old(self).log_view().push(entry@),
                old(self).capacity(),
            ),
            view_opt(r) == if old(self).persists() {
                Some(entry@)
            } else {
                None
            },
    {
        let ghost before = self.entries@;
        let stored = if self.persistent {
            Some(entry.copy())
        } else {
            None
        };
        self.entries.push_back(entry);
        proof {
            assert(views(self.entries@) =~= views(before).push(entry@));
        }
        if self.entries.len() > self.max_entries {
            let ghost mid = self.entries@;
            let dropped = self.entries.pop_front();
            proof {
                assert(self.entries@ =~= mid.subrange(1, mid.len() as int));
                assert(views(self.entries@) =~= last_n(
                    views(before).push(entry@),
                    self.max_entries as int,
                ));
            }
        }
        stored
    }

    /// The entries since a point in time, the latest first.
    pub fn query(&self, limit: usize, since: Option<Timestamp>) -> (r: Vec<AuditEntry>)
        ensures
            views(r@) == queried(self.log_view(), limit as int, view_opt(since)),
    {
        let ghost s = self.log_view();
        let ghost sv = view_opt(since);
        let ghost whole = entries_since(s, sv).reverse();
        let mut out: Vec<AuditEntry> = Vec::new();
        let mut i: usize = self.entries.len();
        proof {
            assert(s.subrange(0, s.len() as int) =~= s);
            assert(views(out@) + entries_since(s.subrange(0, i as int), sv).reverse() =~= whole);
        }
        while i > 0
            invariant
                i <= s.len(),
                s == self.log_view(),
                s.len() == self.entries@.len(),
                sv == view_opt(since),
                views(out@) + entries_since(s.subrange(0, i as int), sv).reverse() == whole,
            decreases i,
        {
            let e = &self.entries[i - 1];
            let ghost before = out@;
            let ghost t = s.subrange(0, i as int);
            proof {
                assert(t.drop_last() =~= s.subrange(0, i - 1));
                assert(t.last() == s[i - 1]);
                assert(s[i - 1] == self.entries@[i - 1]@);
            }
            let skip = match since {
                Some(p) => e.timestamp.is_before(&p),
                None => false,
            };
            if !skip {
                let x = e.copy();
                out.push(x);
                proof {
                    assert(views(out@) =~= views(before).push(x@));
                    let rest = entries_since(s.subrange(0, i - 1), sv);
                    assert(rest.push(t.last()).reverse() =~= seq![t.last()] + rest.reverse());
                    assert(views(out@) + rest.reverse() =~= views(before) + (seq![t.last()]
                        + rest.reverse()));
                }
            }
            i = i - 1;
        }
        proof {
            assert(entries_since(s.subrange(0, 0), sv).reverse() =~= Seq::empty());
            assert(views(out@) =~= whole);
        }
        if limit > 0 && out.len() > limit {
            let ghost before = out@;
            out.truncate(limit);
            assert(views(out@) =~= views(before).subrange(0, limit as int));
        }
        out
    }

    /// The number of entries.
    pub fn count(&self) -> (r: usize)
        ensures
            r == self.log_view().len(),
    {
        self.entries.len()
    }

    /// Forgets all entries.
    pub fn clear(&mut self)
        ensures
            final(self).log_view() == Seq::<AuditEntryView>::empty(),
            final(self).capacity() == old(self).capacity(),
            final(self).persists() == old(self).persists(),
            final(self).wf(),
    {
        self.entries.clear();
        assert(self.log_view() =~= Seq::empty());
    }
}

/// The entry that was logged last is the first that a query gives.
pub proof fn latest_comes_first(s: Seq<AuditEntryView>, e: AuditEntryView, capacity: int)
    requires
        capacity > 0,
        s.len() <= capacity,
    ensures
        queried(last_n(s.push(e), capacity), 0, None).len() > 0,
        queried(last_n(s.push(e), capacity), 0, None)[0] == e,
{
    let t = last_n(s.push(e), capacity);
    all_since_ever(t);
    assert(t.last() == e);
}

/// Without a point in time a query gives all entries.
pub proof fn all_since_ever(s: Seq<AuditEntryView>)
    ensures
        entries_since(s, None) == s,
    decreases s.len(),
{
    if s.len() > 0 {
        all_since_ever(s.drop_last());
        assert(s.drop_last().push(s.last()) =~= s);
    } else {
        assert(entries_since(s, None) =~= s);
    }
}

/// An entry says what its builder was told, at the time it was made.
pub proof fn entry_tells(b: AuditEntryBuilderView, timestamp: int)
    ensures
        entry_at(b, timestamp).timestamp == timestamp,
        entry_at(b, timestamp).action == b.action,
        entry_at(b, timestamp).subject == b.subject,
        entry_at(b, timestamp).resource == b.resource,
        entry_at(b, timestamp).method == b.method,
        entry_at(b, timestamp).path == b.path,
        entry_at(b, timestamp).status == b.status,
        entry_at(b, timestamp).details == b.details,
        entry_at(b, timestamp).user_id == b.user_id,
{
}

/// A new builder knows its action, its subject and its resource, and takes success for granted.
pub proof fn builder_begins(action: Seq<char>, subject: Seq<char>, resource: Seq<char>)
    ensures
        fresh_builder(action, subject, resource).action == action,
        fresh_builder(action, subject, resource).subject == subject,
        fresh_builder(action, subject, resource).resource == resource,
        fresh_builder(action, subject, resource).status == 200,
        fresh_builder(action, subject, resource).details is None,
        fresh_builder(action, subject, resource).user_id is None,
{
}

/// The last entry logged is kept, and so is every earlier one that there is room for.
pub proof fn log_keeps_the_latest(s: Seq<AuditEntryView>, e: AuditEntryView, capacity: int)
    requires
        s.len() <= capacity,
        0 < capacity,
    ensures
        last_n(s.push(e), capacity).len() > 0,
        last_n(s.push(e), capacity).last() == e,
        s.len() < capacity ==> last_n(s.push(e), capacity) == s.push(e),
        s.len() == capacity ==> last_n(s.push(e), capacity) == s.drop_first().push(e),
{
    if s.len() == capacity {
        assert(last_n(s.push(e), capacity) =~= s.drop_first().push(e));
    }
}

/// The entries since a time are those at it or later, each once and in their order.
proof fn since_is_exact(s: Seq<AuditEntryView>, since: Option<int>)
    ensures
        forall|i: int|
            0 <= i < entries_since(s, since).len() ==> s.contains(
                #[trigger] entries_since(s, since)[i],
            ) && (since is Some ==> entries_since(s, since)[i].timestamp >= since->0),
        forall|k: int|
            0 <= k < s.len() && (since is Some ==> s[k].timestamp >= since->0) ==> entries_since(
                s,
                since,
            ).contains(#[trigger] s[k]),
        entries_since(s, since).len() <= s.len(),
    decreases s.len(),
{
    if s.len() > 0 {
        let init = s.drop_last();
        let rest = entries_since(init, since);
        let all = entries_since(s, since);
        let n = s.len() - 1;
        since_is_exact(init, since);
        assert forall|i: int| 0 <= i < all.len() implies s.contains(#[trigger] all[i]) && (
        since is Some ==> all[i].timestamp >= since->0) by {
            if i < rest.len() {
                assert(all[i] == rest[i]);
                let k = choose|k: int| 0 <= k < init.len() && init[k] == rest[i];
                assert(s[k] == init[k]);
            } else {
                assert(all[i] == s[n]);
            }
        }
        assert forall|k: int|
            0 <= k < s.len() && (since is Some ==> s[k].timestamp >= since->0) implies all.contains(
            #[trigger] s[k],
        ) by {
            if k < n {
                assert(init[k] == s[k]);
                let i = choose|i: int| 0 <= i < rest.len() && rest[i] == s[k];
                assert(all[i] == rest[i]);
            } else {
                assert(all[rest.len() as int] == s[n]);
            }
        }
    }
}

/// A query brings entries of the log at the time asked for or later, no more than its limit;
/// a limit of none is no limit. Where the limit is not reached it brings all of them.
pub proof fn query_is_exact(s: Seq<AuditEntryView>, limit: int, since: Option<int>)
    requires
        limit >= 0,
    ensures
        ({
            let r = queried(s, limit, since);
            &&& limit > 0 ==> r.len() <= limit
            &&& forall|i: int|
                0 <= i < r.len() ==> s.contains(#[trigger] r[i]) && (since is Some
                    ==> r[i].timestamp >= since->0)
            &&& limit == 0 || r.len() < limit ==> forall|k: int|
                0 <= k < s.len() && (since is Some ==> s[k].timestamp >= since->0) ==> r.contains(
                    #[trigger] s[k],
                )
        }),
{
    let found = entries_since(s, since);
    let r = queried(s, limit, since);
    since_is_exact(s, since);
    assert forall|i: int| 0 <= i < r.len() implies s.contains(#[trigger] r[i]) && (since is Some
        ==> r[i].timestamp >= since->0) by {
        assert(r[i] == found[found.len() - 1 - i]);
    }
    if limit == 0 || r.len() < limit {
        assert forall|k: int|
            0 <= k < s.len() && (since is Some ==> s[k].timestamp >= since->0) implies r.contains(
            #[trigger] s[k],
        ) by {
            let i = choose|i: int| 0 <= i < found.len() && found[i] == s[k];
            assert(r[found.len() - 1 - i] == found[i]);
        }
    }
}

} // verus!
