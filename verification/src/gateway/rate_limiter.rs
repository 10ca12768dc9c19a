//! The rate limiter: a bucket of tokens for each client.
//!
//! Tokens are counted in sixtieths: a rate of `n` requests per minute adds `n`
//! sixtieths of a token each second, so that refilling is exact.
use crate::outside::utc_now;
use crate::table::{has_key, lookup, lookup_present, upsert, upsert_lookup, Table};
use crate::text::own;
use vstd::prelude::*;

verus! {

/// How many requests are allowed.
#[derive(Clone, Copy)]
pub struct RateLimitConfig {
    /// Requests per minute for regular users.
    pub regular_rpm: u32,
    /// Requests per minute for administrators.
    pub admin_rpm: u32,
    /// Seconds between cleanups.
    pub cleanup_interval_secs: u64,
}

impl Default for RateLimitConfig {
    fn default() -> (r: RateLimitConfig)
        ensures
            r == (RateLimitConfig {
                regular_rpm: 60,
                admin_rpm: 300,
                cleanup_interval_secs: 300,
            }),
    {
        RateLimitConfig { regular_rpm: 60, admin_rpm: 300, cleanup_interval_secs: 300 }
    }
}

/// The sixtieths of a token that a client has, and when they were counted, in
/// seconds since the epoch.
#[derive(Clone, Copy)]
pub struct TokenBucket {
    pub sixtieths: u64,
    pub last_refill: u64,
}

/// The plugin id, the namespace and the key under which the limiter is stored.
pub const STORAGE_PLUGIN_ID: &'static str = "api-gateway";

pub const STORAGE_NAMESPACE: &'static str = "rate_limiter";

pub const STORAGE_KEY: &'static str = "state";

/// Seconds after which a stored bucket is not restored.
pub const RESTORE_WINDOW_SECS: u64 = 600;

/// The smaller of two numbers.
pub open spec fn min(a: int, b: int) -> int {
    if a < b {
        a
    } else {
        b
    }
}

/// The seconds from one time to a later one, zero if it is not later.
pub open spec fn elapsed(now: u64, since: u64) -> int {
    if now > since {
        now - since
    } else {
        0
    }
}

/// A bucket brought up to now: it gains `rpm` sixtieths a second, up to `rpm`
/// tokens.
pub open spec fn refilled(b: TokenBucket, rpm: u32, now: u64) -> TokenBucket {
    TokenBucket {
        sixtieths: min(b.sixtieths + elapsed(now, b.last_refill) * rpm, 60 * rpm) as u64,
        last_refill: now,
    }
}

/// The full bucket that a new client has.
pub open spec fn full(rpm: u32, now: u64) -> TokenBucket {
    TokenBucket { sixtieths: (60 * rpm) as u64, last_refill: now }
}

/// A request at a time: the bucket afterwards, and the answer. The answer is
/// whether the request is allowed, how many more are, and after how many seconds
/// a refused one may be tried again.
pub open spec fn taken(b: TokenBucket, rpm: u32, now: u64) -> (
    TokenBucket,
    (bool, u32, Option<u32>),
) {
    let r = refilled(b, rpm, now);
    if r.sixtieths >= 60 {
        (
            TokenBucket { sixtieths: (r.sixtieths - 60) as u64, last_refill: now },
            (true, ((r.sixtieths - 60) / 60) as u32, None),
        )
    } else {
        (r, (false, 0u32, Some(wait(r.sixtieths, rpm))))
    }
}

/// A request of a client, which has a full bucket where it is new.
pub open spec fn checked(b: Option<TokenBucket>, rpm: u32, now: u64) -> (
    TokenBucket,
    (bool, u32, Option<u32>),
) {
    taken(b.unwrap_or(full(rpm, now)), rpm, now)
}

/// The seconds until there is a token again, rounded up. At a rate of zero that
/// is never, for which the largest number stands.
pub open spec fn wait(sixtieths: u64, rpm: u32) -> u32 {
    if rpm == 0 {
        u32::MAX
    } else {
        ((60 - sixtieths + rpm - 1) / (rpm as int)) as u32
    }
}

/// The current time in seconds since the epoch.
pub fn unix_timestamp_secs() -> (r: u64)
    ensures
        r <= 8_400_000_000_000,
{
    utc_now().0 as u64
}

/// A bucket for each client.
pub struct RateLimiter {
    buckets: Table<TokenBucket>,
    config: RateLimitConfig,
    overrides: Table<u32>,
}

impl RateLimiter {
    /// The clients are distinct.
    pub closed spec fn wf(self) -> bool {
        self.buckets.wf() && self.overrides.wf()
    }

    /// The bucket of a client.
    pub closed spec fn bucket(self, subject: Seq<char>) -> Option<TokenBucket> {
        lookup(self.buckets@, subject)
    }

    /// The clients with their buckets.
    pub closed spec fn rows(self) -> Seq<(Seq<char>, TokenBucket)> {
        self.buckets@
    }

    /// The limits.
    pub closed spec fn limits(self) -> RateLimitConfig {
        self.config
    }

    /// The limit that is set for one client.
    pub closed spec fn own_rpm(self, subject: Seq<char>) -> Option<u32> {
        lookup(self.overrides@, subject)
    }

    /// The limit that counts for a client: its own, else that of its kind.
    pub open spec fn rpm(self, subject: Seq<char>, is_admin: bool) -> u32 {
        match self.own_rpm(subject) {
            Some(n) => n,
            None => if is_admin {
                self.limits().admin_rpm
            } else {
                self.limits().regular_rpm
            },
        }
    }

    /// A limiter that knows no clients.
    pub fn new(config: RateLimitConfig) -> (r: RateLimiter)
        ensures
            r.wf(),
            r.rows() == Seq::<(Seq<char>, TokenBucket)>::empty(),
            r.limits() == config,
            forall|s: Seq<char>| r.bucket(s) is None,
            forall|s: Seq<char>| r.own_rpm(s) is None,
    {
        RateLimiter { buckets: Table::new(), config, overrides: Table::new() }
    }

    /// Sets the limit of one client.
    pub fn set_user_rpm(&mut self, user_id: &str, rpm: u32)
        requires
            old(self).wf(),
        ensures
            final(self).wf(),
            final(self).rows() == old(self).rows(),
            final(self).limits() == old(self).limits(),
            final(self).own_rpm(user_id@) == Some(rpm),
            forall|s: Seq<char>|
                s != user_id@ ==> #[trigger] final(self).own_rpm(s) == old(self).own_rpm(s),
            forall|s: Seq<char>| #[trigger] final(self).bucket(s) == old(self).bucket(s),
    {
        let ghost before = self.overrides;
        self.overrides.insert(own(user_id), rpm);
        proof {
            assert forall|s: Seq<char>| s != user_id@ implies #[trigger] self.own_rpm(s)
                == before.value(s) by {
                assert(self.overrides.value(s) == before.value(s));
            }
        }
    }

    /// The limit that counts for a client.
    pub fn effective_rpm(&self, subject: &str, is_admin: bool) -> (r: u32)
        requires
            self.wf(),
        ensures
            r == self.rpm(subject@, is_admin),
    {
        match self.overrides.get(subject) {
            Some(n) => *n,
            None => if is_admin {
                self.config.admin_rpm
            } else {
                self.config.regular_rpm
            },
        }
    }

    /// Takes a token for a request at a time, in seconds since the epoch.
    pub fn check_at(&mut self, subject: &str, is_admin: bool, now: u64) -> (r: (
        bool,
        u32,
        Option<u32>,
    ))
        requires
            old(self).wf(),
        ensures
            final(self).wf(),
            final(self).limits() == old(self).limits(),
            forall|s: Seq<char>| #[trigger] final(self).own_rpm(s) == old(self).own_rpm(s),
            ({
                let c = checked(
                    old(self).bucket(subject@),
                    old(self).rpm(subject@, is_admin),
                    now,
                );
                &&& final(self).rows() == upsert(old(self).rows(), subject@, c.0)
                &&& final(self).bucket(subject@) == Some(c.0)
                &&& r == c.1
            }),
            forall|s: Seq<char>|
                s != subject@ ==> #[trigger] final(self).bucket(s) == old(self).bucket(s),
    {
        let rpm = self.effective_rpm(subject, is_admin);
        let ghost before = self.buckets;
        let b = match self.buckets.get(subject) {
            Some(b) => *b,
            None => TokenBucket { sixtieths: 60 * rpm as u64, last_refill: now },
        };
        let passed: u64 = if now > b.last_refill {
            now - b.last_refill
        } else {
            0
        };
        proof {
            assert(0 <= passed * rpm <= u64::MAX * u32::MAX) by (nonlinear_arith)
                requires
                    0 <= passed <= u64::MAX,
                    0 <= rpm <= u32::MAX,
            ;
        }
        let gained: u128 = b.sixtieths as u128 + passed as u128 * rpm as u128;
        let cap: u64 = 60 * rpm as u64;
        let level: u64 = if gained < cap as u128 {
            gained as u64
        } else {
            cap
        };
        let (next, answer) = if level >= 60 {
            (
                TokenBucket { sixtieths: level - 60, last_refill: now },
                (true, ((level - 60) / 60) as u32, None),
            )
        } else {
            let retry: u32 = if rpm == 0 {
                u32::MAX
            } else {
                let need: u64 = 60 - level + rpm as u64 - 1;
                proof {
                    assert(0 <= need as int / rpm as int <= need) by (nonlinear_arith)
                        requires
                            rpm > 0,
                            need >= 0,
                    ;
                    assert(need as int / rpm as int <= 60) by (nonlinear_arith)
                        requires
                            rpm > 0,
                            need <= 59 + rpm,
                    ;
                }
                (need / rpm as u64) as u32
            };
            (TokenBucket { sixtieths: level, last_refill: now }, (false, 0, Some(retry)))
        };
        self.buckets.insert(own(subject), next);
        proof {
            assert forall|s: Seq<char>| s != subject@ implies #[trigger] self.bucket(s)
                == lookup(before@, s) by {
                assert(self.buckets.value(s) == before.value(s));
            }
        }
        answer
    }

    /// Takes a token for a request now.
    pub fn check_rate_limit(&mut self, subject: &str, is_admin: bool) -> (r: (
        bool,
        u32,
        Option<u32>,
    ))
        requires
            old(self).wf(),
        ensures
            final(self).wf(),
            final(self).limits() == old(self).limits(),
            forall|s: Seq<char>| #[trigger] final(self).own_rpm(s) == old(self).own_rpm(s),
            exists|now: u64|
                (final(self).bucket(subject@), r) == (
                    Some(
                        (#[trigger] checked(
                            old(self).bucket(subject@),
                            old(self).rpm(subject@, is_admin),
                            now,
                        )).0,
                    ),
                    checked(
                        old(self).bucket(subject@),
                        old(self).rpm(subject@, is_admin),
                        now,
                    ).1,
                ),
            forall|s: Seq<char>|
                s != subject@ ==> #[trigger] final(self).bucket(s) == old(self).bucket(s),
    {
        let now: u64 = unix_timestamp_secs();
        self.check_at(subject, is_admin, now)
    }

    /// The buckets that were used less than `ttl` seconds ago.
    pub open spec fn fresh_rows(s: Seq<(Seq<char>, TokenBucket)>, now: u64, ttl: u64) -> Seq<
        (Seq<char>, TokenBucket),
    >
        decreases s.len(),
    {
        if s.len() == 0 {
            s
        } else if elapsed(now, s.last().1.last_refill) < ttl {
            RateLimiter::fresh_rows(s.drop_last(), now, ttl).push(s.last())
        } else {
            RateLimiter::fresh_rows(s.drop_last(), now, ttl)
        }
    }

    /// Forgets the clients that have not asked for `ttl_secs` seconds.
    pub fn cleanup_at(&mut self, ttl_secs: u64, now: u64)
        requires
            old(self).wf(),
        ensures
            final(self).wf(),
            final(self).limits() == old(self).limits(),
            forall|s: Seq<char>| #[trigger] final(self).own_rpm(s) == old(self).own_rpm(s),
            final(self).rows() == RateLimiter::fresh_rows(old(self).rows(), now, ttl_secs),
    {
        let ghost s = self.rows();
        let total: usize = self.buckets.len();
        let mut i: usize = total;
        let ghost mut tail: Seq<(Seq<char>, TokenBucket)> = Seq::empty();
        proof {
            assert(s.subrange(0, i as int) =~= s);
            assert(RateLimiter::fresh_rows(s, now, ttl_secs) + tail =~= RateLimiter::fresh_rows(
                s,
                now,
                ttl_secs,
            ));
            assert(s + tail =~= s);
        }
        while i > 0
            invariant
                self.wf(),
                self.limits() == old(self).limits(),
                self.overrides == old(self).overrides,
                i <= s.len(),
                self.rows() == s.subrange(0, i as int) + tail,
                RateLimiter::fresh_rows(s.subrange(0, i as int), now, ttl_secs) + tail
                    == RateLimiter::fresh_rows(s, now, ttl_secs),
            decreases i,
        {
            let ghost t = s.subrange(0, i as int);
            let ghost row = s[i - 1];
            proof {
                assert(t.drop_last() =~= s.subrange(0, i - 1));
                assert(t.last() == row);
                assert(self.rows()[i - 1] == row);
            }
            let last: u64 = self.buckets.at(i - 1).last_refill;
            let age: u64 = if now > last {
                now - last
            } else {
                0
            };
            if age < ttl_secs {
                proof {
                    tail = seq![row] + tail;
                    assert(self.rows() =~= s.subrange(0, i - 1) + tail);
                    assert(RateLimiter::fresh_rows(t, now, ttl_secs) =~= RateLimiter::fresh_rows(
                        s.subrange(0, i - 1),
                        now,
                        ttl_secs,
                    ) + seq![row]);
                    assert(RateLimiter::fresh_rows(s.subrange(0, i - 1), now, ttl_secs) + tail
                        =~= RateLimiter::fresh_rows(s, now, ttl_secs));
                }
            } else {
                let ghost before = self.rows();
                let dropped = self.buckets.remove_at(i - 1);
                assert(self.rows() =~= s.subrange(0, i - 1) + tail);
            }
            i = i - 1;
        }
        assert(self.rows() =~= tail);
        assert(RateLimiter::fresh_rows(s.subrange(0, 0), now, ttl_secs) + tail =~= tail);
    }

    /// Forgets the clients that have not asked for `ttl_secs` seconds, as of now.
    pub fn cleanup_stale_entries(&mut self, ttl_secs: u64)
        requires
            old(self).wf(),
        ensures
            final(self).wf(),
            final(self).limits() == old(self).limits(),
            forall|s: Seq<char>| #[trigger] final(self).own_rpm(s) == old(self).own_rpm(s),
            exists|now: u64|
                final(self).rows() == #[trigger] RateLimiter::fresh_rows(
                    old(self).rows(),
                    now,
                    ttl_secs,
                ),
    {
        let now: u64 = unix_timestamp_secs();
        self.cleanup_at(ttl_secs, now);
    }

    /// The clients with their buckets, for storing them.
    pub fn save_state(&self) -> (r: Vec<(String, TokenBucket)>)
        ensures
            saved(r@) == self.rows(),
    {
        let mut out: Vec<(String, TokenBucket)> = Vec::new();
        let mut i: usize = 0;
        while i < self.buckets.len()
            invariant
                i <= self.buckets@.len(),
                out@.len() == i,
                forall|k: int|
                    0 <= k < i ==> (#[trigger] out@[k]).0@ == self.buckets@[k].0 && out@[k].1
                        == self.buckets@[k].1,
            decreases self.buckets@.len() - i,
        {
            out.push((self.buckets.key(i).clone(), *self.buckets.at(i)));
            i = i + 1;
        }
        assert(saved(out@) =~= self.rows());
        out
    }

    /// The rows once stored buckets are put back that were used less than ten
    /// minutes ago.
    pub open spec fn restored(
        s: Seq<(Seq<char>, TokenBucket)>,
        stored: Seq<(Seq<char>, TokenBucket)>,
        now: u64,
    ) -> Seq<(Seq<char>, TokenBucket)>
        decreases stored.len(),
    {
        if stored.len() == 0 {
            s
        } else {
            let t = RateLimiter::restored(s, stored.drop_last(), now);
            if elapsed(now, stored.last().1.last_refill) < RESTORE_WINDOW_SECS {
                upsert(t, stored.last().0, stored.last().1)
            } else {
                t
            }
        }
    }

    /// Puts stored buckets back that were used less than ten minutes ago.
    pub fn restore_state(&mut self, stored: &Vec<(String, TokenBucket)>, now: u64)
        requires
            old(self).wf(),
        ensures
            final(self).wf(),
            final(self).limits() == old(self).limits(),
            forall|s: Seq<char>| #[trigger] final(self).own_rpm(s) == old(self).own_rpm(s),
            final(self).rows() == RateLimiter::restored(old(self).rows(), saved(stored@), now),
    {
        let ghost s = self.rows();
        let ghost all = saved(stored@);
        let mut i: usize = 0;
        assert(all.subrange(0, 0) =~= Seq::empty());
        while i < stored.len()
            invariant
                i <= stored@.len(),
                all == saved(stored@),
                self.wf(),
                self.limits() == old(self).limits(),
                self.overrides == old(self).overrides,
                self.rows() == RateLimiter::restored(s, all.subrange(0, i as int), now),
            decreases stored@.len() - i,
        {
            proof {
                let t = all.subrange(0, i + 1);
                assert(t.drop_last() =~= all.subrange(0, i as int));
                assert(t.last() == all[i as int]);
            }
            let last: u64 = stored[i].1.last_refill;
            let age: u64 = if now > last {
                now - last
            } else {
                0
            };
            if age < RESTORE_WINDOW_SECS {
                self.buckets.insert(stored[i].0.clone(), stored[i].1);
            }
            i = i + 1;
        }
        assert(all.subrange(0, i as int) =~= all);
    }
}

/// The views of stored buckets.
pub open spec fn saved(v: Seq<(String, TokenBucket)>) -> Seq<(Seq<char>, TokenBucket)> {
    Seq::new(v.len(), |i: int| (v[i].0@, v[i].1))
}

// ---------------------------------------------------------------------------
// Laws
// ---------------------------------------------------------------------------

/// A bucket never holds more than a minute's worth of tokens.
pub proof fn never_overfull(b: TokenBucket, rpm: u32, now: u64)
    ensures
        taken(b, rpm, now).0.sixtieths <= 60 * rpm,
        taken(b, rpm, now).1.1 <= rpm,
{
    assert(0 <= elapsed(now, b.last_refill) * rpm) by (nonlinear_arith)
        requires
            0 <= elapsed(now, b.last_refill),
            0 <= rpm,
    ;
}

/// The bucket after `n` requests at one time.
pub open spec fn after_requests(b: TokenBucket, rpm: u32, now: u64, n: nat) -> TokenBucket
    decreases n,
{
    if n == 0 {
        b
    } else {
        taken(after_requests(b, rpm, now, (n - 1) as nat), rpm, now).0
    }
}

/// A new client has exactly `rpm` requests at once: after `n` requests that many
/// are used up, and the next is allowed just if fewer than `rpm` were made.
pub proof fn burst_is_exact(rpm: u32, now: u64, n: nat)
    requires
        n <= rpm,
    ensures
        after_requests(full(rpm, now), rpm, now, n).sixtieths == 60 * (rpm - n),
        taken(after_requests(full(rpm, now), rpm, now, n), rpm, now).1.0 == (n < rpm),
    decreases n,
{
    if n > 0 {
        burst_is_exact(rpm, now, (n - 1) as nat);
        let b = after_requests(full(rpm, now), rpm, now, (n - 1) as nat);
        assert(b.last_refill == now) by {
            after_requests_time(rpm, now, (n - 1) as nat);
        }
        assert(elapsed(now, now) == 0);
        assert(0 * rpm == 0);
    }
    after_requests_time(rpm, now, n);
    assert(elapsed(now, now) == 0);
    assert(0 * rpm == 0);
}

/// Requests at one time leave the bucket counted at that time.
proof fn after_requests_time(rpm: u32, now: u64, n: nat)
    ensures
        after_requests(full(rpm, now), rpm, now, n).last_refill == now,
    decreases n,
{
    if n > 0 {
        after_requests_time(rpm, now, (n - 1) as nat);
    }
}

/// Whoever waits as long as told, and does not ask meanwhile, is let in.
pub proof fn waiting_helps(b: TokenBucket, rpm: u32, now: u64, later: u64)
    requires
        rpm > 0,
        taken(b, rpm, now).1.2 matches Some(w) && later >= now + w,
    ensures
        taken(taken(b, rpm, now).0, rpm, later).1.0,
{
    let r = taken(b, rpm, now).0;
    let need = 60 - r.sixtieths + rpm - 1;
    let w = need / (rpm as int);
    assert(0 <= elapsed(now, b.last_refill) * rpm) by (nonlinear_arith)
        requires
            0 <= elapsed(now, b.last_refill),
            0 <= rpm,
    ;
    assert(r.sixtieths < 60);
    assert(0 <= w <= 60 && w * rpm >= 60 - r.sixtieths) by (nonlinear_arith)
        requires
            rpm > 0,
            w == need / (rpm as int),
            need == 60 - r.sixtieths + rpm - 1,
            0 <= r.sixtieths < 60,
    ;
    let e = elapsed(later, now);
    assert(e * rpm >= w * rpm) by (nonlinear_arith)
        requires
            e >= w,
            rpm > 0,
    ;
}

/// A limiter that is stored and put back at once knows every client that asked
/// in the last ten minutes as it did.
pub proof fn restored_as_saved(
    rows: Seq<(Seq<char>, TokenBucket)>,
    now: u64,
    subject: Seq<char>,
)
    requires
        crate::table::distinct(rows),
    ensures
        lookup(RateLimiter::restored(Seq::empty(), rows, now), subject) == match lookup(
            rows,
            subject,
        ) {
            Some(b) => if elapsed(now, b.last_refill) < RESTORE_WINDOW_SECS {
                Some(b)
            } else {
                None
            },
            None => None,
        },
        crate::table::distinct(RateLimiter::restored(Seq::empty(), rows, now)),
    decreases rows.len(),
{
    if rows.len() > 0 {
        let init = rows.drop_last();
        assert(crate::table::distinct(init)) by {
            assert forall|i: int, j: int| 0 <= i < j < init.len() implies init[i].0 != init[j].0 by {
                assert(rows[i].0 != rows[j].0);
            }
        }
        restored_as_saved(init, now, subject);
        let last = rows.last();
        let t = RateLimiter::restored(Seq::empty(), init, now);
        if elapsed(now, last.1.last_refill) < RESTORE_WINDOW_SECS {
            upsert_lookup(t, last.0, last.1, subject);
        }
        if subject == last.0 {
            assert(!has_key(init, subject)) by {
                if has_key(init, subject) {
                    let i = choose|i: int| 0 <= i < init.len() && (#[trigger] init[i]).0 == subject;
                    assert(rows[i].0 != rows[rows.len() - 1].0);
                }
            }
            lookup_present(init, subject);
        }
    }
}

/// A subject with a limit of its own has that one; others have the limit of their kind.
pub proof fn own_limit_comes_first(l: RateLimiter, subject: Seq<char>)
    ensures
        l.own_rpm(subject) is Some ==> l.rpm(subject, true) == l.own_rpm(subject)->0 && l.rpm(
            subject,
            false,
        ) == l.own_rpm(subject)->0,
        l.own_rpm(subject) is None ==> l.rpm(subject, true) == l.limits().admin_rpm && l.rpm(
            subject,
            false,
        ) == l.limits().regular_rpm,
{
}

/// A bucket that is used often enough stays, with what it holds; another one goes.
pub proof fn used_buckets_stay(s: Seq<(Seq<char>, TokenBucket)>, now: u64, ttl: u64)
    ensures
        forall|i: int|
            0 <= i < s.len() && elapsed(now, s[i].1.last_refill) < ttl ==> RateLimiter::fresh_rows(
                s,
                now,
                ttl,
            ).contains(#[trigger] s[i]),
        forall|i: int|
            0 <= i < RateLimiter::fresh_rows(s, now, ttl).len() ==> s.contains(
                #[trigger] RateLimiter::fresh_rows(s, now, ttl)[i],
            ) && elapsed(now, RateLimiter::fresh_rows(s, now, ttl)[i].1.last_refill) < ttl,
    decreases s.len(),
{
    if s.len() > 0 {
        let init = s.drop_last();
        let rest = RateLimiter::fresh_rows(init, now, ttl);
        let all = RateLimiter::fresh_rows(s, now, ttl);
        let n = s.len() - 1;
        used_buckets_stay(init, now, ttl);
        assert forall|i: int|
            0 <= i < s.len() && elapsed(now, s[i].1.last_refill) < ttl implies all.contains(
            #[trigger] s[i],
        ) by {
            if i < n {
                assert(init[i] == s[i]);
                let k = choose|k: int| 0 <= k < rest.len() && rest[k] == s[i];
                assert(all[k] == rest[k]);
            } else {
                assert(all[rest.len() as int] == s[n]);
            }
        }
        assert forall|i: int| 0 <= i < all.len() implies s.contains(#[trigger] all[i]) && elapsed(
            now,
            all[i].1.last_refill,
        ) < ttl by {
            if i < rest.len() {
                assert(all[i] == rest[i]);
                let k = choose|k: int| 0 <= k < init.len() && init[k] == rest[i];
                assert(s[k] == init[k]);
            } else {
                assert(all[i] == s[n]);
            }
        }
    }
}

/// A request takes one token of sixty sixtieths where there is one, and none where there is
/// not; the reply says how many whole tokens are left.
pub proof fn request_takes_one_token(b: TokenBucket, rpm: u32, now: u64)
    requires
        b.sixtieths <= 60 * rpm,
        b.last_refill == now,
    ensures
        ({
            let (after, (allowed, remaining, retry)) = taken(b, rpm, now);
            &&& allowed <==> b.sixtieths >= 60
            &&& allowed ==> after.sixtieths == b.sixtieths - 60 && retry is None && remaining * 60
                <= after.sixtieths < remaining * 60 + 60
            &&& !allowed ==> after.sixtieths == b.sixtieths && remaining == 0 && retry is Some
            &&& after.last_refill == now
        }),
{
    assert(elapsed(now, now) * rpm == 0) by (nonlinear_arith)
        requires
            elapsed(now, now) == 0,
    ;
    assert(refilled(b, rpm, now).sixtieths == b.sixtieths);
    if b.sixtieths >= 60 {
        let left = (b.sixtieths - 60) / 60;
        assert(left * 60 <= b.sixtieths - 60 < left * 60 + 60);
        assert(left <= rpm);
    }
}

/// One who is refused is told the least number of seconds after which there is a token; without
/// a rate there never is one.
pub proof fn wait_is_least(sixtieths: u64, rpm: u32, w: int)
    requires
        sixtieths < 60,
    ensures
        rpm > 0 ==> sixtieths + wait(sixtieths, rpm) * rpm >= 60,
        rpm > 0 && 0 <= w < wait(sixtieths, rpm) ==> sixtieths + w * rpm < 60,
        rpm == 0 ==> wait(sixtieths, rpm) == u32::MAX,
{
    if rpm > 0 {
        let need = 60 - sixtieths + rpm - 1;
        let q = need / (rpm as int);
        assert(0 <= q <= 60 && sixtieths + q * rpm >= 60) by (nonlinear_arith)
            requires
                rpm > 0,
                q == need / (rpm as int),
                need == 60 - sixtieths + rpm - 1,
                0 <= sixtieths < 60,
        ;
        assert(wait(sixtieths, rpm) == q);
        if 0 <= w < q {
            assert(sixtieths + w * rpm < 60) by (nonlinear_arith)
                requires
                    rpm > 0,
                    q == need / (rpm as int),
                    need == 60 - sixtieths + rpm - 1,
                    0 <= w < q,
            ;
        }
    }
}

} // verus!
