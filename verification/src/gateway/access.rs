//! Access to the gateway: allowed origins, the credentials of a request, and the
//! gate that every request passes.
use crate::gateway::audit::{fresh_builder, AuditEntryBuilder, AuditEntryBuilderView};
use crate::gateway::auth::{rest_after, AuthResult};
use crate::outside::{
    header_text, is_header_text, media_type, media_type_of, parse_rfc3339, rfc3339_time_of,
};
use crate::text::{
    after_prefix, cat2, cat3, contains, decimal, decimal_of, number_in, own, parse_number,
    part_stands_in_whole, split, split_on, starts_with, trim, trimmed, view_opt, views,
};
use crate::time::Timestamp;
use vstd::prelude::*;

verus! {

/// The origins that a list names, separated by commas. Blank ones and those that
/// cannot stand in a header are left out.
pub open spec fn listed_origins(pieces: Seq<Seq<char>>) -> Seq<Seq<char>>
    decreases pieces.len(),
{
    if pieces.len() == 0 {
        Seq::empty()
    } else {
        let rest = listed_origins(pieces.drop_last());
        let o = trim(pieces.last());
        if o.len() > 0 && header_text(o) {
            rest.push(o)
        } else {
            rest
        }
    }
}

/// The allowed origins: those that the setting names, or the local one where it
/// names none or is missing.
pub open spec fn origins(setting: Option<Seq<char>>) -> Seq<Seq<char>> {
    let named = listed_origins(split(setting.unwrap_or("http://localhost:3000"@), ','));
    if named.len() == 0 {
        seq!["http://localhost:3000"@]
    } else {
        named
    }
}

/// The allowed origins.
pub fn cors_origins(setting: &Option<String>) -> (r: Vec<String>)
    ensures
        views(r@) == origins(view_opt(*setting)),
{
    let text = match setting {
        Some(s) => s.clone(),
        None => own("http://localhost:3000"),
    };
    let pieces = split_on(&text, ',');
    let ghost all = views(pieces@);
    let mut out: Vec<String> = Vec::new();
    let mut i: usize = 0;
    assert(views(out@) =~= listed_origins(all.subrange(0, 0)));
    while i < pieces.len()
        invariant
            i <= pieces@.len(),
            all == views(pieces@),
            views(out@) == listed_origins(all.subrange(0, i as int)),
        decreases pieces@.len() - i,
    {
        let ghost before = out@;
        proof {
            let t = all.subrange(0, i + 1);
            assert(t.drop_last() =~= all.subrange(0, i as int));
            assert(t.last() == pieces@[i as int]@);
        }
        let o = trimmed(&pieces[i]);
        if !o.as_str().is_empty() && is_header_text(&o) {
            out.push(o);
            assert(views(out@) =~= views(before).push(o@));
        }
        i = i + 1;
    }
    assert(all.subrange(0, i as int) =~= all);
    if out.len() == 0 {
        let local = vec![own("http://localhost:3000")];
        assert(views(local@) =~= seq!["http://localhost:3000"@]);
        local
    } else {
        assert(views(out@).len() > 0);
        out
    }
}

/// What follows the prefix in the first text that has it.
pub open spec fn first_after(pieces: Seq<Seq<char>>, prefix: Seq<char>) -> Option<Seq<char>>
    decreases pieces.len(),
{
    if pieces.len() == 0 {
        None
    } else if starts_with(pieces[0], prefix) {
        rest_after(pieces[0], prefix)
    } else {
        first_after(pieces.drop_first(), prefix)
    }
}

/// The API key that a query string states.
pub open spec fn query_api_key(query: Option<Seq<char>>) -> Option<Seq<char>> {
    match query {
        Some(q) => first_after(split(q, '&'), "api_key="@),
        None => None,
    }
}

/// The API key that a query string states.
pub fn api_key_param(query: &Option<String>) -> (r: Option<String>)
    ensures
        view_opt(r) == query_api_key(view_opt(*query)),
{
    let q = match query {
        Some(q) => q,
        None => {
            return None;
        },
    };
    let pieces = split_on(q, '&');
    let ghost all = views(pieces@);
    let mut i: usize = 0;
    assert(all.subrange(0, all.len() as int) =~= all);
    while i < pieces.len()
        invariant
            i <= pieces@.len(),
            all == views(pieces@),
            all == split(q@, '&'),
            *query == Some(*q),
            first_after(all, "api_key="@) == first_after(
                all.subrange(i as int, all.len() as int),
                "api_key="@,
            ),
        decreases pieces@.len() - i,
    {
        proof {
            let t = all.subrange(i as int, all.len() as int);
            assert(t[0] == pieces@[i as int]@);
            assert(t.drop_first() =~= all.subrange(i + 1, all.len() as int));
        }
        match after_prefix(&pieces[i], "api_key=") {
            Some(k) => {
                return Some(k);
            },
            None => {},
        }
        i = i + 1;
    }
    None
}

/// The header of a WebSocket request that names an API key as a parameter.
pub fn ws_auth_header(api_key: &Option<String>) -> (r: String)
    ensures
        r@ == "ApiKey "@ + match *api_key {
            Some(k) => k@,
            None => Seq::empty(),
        },
{
    match api_key {
        Some(k) => cat2("ApiKey ", k),
        None => {
            let r = own("ApiKey ");
            assert(r@ =~= "ApiKey "@ + Seq::<char>::empty());
            r
        },
    }
}

/// What becomes of a request before it is handled.
pub enum GateStep {
    /// It is refused: nobody knows who is asking.
    Unauthorized(AuditEntryBuilder),
    /// It is refused: too many requests. It may be tried again after some seconds.
    TooMany { retry_after: u32, audit: AuditEntryBuilder },
    /// It passes; so many more may follow.
    Pass { auth: AuthResult, remaining: u32 },
}

/// The record of a refused stranger.
pub open spec fn stranger_audit(method: Seq<char>, path: Seq<char>) -> AuditEntryBuilderView {
    AuditEntryBuilderView {
        method,
        path,
        status: 401,
        ..fresh_builder("auth.failed"@, "unknown"@, path)
    }
}

/// The record of a request too many.
pub open spec fn too_many_audit(
    subject: Seq<char>,
    method: Seq<char>,
    path: Seq<char>,
    retry_after: u32,
) -> AuditEntryBuilderView {
    AuditEntryBuilderView {
        method,
        path,
        status: 429,
        details: Some("retry_after: "@ + decimal(retry_after as nat) + "s"@),
        ..fresh_builder("rate_limit.exceeded"@, subject, path)
    }
}

/// The first half of it: a request of nobody is refused.
pub fn check_known(auth: Option<AuthResult>, method: &str, path: &str) -> (r: Result<
    AuthResult,
    AuditEntryBuilder,
>)
    ensures
        match (r, auth) {
            (Ok(a), Some(b)) => a == b,
            (Err(e), None) => e@ == stranger_audit(method@, path@),
            _ => false,
        },
{
    match auth {
        Some(a) => Ok(a),
        None => Err(
            AuditEntryBuilder::new("auth.failed", "unknown", path).method(method).path(path).status(
                401,
            ),
        ),
    }
}

/// The whole gate: a request of nobody is refused, and so is one too many. `limit`
/// is what the rate limiter said of the subject.
pub fn gate(
    auth: Option<AuthResult>,
    limit: (bool, u32, Option<u32>),
    method: &str,
    path: &str,
) -> (r: GateStep)
    ensures
        match auth {
            None => r matches GateStep::Unauthorized(e) && e@ == stranger_audit(method@, path@),
            Some(a) => if limit.0 {
                r matches GateStep::Pass { auth: b, remaining } && b == a && remaining == limit.1
            } else {
                r matches GateStep::TooMany { retry_after, audit } && retry_after
                    == limit.2.unwrap_or(1) && audit@ == too_many_audit(
                    a@.subject,
                    method@,
                    path@,
                    retry_after,
                )
            },
        },
{
    match check_known(auth, method, path) {
        Err(e) => GateStep::Unauthorized(e),
        Ok(a) => if limit.0 {
            GateStep::Pass { auth: a, remaining: limit.1 }
        } else {
            let retry_after: u32 = match limit.2 {
                Some(n) => n,
                None => 1,
            };
            let detail = cat3("retry_after: ", &decimal_of(retry_after as u64), "s");
            let audit = AuditEntryBuilder::new("rate_limit.exceeded", &a.subject, path).method(
                method,
            ).path(path).status(429).details(&detail);
            GateStep::TooMany { retry_after, audit }
        },
    }
}

/// A number in a query, if it is one.
pub fn usize_param(text: &Option<String>) -> (r: Option<usize>)
    ensures
        match r {
            Some(n) => text matches Some(t) && number_in(t@, usize::MAX as int) == Some(n as int),
            None => text matches Some(t) ==> number_in(t@, usize::MAX as int) is None,
        },
{
    match text {
        Some(t) => match parse_number(t, usize::MAX as u64) {
            Some(n) => Some(n as usize),
            None => None,
        },
        None => None,
    }
}

/// The number of entries that a listing gives unless told otherwise.
pub fn listing_limit(text: &Option<String>) -> (r: usize)
    ensures
        r == match *text {
            Some(t) => number_in(t@, usize::MAX as int).unwrap_or(50),
            None => 50,
        },
{
    match usize_param(text) {
        Some(n) => n,
        None => 50,
    }
}

/// A point in time in a query, if it is one.
pub open spec fn since_of(text: Option<Seq<char>>) -> Option<int> {
    match text {
        Some(t) => match rfc3339_time_of(t) {
            Some(x) => Some(x.0 * 1_000_000_000 + x.1),
            None => None,
        },
        None => None,
    }
}

/// A point in time in a query.
pub fn since_param(text: &Option<String>) -> (r: Option<Timestamp>)
    ensures
        view_opt(r) == since_of(view_opt(*text)),
{
    match text {
        Some(t) => match parse_rfc3339(t) {
            Some(x) => Timestamp::at(x.0, x.1),
            None => None,
        },
        None => None,
    }
}

/// A text without any number of a prefix at its start.
pub open spec fn without_prefixes(s: Seq<char>, prefix: Seq<char>) -> Seq<char>
    decreases s.len(),
{
    if prefix.len() > 0 && starts_with(s, prefix) {
        without_prefixes(s.subrange(prefix.len() as int, s.len() as int), prefix)
    } else {
        s
    }
}

/// The name of the file that a path of the dashboard asks for.
pub open spec fn asset_of(path: Seq<char>) -> Seq<char> {
    let name = without_prefixes(path, "/dashboard/"@);
    if name.len() == 0 {
        "index.html"@
    } else {
        name
    }
}

/// The name of the file that a path of the dashboard asks for.
pub fn asset_name(path: &str) -> (r: String)
    ensures
        r@ == asset_of(path@),
{
    let mut rest = own(path);
    proof {
        reveal_strlit("/dashboard/");
        assert("/dashboard/"@.len() == 11);
    }
    loop
        invariant
            without_prefixes(rest@, "/dashboard/"@) == without_prefixes(path@, "/dashboard/"@),
            "/dashboard/"@.len() == 11,
        decreases rest@.len(),
    {
        match after_prefix(&rest, "/dashboard/") {
            Some(t) => {
                rest = t;
            },
            None => {
                if rest.as_str().is_empty() {
                    return own("index.html");
                }
                return rest;
            },
        }
    }
}

/// Which file is served, and as what: the one asked for, or the start page where
/// there is none, or nothing where there is no start page either.
pub fn serve_static(name: &str, exists: bool, index_exists: bool) -> (r: Option<(String, String)>)
    ensures
        match r {
            Some(f) => if exists {
                f.0@ == name@ && f.1@ == media_type_of(name@)
            } else {
                index_exists && f.0@ == "index.html"@ && f.1@ == "text/html"@
            },
            None => !exists && !index_exists,
        },
{
    if exists {
        Some((own(name), media_type(name)))
    } else if index_exists {
        Some((own("index.html"), own("text/html")))
    } else {
        None
    }
}

/// The origins are those that the setting lists and a header can carry; where it lists none,
/// the local one.
pub proof fn origins_are_listed(setting: Option<Seq<char>>, i: int)
    ensures
        origins(setting).len() > 0,
        setting is None || listed_origins(split(setting->0, ',')).len() > 0 || origins(setting)
            == seq!["http://localhost:3000"@],
        setting is Some && 0 <= i < split(setting->0, ',').len() && trim(
            split(setting->0, ',')[i],
        ).len() > 0 && header_text(trim(split(setting->0, ',')[i])) ==> origins(setting).contains(
            trim(split(setting->0, ',')[i]),
        ),
{
    if setting is Some && 0 <= i < split(setting->0, ',').len() {
        pieces_are_listed(split(setting->0, ','), i);
    }
}

/// A piece that names an origin is listed, and what is listed is such a piece.
proof fn pieces_are_listed(pieces: Seq<Seq<char>>, i: int)
    requires
        0 <= i < pieces.len(),
    ensures
        trim(pieces[i]).len() > 0 && header_text(trim(pieces[i])) ==> listed_origins(
            pieces,
        ).contains(trim(pieces[i])),
    decreases pieces.len(),
{
    let rest = listed_origins(pieces.drop_last());
    let all = listed_origins(pieces);
    if i < pieces.len() - 1 {
        assert(pieces.drop_last()[i] == pieces[i]);
        pieces_are_listed(pieces.drop_last(), i);
        if rest.contains(trim(pieces[i])) {
            let k = choose|k: int| 0 <= k < rest.len() && rest[k] == trim(pieces[i]);
            assert(all[k] == rest[k]);
        }
    } else if trim(pieces[i]).len() > 0 && header_text(trim(pieces[i])) {
        assert(all[rest.len() as int] == trim(pieces[i]));
    }
}

/// Every listed origin is a piece of the setting, without the blanks round it.
pub proof fn listed_origins_are_pieces(pieces: Seq<Seq<char>>, i: int)
    requires
        0 <= i < listed_origins(pieces).len(),
    ensures
        listed_origins(pieces)[i].len() > 0,
        header_text(listed_origins(pieces)[i]),
        exists|k: int|
            0 <= k < pieces.len() && listed_origins(pieces)[i] == trim(#[trigger] pieces[k]),
    decreases pieces.len(),
{
    let rest = listed_origins(pieces.drop_last());
    let n = pieces.len() - 1;
    if i < rest.len() {
        listed_origins_are_pieces(pieces.drop_last(), i);
        let k = choose|k: int|
            0 <= k < n && rest[i] == trim(#[trigger] pieces.drop_last()[k]);
        assert(pieces[k] == pieces.drop_last()[k]);
    } else {
        assert(listed_origins(pieces)[i] == trim(pieces[n]));
    }
}

/// The first piece of a query that begins as a key does gives the key.
pub proof fn key_is_found(pieces: Seq<Seq<char>>, prefix: Seq<char>, i: int, key: Seq<char>)
    requires
        0 <= i < pieces.len(),
        pieces[i] == prefix + key,
        forall|k: int| 0 <= k < i ==> !starts_with(#[trigger] pieces[k], prefix),
    ensures
        first_after(pieces, prefix) == Some(key),
    decreases pieces.len(),
{
    if i == 0 {
        assert(pieces[0].subrange(0, prefix.len() as int) =~= prefix);
        assert(pieces[0].subrange(prefix.len() as int, pieces[0].len() as int) =~= key);
    } else {
        assert(!starts_with(pieces[0], prefix));
        let rest = pieces.drop_first();
        assert forall|k: int| 0 <= k < i - 1 implies !starts_with(#[trigger] rest[k], prefix) by {
            assert(rest[k] == pieces[k + 1]);
        }
        key_is_found(rest, prefix, i - 1, key);
    }
}

/// A query in which no piece begins as a key does gives none.
pub proof fn no_key_is_found(pieces: Seq<Seq<char>>, prefix: Seq<char>)
    requires
        forall|k: int| 0 <= k < pieces.len() ==> !starts_with(#[trigger] pieces[k], prefix),
    ensures
        first_after(pieces, prefix) is None,
    decreases pieces.len(),
{
    if pieces.len() > 0 {
        let rest = pieces.drop_first();
        assert forall|k: int| 0 <= k < rest.len() implies !starts_with(
            #[trigger] rest[k],
            prefix,
        ) by {
            assert(rest[k] == pieces[k + 1]);
        }
        no_key_is_found(rest, prefix);
    }
}

/// A refusal is recorded with what was asked, and by whom where that is known.
pub proof fn refusals_are_recorded(
    subject: Seq<char>,
    method: Seq<char>,
    path: Seq<char>,
    retry_after: u32,
)
    ensures
        stranger_audit(method, path).method == method,
        stranger_audit(method, path).path == path,
        stranger_audit(method, path).resource == path,
        stranger_audit(method, path).status == 401,
        stranger_audit(method, path).action == "auth.failed"@,
        too_many_audit(subject, method, path, retry_after).subject == subject,
        too_many_audit(subject, method, path, retry_after).method == method,
        too_many_audit(subject, method, path, retry_after).path == path,
        too_many_audit(subject, method, path, retry_after).status == 429,
        too_many_audit(subject, method, path, retry_after).action == "rate_limit.exceeded"@,
        too_many_audit(subject, method, path, retry_after).details is Some,
        contains(
            too_many_audit(subject, method, path, retry_after).details->0,
            decimal(retry_after as nat),
        ),
{
    part_stands_in_whole("retry_after: "@, decimal(retry_after as nat), "s"@);
}

/// A file of the dashboard is asked for under its name; the bare path asks for the index.
pub proof fn asset_is_named(name: Seq<char>)
    requires
        !starts_with(name, "/dashboard/"@),
    ensures
        name.len() > 0 ==> asset_of("/dashboard/"@ + name) == name,
        name.len() > 0 ==> asset_of(name) == name,
        asset_of("/dashboard/"@) == "index.html"@,
{
    let p = "/dashboard/"@;
    reveal_strlit("/dashboard/");
    assert(p.len() == 11);
    let whole = p + name;
    assert(whole.subrange(0, p.len() as int) =~= p);
    assert(whole.subrange(p.len() as int, whole.len() as int) =~= name);
    assert(p.subrange(0, p.len() as int) =~= p);
    assert(p.subrange(p.len() as int, p.len() as int) =~= Seq::<char>::empty());
    assert(without_prefixes(whole, p) == without_prefixes(name, p));
    assert(without_prefixes(p, p) == without_prefixes(Seq::<char>::empty(), p));
}

/// A query names a key in the piece that begins so; no query names none.
pub proof fn query_names_the_key(q: Seq<char>, key: Seq<char>, i: int)
    requires
        0 <= i < split(q, '&').len(),
        split(q, '&')[i] == "api_key="@ + key,
        forall|k: int| 0 <= k < i ==> !starts_with(#[trigger] split(q, '&')[k], "api_key="@),
    ensures
        query_api_key(Some(q)) == Some(key),
        query_api_key(None) is None,
{
    key_is_found(split(q, '&'), "api_key="@, i, key);
}

/// A time that is asked for is read to the nanosecond; what is no time asks for none.
pub proof fn time_is_asked_for(t: Seq<char>)
    ensures
        rfc3339_time_of(t) is None ==> since_of(Some(t)) is None,
        rfc3339_time_of(t) is Some ==> since_of(Some(t)) == Some(
            (rfc3339_time_of(t)->0).0 * 1_000_000_000 + (rfc3339_time_of(t)->0).1,
        ),
        since_of(None) is None,
{
}

} // verus!
