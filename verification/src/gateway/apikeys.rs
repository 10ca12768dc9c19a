//! The API keys of users.
use crate::duplicate::{duplicate_all, views_opt};
use crate::gateway::accounts::{
    body_document, read_body, unrecorded, Audited, AuditedView, UserStep, BODY_LIMIT,
};
use crate::gateway::audit::{fresh_builder, AuditEntryBuilder, AuditEntryBuilderView};
use crate::gateway::auth::AuthResult;
use crate::gateway::reply::{
    bare_reply, error_reply, error_view, ok_reply, Reply, ReplyView,
};
use crate::json::{items_view_index, text_array, text_or_null, Json, JsonView};
use crate::outside::{lowercase, new_ulid, sha256, sha256_of, to_lowercase};
use crate::text::{cat2, cat4, own, view_opt, views};
use crate::time::{Timestamp, MAX_SECONDS};
use crate::wire::{
    as_record, optional_text_at, read_texts_at, record, text_array_read_back, texts_at,
};
use vstd::prelude::*;
use vstd::utf8::{encode_utf8, is_char_boundary};

verus! {

/// A key to create.
pub struct CreateApiKeyBody {
    pub name: String,
    pub scopes: Option<Vec<String>>,
    pub expires_in_days: Option<u32>,
}

/// A key to store. Only the digest of it is stored.
pub struct ApiKeyCreateRequest {
    pub user_id: String,
    pub name: String,
    pub key_hash: String,
    pub scopes: Vec<String>,
    pub expires_at: Option<Timestamp>,
}

/// The mathematical content of a [`ApiKeyCreateRequest`].
pub struct ApiKeyCreateRequestView {
    pub user_id: Seq<char>,
    pub name: Seq<char>,
    pub key_hash: Seq<char>,
    pub scopes: Seq<Seq<char>>,
    pub expires_at: Option<int>,
}

impl View for ApiKeyCreateRequest {
    type V = ApiKeyCreateRequestView;

    open spec fn view(&self) -> ApiKeyCreateRequestView {
        ApiKeyCreateRequestView {
            user_id: self.user_id@,
            name: self.name@,
            key_hash: self.key_hash@,
            scopes: views(self.scopes@),
            expires_at: view_opt(self.expires_at),
        }
    }
}

/// A stored key.
pub struct ApiKeyRecord {
    pub key_id: String,
    pub name: String,
    pub scopes: Vec<String>,
    pub created_at: String,
    pub expires_at: Option<String>,
    pub last_used: Option<String>,
    pub revoked: bool,
}

/// The mathematical content of a [`ApiKeyRecord`].
pub struct ApiKeyRecordView {
    pub key_id: Seq<char>,
    pub name: Seq<char>,
    pub scopes: Seq<Seq<char>>,
    pub created_at: Seq<char>,
    pub expires_at: Option<Seq<char>>,
    pub last_used: Option<Seq<char>>,
    pub revoked: bool,
}

impl View for ApiKeyRecord {
    type V = ApiKeyRecordView;

    open spec fn view(&self) -> ApiKeyRecordView {
        ApiKeyRecordView {
            key_id: self.key_id@,
            name: self.name@,
            scopes: views(self.scopes@),
            created_at: self.created_at@,
            expires_at: view_opt(self.expires_at),
            last_used: view_opt(self.last_used),
            revoked: self.revoked,
        }
    }
}

/// An optional list of strings in a field; the outer `None` is a field of another
/// type.
pub open spec fn optional_texts_at(j: JsonView, key: Seq<char>) -> Option<Option<Seq<Seq<char>>>> {
    match j.get(key) {
        None => Some(None),
        Some(JsonView::Null) => Some(None),
        Some(_) => match texts_at(j, key) {
            Some(s) => Some(Some(s)),
            None => None,
        },
    }
}

/// An optional 32-bit number in a field; the outer `None` is a field of another
/// type or range.
pub open spec fn optional_u32_at(j: JsonView, key: Seq<char>) -> Option<Option<u32>> {
    match j.get(key) {
        None => Some(None),
        Some(JsonView::Null) => Some(None),
        Some(JsonView::Int(n)) => if 0 <= n <= u32::MAX {
            Some(Some(n as u32))
        } else {
            None
        },
        Some(_) => None,
    }
}

/// The key that a request body asks for: name, scopes and days.
pub open spec fn create_body_of(body: Result<JsonView, Seq<char>>) -> Option<
    (Seq<char>, Option<Seq<Seq<char>>>, Option<u32>),
> {
    match body {
        Ok(j) => {
            let j = record(j, seq!["name"@, "scopes"@, "expires_in_days"@], 3);
            match (
                j.text_at("name"@),
                optional_texts_at(j, "scopes"@),
                optional_u32_at(j, "expires_in_days"@),
            ) {
                (Some(n), Some(s), Some(d)) => Some((n, s, d)),
                _ => None,
            }
        },
        Err(_) => None,
    }
}

/// Reads the key that a request body asks for.
pub fn read_create_body(bytes: &[u8]) -> (r: Result<CreateApiKeyBody, Reply>)
    ensures
        match (r, create_body_of(body_document(bytes@))) {
            (Ok(b), Some(x)) => b.name@ == x.0 && views_opt(b.scopes) == x.1
                && b.expires_in_days == x.2,
            (Err(e), None) => e@ == error_view(
                400,
                if bytes@.len() > BODY_LIMIT {
                    "invalid body"@
                } else {
                    "invalid request body, expected: {name, scopes?, expires_in_days?}"@
                },
            ),
            _ => false,
        },
{
    if bytes.len() > BODY_LIMIT {
        return Err(error_reply(400, "invalid body"));
    }
    match read_body(bytes) {
        Some(body) => {
            let names: Vec<&'static str> = vec!["name", "scopes", "expires_in_days"];
            assert(views(names@) =~= seq!["name"@, "scopes"@, "expires_in_days"@]);
            let spread = as_record(&body, &names, 3);
            let j = match &spread {
                Some(x) => x,
                None => &body,
            };
            let scopes = match j.get("scopes") {
                None => Some(None),
                Some(x) => if x.is_null() {
                    Some(None)
                } else {
                    match read_texts_at(j, "scopes") {
                        Some(s) => Some(Some(s)),
                        None => None,
                    }
                },
            };
            let days = match j.get("expires_in_days") {
                None => Some(None),
                Some(x) => if x.is_null() {
                    Some(None)
                } else {
                    match x.as_u64() {
                        Some(n) => if n <= 0xffff_ffff {
                            Some(Some(n as u32))
                        } else {
                            None
                        },
                        None => None,
                    }
                },
            };
            match (j.text_at("name"), scopes, days) {
                (Some(name), Some(scopes), Some(expires_in_days)) => Ok(
                    CreateApiKeyBody { name, scopes, expires_in_days },
                ),
                _ => Err(
                    error_reply(
                        400,
                        "invalid request body, expected: {name, scopes?, expires_in_days?}",
                    ),
                ),
            }
        },
        None => Err(
            error_reply(
                400,
                "invalid request body, expected: {name, scopes?, expires_in_days?}",
            ),
        ),
    }
}

/// The user who may have API keys: somebody known, and not by the API key.
pub fn key_owner(auth: &Option<AuthResult>, refusal: &str) -> (r: UserStep<String>)
    ensures
        match *auth {
            None => r matches UserStep::Done(x) && x@ == (ReplyView { status: 401, body: None }),
            Some(a) => match a@.user_id {
                Some(id) => r matches UserStep::Ask(x) && x@ == id,
                None => r matches UserStep::Done(x) && x@ == error_view(400, refusal@),
            },
        },
{
    match auth {
        None => UserStep::Done(bare_reply(401)),
        Some(a) => match &a.user_id {
            Some(id) => UserStep::Ask(id.clone()),
            None => UserStep::Done(error_reply(400, refusal)),
        },
    }
}

/// The character of a hexadecimal digit.
pub open spec fn nibble(n: int) -> char {
    if n < 10 {
        (48 + n) as u8 as char
    } else {
        (87 + n) as u8 as char
    }
}

/// The hexadecimal digits of some bytes, two each.
pub open spec fn hex_text(b: Seq<u8>) -> Seq<char> {
    Seq::new(
        2 * b.len(),
        |i: int|
            nibble(
                if i % 2 == 0 {
                    b[i / 2] as int / 16
                } else {
                    b[i / 2] as int % 16
                },
            ),
    )
}

/// The character of a hexadecimal digit.
fn nibble_of(n: u8) -> (r: char)
    requires
        n < 16,
    ensures
        r == nibble(n as int),
{
    if n < 10 {
        (48 + n) as char
    } else {
        (87 + n) as char
    }
}

/// The hexadecimal digits of some bytes.
pub fn hex_of_bytes(b: &Vec<u8>) -> (r: String)
    ensures
        r@ == hex_text(b@),
{
    let mut out = String::new();
    let mut i: usize = 0;
    while i < b.len()
        invariant
            i <= b@.len(),
            out@ =~= hex_text(b@).subrange(0, 2 * i),
        decreases b@.len() - i,
    {
        let x: u8 = b[i];
        out.push(nibble_of(x / 16));
        out.push(nibble_of(x % 16));
        proof {
            let h = hex_text(b@);
            assert((2 * i) / 2 == i && (2 * i) % 2 == 0);
            assert((2 * i + 1) / 2 == i && (2 * i + 1) % 2 == 1);
            assert(h[2 * i] == nibble(b@[i as int] as int / 16));
            assert(h[2 * i + 1] == nibble(b@[i as int] as int % 16));
        }
        i = i + 1;
    }
    assert(out@ =~= hex_text(b@));
    out
}

/// The digest of a key, in hexadecimal digits.
pub open spec fn key_digest(key: Seq<char>) -> Seq<char> {
    hex_text(sha256_of(encode_utf8(key)))
}

/// The digest of a key, in hexadecimal digits.
pub fn digest_key(key: &str) -> (r: String)
    ensures
        r@ == key_digest(key@),
        r@.len() == 64,
{
    let d = sha256(key.as_bytes());
    hex_of_bytes(&d)
}

/// What is left of a user id without its first five bytes, which are `user_`.
pub open spec fn id_tail(user_id: Seq<char>, tail: Seq<char>) -> bool {
    encode_utf8(tail) == encode_utf8(user_id).subrange(5, encode_utf8(user_id).len() as int)
}

/// Seconds of a day.
pub const DAY_SECONDS: u64 = 86_400;

/// A key can expire that many days from now.
pub open spec fn can_expire(now: int, days: Option<u32>) -> bool {
    days matches Some(d) ==> now + d * DAY_SECONDS * 1_000_000_000 <= MAX_SECONDS
        * 1_000_000_000
}

/// Makes a key for a user: the key itself, and the request that stores its digest.
/// The scopes are those asked for, or else those of the user. The random part of
/// the key is given.
pub fn make_key(
    auth: &AuthResult,
    user_id: &str,
    body: &CreateApiKeyBody,
    random: &str,
    now: Timestamp,
) -> (r: (String, ApiKeyCreateRequest))
    requires
        is_char_boundary(encode_utf8(user_id@), 5),
        can_expire(now@, body.expires_in_days),
    ensures
        exists|tail: Seq<char>|
            #[trigger] id_tail(user_id@, tail) && r.0@ == "sk_"@ + tail + "_"@ + lowercase(
                random@,
            ),
        r.1@ == (ApiKeyCreateRequestView {
            user_id: user_id@,
            name: body.name@,
            key_hash: key_digest(r.0@),
            scopes: match body.scopes {
                Some(s) => views(s@),
                None => auth@.scopes,
            },
            expires_at: match body.expires_in_days {
                Some(d) => Some(now@ + d * DAY_SECONDS * 1_000_000_000),
                None => None,
            },
        }),
{
    let (prefix, tail) = user_id.split_at(5);
    let key = cat4("sk_", tail, "_", &to_lowercase(random));
    assert(id_tail(user_id@, tail@));
    let key_hash = digest_key(&key);
    let scopes = match &body.scopes {
        Some(s) => duplicate_all(s),
        None => duplicate_all(&auth.scopes),
    };
    let expires_at = match body.expires_in_days {
        Some(d) => now.days_later(d),
        None => None,
    };
    let req = ApiKeyCreateRequest {
        user_id: own(user_id),
        name: body.name.clone(),
        key_hash,
        scopes,
        expires_at,
    };
    (key, req)
}

/// Makes a key with a new random part, as of now.
pub fn create_apikey(auth: &AuthResult, user_id: &str, body: &CreateApiKeyBody, now: Timestamp) -> (r: (
    String,
    ApiKeyCreateRequest,
))
    requires
        is_char_boundary(encode_utf8(user_id@), 5),
        can_expire(now@, body.expires_in_days),
    ensures
        exists|random: Seq<char>, tail: Seq<char>|
            random.len() == 26 && #[trigger] id_tail(user_id@, tail) && r.0@ == "sk_"@ + tail
                + "_"@ + #[trigger] lowercase(random),
        r.1@ == (ApiKeyCreateRequestView {
            user_id: user_id@,
            name: body.name@,
            key_hash: key_digest(r.0@),
            scopes: match body.scopes {
                Some(s) => views(s@),
                None => auth@.scopes,
            },
            expires_at: match body.expires_in_days {
                Some(d) => Some(now@ + d * DAY_SECONDS * 1_000_000_000),
                None => None,
            },
        }),
{
    let random = new_ulid();
    make_key(auth, user_id, body, &random, now)
}

/// What is said of a new key.
pub open spec fn save_warning() -> Seq<char> {
    "Save this key now \u{2014} it cannot be retrieved later"@
}

/// The reply once storing a key was tried. The key itself is shown this once.
/// `key_id` is the id of the stored key, where it was stored.
pub fn finish_create(
    auth: &AuthResult,
    user_id: &str,
    key_id: &Option<String>,
    key: &str,
    name: &str,
    expires_at: &Option<String>,
) -> (r: Audited)
    ensures
        r@ == match *key_id {
            Some(id) => AuditedView {
                reply: ReplyView {
                    status: 201,
                    body: Some(
                        JsonView::object().put("key_id"@, JsonView::Text(id@)).put(
                            "key"@,
                            JsonView::Text(key@),
                        ).put("name"@, JsonView::Text(name@)).put(
                            "expires_at"@,
                            text_or_null(view_opt(*expires_at)),
                        ).put("warning"@, JsonView::Text(save_warning())),
                    ),
                },
                audit: Some(
                    AuditEntryBuilderView {
                        method: "POST"@,
                        path: "/api/v1/apikeys"@,
                        status: 201,
                        user_id: Some(user_id@),
                        ..fresh_builder("apikey.created"@, auth@.subject, id@)
                    },
                ),
            },
            None => unrecorded(error_view(500, "failed to create API key"@)),
        },
{
    match key_id {
        Some(id) => {
            let body = Json::object().put("key_id", Json::text(id)).put(
                "key",
                Json::text(key),
            ).put("name", Json::text(name)).put("expires_at", Json::opt(expires_at)).put(
                "warning",
                Json::text("Save this key now \u{2014} it cannot be retrieved later"),
            );
            let audit = AuditEntryBuilder::new("apikey.created", &auth.subject, id).method(
                "POST",
            ).path("/api/v1/apikeys").status(201).user_id(Some(own(user_id)));
            Audited { reply: Reply { status: 201, body: Some(body) }, audit: Some(audit) }
        },
        None => Audited { reply: error_reply(500, "failed to create API key"), audit: None },
    }
}

/// A stored key as it is shown. The digest is not.
pub open spec fn key_json(k: ApiKeyRecordView) -> JsonView {
    JsonView::object().put("key_id"@, JsonView::Text(k.key_id)).put(
        "name"@,
        JsonView::Text(k.name),
    ).put("scopes"@, text_array(k.scopes)).put("created_at"@, JsonView::Text(k.created_at)).put(
        "expires_at"@,
        text_or_null(k.expires_at),
    ).put("last_used"@, text_or_null(k.last_used)).put("revoked"@, JsonView::Bool(k.revoked))
}

/// The reply that lists the keys of a user.
pub fn list_apikeys(keys: &Option<Vec<ApiKeyRecord>>) -> (r: Reply)
    ensures
        r@ == match *keys {
            Some(v) => ReplyView {
                status: 200,
                body: Some(
                    JsonView::object().put(
                        "keys"@,
                        JsonView::Array(Seq::new(v@.len(), |i: int| key_json(v@[i]@))),
                    ),
                ),
            },
            None => error_view(500, "failed to list API keys"@),
        },
{
    match keys {
        Some(v) => {
            let mut out: Vec<Json> = Vec::new();
            let mut i: usize = 0;
            while i < v.len()
                invariant
                    i <= v@.len(),
                    out@.len() == i,
                    forall|k: int| 0 <= k < i ==> (#[trigger] out@[k])@ == key_json(v@[k]@),
                decreases v@.len() - i,
            {
                let k = &v[i];
                out.push(
                    Json::object().put("key_id", Json::text(&k.key_id)).put(
                        "name",
                        Json::text(&k.name),
                    ).put("scopes", Json::texts(&k.scopes)).put(
                        "created_at",
                        Json::text(&k.created_at),
                    ).put("expires_at", Json::opt(&k.expires_at)).put(
                        "last_used",
                        Json::opt(&k.last_used),
                    ).put("revoked", Json::Bool(k.revoked)),
                );
                i = i + 1;
            }
            proof {
                items_view_index(out@);
                assert(views(out@) =~= Seq::new(v@.len(), |i: int| key_json(v@[i]@)));
            }
            ok_reply(Json::object().put("keys", Json::Array(out)))
        },
        None => error_reply(500, "failed to list API keys"),
    }
}

/// The reply once revoking a key was tried.
pub fn finish_revoke(auth: &AuthResult, user_id: &str, key_id: &str, success: bool) -> (r: Audited)
    ensures
        r@ == if success {
            AuditedView {
                reply: ReplyView {
                    status: 200,
                    body: Some(JsonView::object().put("revoked"@, JsonView::Bool(true))),
                },
                audit: Some(
                    AuditEntryBuilderView {
                        method: "DELETE"@,
                        path: "/api/v1/apikeys/"@ + key_id@,
                        status: 200,
                        user_id: Some(user_id@),
                        ..fresh_builder("apikey.revoked"@, auth@.subject, key_id@)
                    },
                ),
            }
        } else {
            unrecorded(error_view(500, "failed to revoke API key"@))
        },
{
    if success {
        let audit = AuditEntryBuilder::new("apikey.revoked", &auth.subject, key_id).method(
            "DELETE",
        ).path(&cat2("/api/v1/apikeys/", key_id)).status(200).user_id(Some(own(user_id)));
        Audited {
            reply: ok_reply(Json::object().put("revoked", Json::Bool(true))),
            audit: Some(audit),
        }
    } else {
        Audited { reply: error_reply(500, "failed to revoke API key"), audit: None }
    }
}

/// A listed key says all that is known of it; the key itself is not known.
pub proof fn key_tells(k: ApiKeyRecordView)
    ensures
        key_json(k).text_at("key_id"@) == Some(k.key_id),
        key_json(k).text_at("name"@) == Some(k.name),
        texts_at(key_json(k), "scopes"@) == Some(k.scopes),
        key_json(k).text_at("created_at"@) == Some(k.created_at),
        optional_text_at(key_json(k), "expires_at"@) == Some(k.expires_at),
        optional_text_at(key_json(k), "last_used"@) == Some(k.last_used),
        key_json(k).get("revoked"@) == Some(JsonView::Bool(k.revoked)),
        key_json(k).get("key"@) is None,
{
    reveal_strlit("key_id");
    reveal_strlit("name");
    reveal_strlit("scopes");
    reveal_strlit("created_at");
    reveal_strlit("expires_at");
    reveal_strlit("last_used");
    reveal_strlit("revoked");
    reveal_strlit("key");
    assert("key_id"@.len() == 6);
    assert("name"@.len() == 4);
    assert("scopes"@.len() == 6);
    assert("created_at"@.len() == 10);
    assert("expires_at"@.len() == 10);
    assert("last_used"@.len() == 9);
    assert("revoked"@.len() == 7);
    assert("key"@.len() == 3);
    assert("key_id"@[0] != "scopes"@[0]);
    assert("created_at"@[0] != "expires_at"@[0]);
    text_array_read_back(key_json(k), "scopes"@, k.scopes);
}

/// A key is made from what the body asks for.
pub proof fn request_is_read(j: JsonView)
    requires
        j is Object,
    ensures
        match create_body_of(Ok(j)) {
            Some((name, scopes, days)) => {
                &&& j.text_at("name"@) == Some(name)
                &&& scopes is Some ==> texts_at(j, "scopes"@) == scopes
                &&& scopes is None ==> j.get("scopes"@) is None || j.get("scopes"@) == Some(
                    JsonView::Null,
                )
                &&& days is Some ==> j.get("expires_in_days"@) == Some(
                    JsonView::Int(days->0 as int),
                )
                &&& days is None ==> j.get("expires_in_days"@) is None || j.get(
                    "expires_in_days"@,
                ) == Some(JsonView::Null)
            },
            None => true,
        },
        j.text_at("name"@) is None ==> create_body_of(Ok(j)) is None,
        j.text_at("name"@) is Some && j.get("scopes"@) is None && j.get("expires_in_days"@) is None
            ==> create_body_of(Ok(j)) is Some,
{
}

/// Two digits tell a byte, so two digests differ where the bytes do.
pub proof fn hex_tells_bytes(a: Seq<u8>, b: Seq<u8>)
    requires
        hex_text(a) == hex_text(b),
    ensures
        a == b,
        hex_text(a).len() == 2 * a.len(),
{
    assert(hex_text(a).len() == 2 * a.len());
    assert(hex_text(b).len() == 2 * b.len());
    assert forall|i: int| 0 <= i < a.len() implies a[i] == b[i] by {
        assert((2 * i) / 2 == i && (2 * i) % 2 == 0);
        assert((2 * i + 1) / 2 == i && (2 * i + 1) % 2 == 1);
        assert(hex_text(a)[2 * i] == nibble(a[i] as int / 16));
        assert(hex_text(b)[2 * i] == nibble(b[i] as int / 16));
        assert(hex_text(a)[2 * i + 1] == nibble(a[i] as int % 16));
        assert(hex_text(b)[2 * i + 1] == nibble(b[i] as int % 16));
        assert(hex_text(a)[2 * i] == hex_text(b)[2 * i]);
        assert(hex_text(a)[2 * i + 1] == hex_text(b)[2 * i + 1]);
        nibbles_differ(a[i] as int / 16, b[i] as int / 16);
        nibbles_differ(a[i] as int % 16, b[i] as int % 16);
    }
    assert(a =~= b);
}

/// A digit tells its value.
proof fn nibbles_differ(m: int, n: int)
    requires
        0 <= m < 16,
        0 <= n < 16,
    ensures
        nibble(m) == nibble(n) ==> m == n,
{
}

/// The tail of a user's id is what stands behind its first five bytes.
pub proof fn tail_ends_the_id(user_id: Seq<char>, tail: Seq<char>)
    requires
        id_tail(user_id, tail),
        encode_utf8(user_id).len() >= 5,
    ensures
        encode_utf8(user_id) == encode_utf8(user_id).subrange(0, 5) + encode_utf8(tail),
{
}

/// A key may last as long as the calendar goes.
pub proof fn expiry_fits_the_calendar(now: int, days: u32)
    ensures
        can_expire(now, None),
        can_expire(now, Some(days)) <==> now + days * 86_400 * 1_000_000_000 <= MAX_SECONDS
            * 1_000_000_000,
{
}

/// Digits below ten are figures, and the others the letters from a on.
pub proof fn digits_are_written(n: int)
    ensures
        0 <= n < 10 ==> nibble(n) as int == '0' as int + n,
        10 <= n < 16 ==> nibble(n) as int == 'a' as int + n - 10,
{
}

} // verus!
