//! Signed tokens: issued, checked and revoked.
use crate::duplicate::{duplicate_all, duplicate_opt, Duplicate};
use crate::gateway::audit::last_n;
use crate::json::{text_array, Json, JsonView};
use crate::kernel::arguments::element_texts;
use crate::outside::{
    all_texts, json_into_value, jwt_claims, jwt_decode, jwt_encode, jwt_token, may_be_expired, new_ulid,
    plain_claims, settle_float_free, utc_now, value_into_json,
};
use crate::text::{cat2, contains, has_text, own, stands_in_sum, view_opt, views};
use crate::wire::{optional_text_at, read_texts_at, texts_at};
use vstd::prelude::*;

verus! {

/// What a token says.
pub struct Claims {
    /// The id of the token, by which it is revoked.
    pub jti: String,
    /// Whom it was issued to.
    pub sub: String,
    /// When it was issued, in seconds since the epoch.
    pub iat: u64,
    /// When it expires, in seconds since the epoch.
    pub exp: u64,
    /// The scopes that it gives access to.
    pub scopes: Vec<String>,
    /// `admin`, `user` or `readonly`.
    pub role: String,
    /// The user, for tokens of users.
    pub user_id: Option<String>,
}

/// The mathematical content of a [`Claims`].
pub struct ClaimsView {
    pub jti: Seq<char>,
    pub sub: Seq<char>,
    pub iat: u64,
    pub exp: u64,
    pub scopes: Seq<Seq<char>>,
    pub role: Seq<char>,
    pub user_id: Option<Seq<char>>,
}

impl View for Claims {
    type V = ClaimsView;

    open spec fn view(&self) -> ClaimsView {
        ClaimsView {
            jti: self.jti@,
            sub: self.sub@,
            iat: self.iat,
            exp: self.exp,
            scopes: views(self.scopes@),
            role: self.role@,
            user_id: view_opt(self.user_id),
        }
    }
}

impl Duplicate for Claims {
    fn copy(&self) -> (r: Claims) {
        Claims {
            jti: self.jti.clone(),
            sub: self.sub.clone(),
            iat: self.iat,
            exp: self.exp,
            scopes: duplicate_all(&self.scopes),
            role: self.role.clone(),
            user_id: duplicate_opt(&self.user_id),
        }
    }
}

/// Why a token is refused.
pub enum TokenError {
    /// Its form, its signature or its expiry.
    Invalid(String),
    /// Its claims are not those of this service.
    Malformed,
    /// It was revoked.
    Revoked,
}

/// What is said of a refused token.
pub open spec fn token_error_text(e: TokenError) -> Seq<char> {
    match e {
        TokenError::Invalid(detail) => "JWT validation failed: "@ + detail@,
        TokenError::Malformed => "JWT validation failed: malformed claims"@,
        TokenError::Revoked => "Token has been revoked"@,
    }
}

impl TokenError {
    /// What is said of a refused token.
    pub fn message(&self) -> (r: String)
        ensures
            r@ == token_error_text(*self),
    {
        match self {
            TokenError::Invalid(detail) => cat2("JWT validation failed: ", detail),
            TokenError::Malformed => own("JWT validation failed: malformed claims"),
            TokenError::Revoked => own("Token has been revoked"),
        }
    }
}

/// The document of some claims. A missing user is left out.
pub open spec fn claims_json(c: ClaimsView) -> JsonView {
    let base = JsonView::object().put("jti"@, JsonView::Text(c.jti)).put(
        "sub"@,
        JsonView::Text(c.sub),
    ).put("iat"@, JsonView::Int(c.iat as int)).put("exp"@, JsonView::Int(c.exp as int)).put(
        "scopes"@,
        text_array(c.scopes),
    ).put("role"@, JsonView::Text(c.role));
    match c.user_id {
        Some(u) => base.put("user_id"@, JsonView::Text(u)),
        None => base,
    }
}

/// The claims that a document states.
pub open spec fn claims_of(j: JsonView) -> Option<ClaimsView> {
    match (
        j.text_at("jti"@),
        j.text_at("sub"@),
        j.u64_at("iat"@),
        j.u64_at("exp"@),
        texts_at(j, "scopes"@),
        j.text_at("role"@),
        optional_text_at(j, "user_id"@),
    ) {
        (Some(jti), Some(sub), Some(iat), Some(exp), Some(scopes), Some(role), Some(user_id)) =>
            Some(
            ClaimsView { jti, sub, iat: iat as u64, exp: exp as u64, scopes, role, user_id },
        ),
        _ => None,
    }
}

/// The names of the claims are different.
proof fn claim_names_differ()
    ensures
        "jti"@ != "sub"@,
        "jti"@ != "iat"@,
        "jti"@ != "exp"@,
        "jti"@ != "scopes"@,
        "jti"@ != "role"@,
        "jti"@ != "user_id"@,
        "sub"@ != "iat"@,
        "sub"@ != "exp"@,
        "sub"@ != "scopes"@,
        "sub"@ != "role"@,
        "sub"@ != "user_id"@,
        "iat"@ != "exp"@,
        "iat"@ != "scopes"@,
        "iat"@ != "role"@,
        "iat"@ != "user_id"@,
        "exp"@ != "scopes"@,
        "exp"@ != "role"@,
        "exp"@ != "user_id"@,
        "scopes"@ != "role"@,
        "scopes"@ != "user_id"@,
        "role"@ != "user_id"@,
        "aud"@ != "jti"@,
        "aud"@ != "sub"@,
        "aud"@ != "iat"@,
        "aud"@ != "exp"@,
        "aud"@ != "scopes"@,
        "aud"@ != "role"@,
        "aud"@ != "user_id"@,
        "nbf"@ != "scopes"@,
{
    reveal_strlit("jti");
    reveal_strlit("sub");
    reveal_strlit("iat");
    reveal_strlit("exp");
    reveal_strlit("scopes");
    reveal_strlit("role");
    reveal_strlit("user_id");
    reveal_strlit("aud");
    reveal_strlit("nbf");
    assert("jti"@[0] == 'j');
    assert("sub"@[0] == 's');
    assert("iat"@[0] == 'i');
    assert("exp"@[0] == 'e');
    assert("scopes"@[1] == 'c');
    assert("sub"@[1] == 'u');
    assert("scopes"@[0] == 's');
    assert("role"@[0] == 'r');
    assert("user_id"@[0] == 'u');
    assert("aud"@[0] == 'a');
    assert("nbf"@[0] == 'n');
}

/// Claims that are written to a document are read back from it, and the document
/// is one that a token carries as it is.
pub proof fn claims_read_back(c: ClaimsView)
    ensures
        claims_of(claims_json(c)) == Some(c),
        plain_claims(claims_json(c)),
        claims_json(c).float_free(),
{
    claim_names_differ();
    let j = claims_json(c);
    assert(j is Object);
    let m = j->Object_0;
    let a = text_array(c.scopes)->Array_0;
    assert(element_texts(a) =~= c.scopes);
    assert(m["scopes"@] == text_array(c.scopes));
    assert(all_texts(a));
    assert(j.array_at("scopes"@) == Some(a));
    assert(j.text_at("jti"@) == Some(c.jti));
    assert(j.u64_at("iat"@) == Some(c.iat as int));
    reveal_strlit("jti");
    assert("jti"@.len() == 3);
    reveal_strlit("sub");
    assert("sub"@.len() == 3);
    reveal_strlit("iat");
    assert("iat"@.len() == 3);
    reveal_strlit("exp");
    assert("exp"@.len() == 3);
    reveal_strlit("scopes");
    assert("scopes"@.len() == 6);
    reveal_strlit("role");
    assert("role"@.len() == 4);
    reveal_strlit("user_id");
    assert("user_id"@.len() == 7);
    reveal_strlit("$serde_json::private::Number");
    assert("$serde_json::private::Number"@.len() == 28);
    reveal_strlit("$serde_json::private::RawValue");
    assert("$serde_json::private::RawValue"@.len() == 30);
    assert forall|k: Seq<char>| #[trigger] m.contains_key(k) implies (m[k] is Text || m[k] is Int
        || (m[k] matches JsonView::Array(x) && all_texts(x))) && m[k].float_free() by {
        if k == "scopes"@ {
            assert forall|i: int| 0 <= i < a.len() implies a[i].float_free() by {
            }
        }
    }
}

/// The document of some claims.
pub fn claims_document(c: &Claims) -> (r: Json)
    ensures
        r@ == claims_json(c@),
{
    let base = Json::object().put("jti", Json::text(&c.jti)).put("sub", Json::text(&c.sub)).put(
        "iat",
        Json::Unsigned(c.iat),
    ).put("exp", Json::Unsigned(c.exp)).put("scopes", Json::texts(&c.scopes)).put(
        "role",
        Json::text(&c.role),
    );
    match &c.user_id {
        Some(u) => base.put("user_id", Json::text(u)),
        None => base,
    }
}

/// The claims that a document states.
pub fn read_claims(j: &Json) -> (r: Option<Claims>)
    ensures
        view_opt(r) == claims_of(j@),
{
    let user_id = match j.get("user_id") {
        None => None,
        Some(x) => match x {
            Json::Null => None,
            Json::Text(s) => Some(s.clone()),
            _ => {
                return None;
            },
        },
    };
    match (
        j.text_at("jti"),
        j.text_at("sub"),
        j.u64_at("iat"),
        j.u64_at("exp"),
        read_texts_at(j, "scopes"),
        j.text_at("role"),
    ) {
        (Some(jti), Some(sub), Some(iat), Some(exp), Some(scopes), Some(role)) => Some(
            Claims { jti, sub, iat, exp, scopes, role, user_id },
        ),
        _ => None,
    }
}

/// The last instant of the clock, in seconds since the epoch.
pub const LAST_SECOND: u64 = 8_400_000_000_000;

/// No string occurs twice.
pub open spec fn no_repeats(s: Seq<Seq<char>>) -> bool {
    forall|i: int, j: int| 0 <= i < j < s.len() ==> s[i] != s[j]
}

/// Claims for a subject in a role, with a user's scopes, that hold for `ttl`
/// seconds.
pub open spec fn issued_for(
    c: ClaimsView,
    subject: Seq<char>,
    role: Seq<char>,
    scopes: Seq<Seq<char>>,
    user_id: Option<Seq<char>>,
    ttl: u64,
) -> bool {
    c.sub == subject && c.role == role && c.scopes == scopes && c.user_id == user_id && c.exp
        == c.iat + ttl
}

/// The revoked ids with one more: a new one comes last.
pub open spec fn with_revoked(revoked: Seq<Seq<char>>, jti: Seq<char>) -> Seq<Seq<char>> {
    if revoked.contains(jti) {
        revoked
    } else {
        revoked.push(jti)
    }
}

/// The claims of a token with an id that is issued at `now` and holds for `ttl`
/// seconds.
pub open spec fn claims_at(
    jti: Seq<char>,
    now: u64,
    ttl: u64,
    subject: Seq<char>,
    role: Seq<char>,
    scopes: Seq<Seq<char>>,
    user_id: Option<Seq<char>>,
) -> ClaimsView {
    ClaimsView { jti, sub: subject, iat: now, exp: (now + ttl) as u64, scopes, role, user_id }
}

/// Issues and checks tokens under one secret, and knows which were revoked.
pub struct JwtService {
    secret: String,
    pub token_ttl_secs: u64,
    revoked: Vec<String>,
}

/// What validating a token gives once it is decoded.
pub open spec fn accepted(decoded: Result<JsonView, Seq<char>>, revoked: Seq<Seq<char>>) -> Result<
    ClaimsView,
    Seq<char>,
> {
    match decoded {
        Err(e) => Err("JWT validation failed: "@ + e),
        Ok(j) => match claims_of(j) {
            None => Err("JWT validation failed: malformed claims"@),
            Some(c) => if revoked.contains(c.jti) {
                Err("Token has been revoked"@)
            } else {
                Ok(c)
            },
        },
    }
}

/// What decoding a token may give: its claims, or an error unless they state no expiry
/// that the clock can have passed.
pub open spec fn decodes(
    token: Seq<char>,
    secret: Seq<char>,
    d: Result<JsonView, Seq<char>>,
) -> bool {
    match d {
        Ok(j) => jwt_claims(token, secret) == Some(j),
        Err(_) => jwt_claims(token, secret) matches Some(j) ==> may_be_expired(j),
    }
}

/// What came of decoding a token: the document, or the text of the error.
pub open spec fn decoding_outcome(d: Result<Json, String>) -> Result<JsonView, Seq<char>> {
    match d {
        Ok(j) => Ok(j@),
        Err(e) => Err(e@),
    }
}

/// What came of validating a token: the claims, or the text of the error.
pub open spec fn token_outcome(r: Result<Claims, TokenError>) -> Result<ClaimsView, Seq<char>> {
    match r {
        Ok(c) => Ok(c@),
        Err(e) => Err(token_error_text(e)),
    }
}

impl JwtService {
    /// The secret.
    pub closed spec fn key(self) -> Seq<char> {
        self.secret@
    }

    /// The ids of the revoked tokens, in the order in which they were revoked.
    pub closed spec fn revocations(self) -> Seq<Seq<char>> {
        views(self.revoked@)
    }

    /// How long tokens are valid, in seconds.
    pub closed spec fn ttl(self) -> u64 {
        self.token_ttl_secs
    }

    /// No token is revoked twice, and expiry times can be computed.
    pub open spec fn wf(self) -> bool {
        no_repeats(self.revocations()) && self.ttl() <= u64::MAX - LAST_SECOND
    }

    /// A service under a secret. Tokens are valid for `token_ttl_secs` seconds.
    pub fn new(secret: &str, token_ttl_secs: u64) -> (r: JwtService)
        ensures
            r.key() == secret@,
            r.ttl() == token_ttl_secs,
            r.revocations() == Seq::<Seq<char>>::empty(),
            token_ttl_secs <= u64::MAX - LAST_SECOND ==> r.wf(),
    {
        let r = JwtService { secret: own(secret), token_ttl_secs, revoked: Vec::new() };
        assert(r.revocations() =~= Seq::empty());
        r
    }

    /// How long tokens are valid, in seconds.
    pub fn ttl_secs(&self) -> (r: u64)
        ensures
            r == self.ttl(),
    {
        self.token_ttl_secs
    }

    /// The token of some claims, which carries them. There always is one.
    pub fn sign(&self, claims: &Claims) -> (r: Result<String, String>)
        ensures
            r matches Ok(t) && jwt_token(claims_json(claims@), self.key()) == Some(t@)
                && jwt_claims(t@, self.key()) == Some(claims_json(claims@)),
    {
        let doc = claims_document(claims);
        proof {
            claims_read_back(claims@);
            settle_float_free(claims_json(claims@));
        }
        jwt_encode(&json_into_value(&doc), &self.secret)
    }

    /// Issues a token, which never fails. Its id is new, it is issued now, and it
    /// expires after the service's time to live.
    pub fn generate_token(
        &self,
        subject: &str,
        role: &str,
        scopes: Vec<String>,
        user_id: Option<String>,
    ) -> (r: Result<String, String>)
        requires
            self.wf(),
        ensures
            r matches Ok(t) && exists|c: ClaimsView|
                #[trigger] issued_for(
                    c,
                    subject@,
                    role@,
                    views(scopes@),
                    view_opt(user_id),
                    self.ttl(),
                ) && c.jti.len() == 26 && c.iat <= LAST_SECOND && jwt_token(
                    claims_json(c),
                    self.key(),
                ) == Some(t@) && jwt_claims(t@, self.key()) == Some(claims_json(c)),
    {
        let now: u64 = utc_now().0 as u64;
        let jti = new_ulid();
        let ghost c = claims_at(
            jti@,
            now,
            self.ttl(),
            subject@,
            role@,
            views(scopes@),
            view_opt(user_id),
        );
        proof {
            assert(issued_for(
                c,
                subject@,
                role@,
                views(scopes@),
                view_opt(user_id),
                self.ttl(),
            ));
        }
        self.issue_token(jti, now, subject, role, scopes, user_id)
    }

    /// Issues a token under an id, at a point in time in seconds since the epoch.
    pub fn issue_token(
        &self,
        jti: String,
        now: u64,
        subject: &str,
        role: &str,
        scopes: Vec<String>,
        user_id: Option<String>,
    ) -> (r: Result<String, String>)
        requires
            self.wf(),
            now <= LAST_SECOND,
        ensures
            ({
                let c = claims_at(
                    jti@,
                    now,
                    self.ttl(),
                    subject@,
                    role@,
                    views(scopes@),
                    view_opt(user_id),
                );
                r matches Ok(t) && jwt_token(claims_json(c), self.key()) == Some(t@) && jwt_claims(
                    t@,
                    self.key(),
                ) == Some(claims_json(c))
            }),
    {
        let claims = Claims {
            jti,
            sub: own(subject),
            iat: now,
            exp: now + self.token_ttl_secs,
            scopes,
            role: own(role),
            user_id,
        };
        self.sign(&claims)
    }

    /// Judges a decoded token: its claims must be those of this service, and it
    /// must not be revoked.
    pub fn accept(&self, decoded: Result<Json, String>) -> (r: Result<Claims, TokenError>)
        ensures
            token_outcome(r) == accepted(decoding_outcome(decoded), self.revocations()),
    {
        match decoded {
            Err(e) => Err(TokenError::Invalid(e)),
            Ok(j) => match read_claims(&j) {
                None => Err(TokenError::Malformed),
                Some(c) => if has_text(&self.revoked, &c.jti) {
                    Err(TokenError::Revoked)
                } else {
                    Ok(c)
                },
            },
        }
    }

    /// What validating a token may give, whatever the clock says.
    pub open spec fn may_give(self, token: Seq<char>, o: Result<ClaimsView, Seq<char>>) -> bool {
        exists|d: Result<JsonView, Seq<char>>| #[trigger]
            decodes(token, self.key(), d) && o == accepted(d, self.revocations())
    }

    /// Checks a token and gives its claims. What is accepted was signed under the
    /// secret and is not revoked; a token is refused only for the signature, the claims,
    /// a revocation or an expiry that the clock can have passed.
    pub fn validate_token(&self, token: &str) -> (r: Result<Claims, TokenError>)
        ensures
            self.may_give(token@, token_outcome(r)),
    {
        let decoded = match jwt_decode(token, &self.secret) {
            Ok(v) => Ok(value_into_json(v)),
            Err(e) => Err(e),
        };
        assert(decodes(token@, self.key(), decoding_outcome(decoded)));
        self.accept(decoded)
    }

    /// Revokes a token by its id.
    pub fn revoke_token(&mut self, jti: &str)
        requires
            old(self).wf(),
        ensures
            final(self).wf(),
            final(self).key() == old(self).key(),
            final(self).ttl() == old(self).ttl(),
            final(self).revocations() == with_revoked(old(self).revocations(), jti@),
    {
        let ghost before = self.revoked@;
        if !has_text(&self.revoked, jti) {
            self.revoked.push(own(jti));
            proof {
                let s = views(before);
                assert(self.revocations() =~= s.push(jti@));
                assert forall|i: int, j: int| 0 <= i < j < self.revocations().len() implies
                    self.revocations()[i] != self.revocations()[j] by {
                    if j == s.len() {
                        assert(s.contains(s[i]));
                    }
                }
            }
        }
    }

    /// Whether a token was revoked.
    pub fn is_revoked(&self, jti: &str) -> (r: bool)
        ensures
            r == self.revocations().contains(jti@),
    {
        has_text(&self.revoked, jti)
    }

    /// Keeps the most recent revocations, up to a number.
    pub fn cleanup_revocations(&mut self, max_entries: usize)
        requires
            old(self).wf(),
        ensures
            final(self).wf(),
            final(self).key() == old(self).key(),
            final(self).ttl() == old(self).ttl(),
            final(self).revocations() == last_n(
                old(self).revocations(),
                max_entries as int,
            ),
    {
        let ghost s = self.revocations();
        if self.revoked.len() > max_entries {
            let cut: usize = self.revoked.len() - max_entries;
            let ghost before = self.revoked@;
            let kept = self.revoked.split_off(cut);
            self.revoked = kept;
            proof {
                assert(self.revocations() =~= s.subrange(cut as int, s.len() as int));
                assert forall|i: int, j: int| 0 <= i < j < self.revocations().len() implies
                    self.revocations()[i] != self.revocations()[j] by {
                    assert(s[i + cut] != s[j + cut]);
                }
            }
        }
    }

    /// The revoked ids, the oldest first, for keeping them across restarts.
    pub fn list_revocations(&self) -> (r: Vec<String>)
        ensures
            views(r@) == self.revocations(),
    {
        duplicate_all(&self.revoked)
    }
}

/// A token that was issued is accepted, with the claims it was issued for, by
/// whoever decodes it under the same secret; unless it was revoked.
pub proof fn issued_token_is_accepted(
    c: ClaimsView,
    token: Seq<char>,
    secret: Seq<char>,
    revoked: Seq<Seq<char>>,
)
    requires
        jwt_claims(token, secret) == Some(claims_json(c)),
        !revoked.contains(c.jti),
    ensures
        accepted(Ok(jwt_claims(token, secret)->Some_0), revoked) == Ok::<ClaimsView, Seq<char>>(c),
{
    claims_read_back(c);
}

/// Revoking a token leaves every token with another id as it was: accepted or refused.
pub proof fn other_tokens_stay(j: JsonView, jti: Seq<char>, revoked: Seq<Seq<char>>)
    requires
        claims_of(j) matches Some(c) ==> c.jti != jti,
    ensures
        accepted(Ok(j), with_revoked(revoked, jti)) == accepted(Ok(j), revoked),
{
    if claims_of(j) is Some && !revoked.contains(jti) {
        let id = claims_of(j)->Some_0.jti;
        let after = revoked.push(jti);
        if revoked.contains(id) {
            let i = choose|i: int| 0 <= i < revoked.len() && revoked[i] == id;
            assert(after[i] == id);
        }
        if after.contains(id) {
            let i = choose|i: int| 0 <= i < after.len() && after[i] == id;
            assert(revoked[i] == id);
        }
    }
}

/// Revoking a token refuses it from then on, and leaves another token accepted that
/// was so whatever the clock said.
pub proof fn revocation_is_exact(
    before: JwtService,
    after: JwtService,
    t: Seq<char>,
    c: ClaimsView,
    t2: Seq<char>,
    c2: ClaimsView,
    o: Result<ClaimsView, Seq<char>>,
    o2: Result<ClaimsView, Seq<char>>,
)
    requires
        after.key() == before.key(),
        after.revocations() == with_revoked(before.revocations(), c.jti),
        before.may_give(t, Ok(c)),
        before.may_give(t2, Ok(c2)),
        c2.jti != c.jti,
        c2.exp >= LAST_SECOND,
        after.may_give(t, o),
        after.may_give(t2, o2),
    ensures
        o is Err,
        o2 == Ok::<ClaimsView, Seq<char>>(c2),
        after.revocations().contains(c.jti),
{
    let old = before.revocations();
    let new = after.revocations();
    if !old.contains(c.jti) {
        assert(new[old.len() as int] == c.jti);
    }
    let key = before.key();
    let j = jwt_claims(t, key)->Some_0;
    let j2 = jwt_claims(t2, key)->Some_0;
    assert(claims_of(j) == Some(c));
    assert(claims_of(j2) == Some(c2));
    assert(j2.u64_at("exp"@) == Some(c2.exp as int));
    assert(!may_be_expired(j2));
    other_tokens_stay(j2, c.jti, old);
}

/// A token whose id was revoked is refused, whatever else holds of it.
pub proof fn revoked_token_is_refused(c: ClaimsView, revoked: Seq<Seq<char>>)
    ensures
        accepted(Ok(claims_json(c)), with_revoked(revoked, c.jti)) == Err::<ClaimsView, Seq<char>>(
            "Token has been revoked"@,
        ),
{
    claims_read_back(c);
    let after = with_revoked(revoked, c.jti);
    if !revoked.contains(c.jti) {
        assert(after[revoked.len() as int] == c.jti);
    }
}

/// A token is issued for the one it was asked for, and lasts from now for as long as tokens
/// last.
pub proof fn claims_tell(
    jti: Seq<char>,
    now: u64,
    ttl: u64,
    subject: Seq<char>,
    role: Seq<char>,
    scopes: Seq<Seq<char>>,
    user_id: Option<Seq<char>>,
)
    requires
        now + ttl <= u64::MAX,
    ensures
        ({
            let c = claims_at(jti, now, ttl, subject, role, scopes, user_id);
            &&& c.jti == jti
            &&& c.sub == subject
            &&& c.role == role
            &&& c.scopes == scopes
            &&& c.user_id == user_id
            &&& c.iat == now
            &&& c.exp == now + ttl
            &&& issued_for(c, subject, role, scopes, user_id, ttl)
        }),
{
}

/// A token that does not decode, or holds no claims, is refused.
pub proof fn unreadable_token_is_refused(
    e: Seq<char>,
    j: JsonView,
    revoked: Seq<Seq<char>>,
)
    ensures
        accepted(Err(e), revoked) is Err,
        claims_of(j) is None ==> accepted(Ok(j), revoked) is Err,
        claims_of(j) is Some && !revoked.contains(claims_of(j)->0.jti) ==> accepted(Ok(j), revoked)
            == Ok::<ClaimsView, Seq<char>>(claims_of(j)->0),
{
}

/// A token is accepted only with claims that it holds under the key, and not once it is revoked.
pub proof fn accepted_token_is_genuine(
    s: JwtService,
    token: Seq<char>,
    c: ClaimsView,
)
    requires
        s.may_give(token, Ok(c)),
    ensures
        jwt_claims(token, s.key()) is Some,
        claims_of(jwt_claims(token, s.key())->0) == Some(c),
        !s.revocations().contains(c.jti),
{
}

/// A token that cannot have expired and is not revoked is accepted.
pub proof fn lasting_token_is_accepted(
    s: JwtService,
    token: Seq<char>,
    o: Result<ClaimsView, Seq<char>>,
)
    requires
        s.may_give(token, o),
        jwt_claims(token, s.key()) is Some,
        !may_be_expired(jwt_claims(token, s.key())->0),
        claims_of(jwt_claims(token, s.key())->0) is Some,
        !s.revocations().contains(claims_of(jwt_claims(token, s.key())->0)->0.jti),
    ensures
        o == Ok::<ClaimsView, Seq<char>>(claims_of(jwt_claims(token, s.key())->0)->0),
{
}

/// A refusal tells what is wrong with the token.
pub proof fn refusal_tells(detail: String)
    ensures
        contains(token_error_text(TokenError::Invalid(detail)), detail@),
        token_error_text(TokenError::Revoked) == "Token has been revoked"@,
{
    stands_in_sum("JWT validation failed: "@, detail@, detail@);
}

} // verus!
