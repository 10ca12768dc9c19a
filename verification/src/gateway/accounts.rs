//! Accounts: tokens issued and revoked, users registered and managed.
use crate::duplicate::{duplicate_all, duplicate_opt, Duplicate};
use crate::events::Outcome;
use crate::gateway::audit::{fresh_builder, AuditEntryBuilder, AuditEntryBuilderView};
use crate::gateway::auth::{
    hash_password, hashable, made_of, opens, validate_api_key, verify_password, AuthHandler,
    AuthResult, AuthResultView, RegisterRequest, TokenRequest, TokenRequestView, UserListResponse, UserProfileResponse,
    UserProfileResponseView,
};
use crate::gateway::jwt::{
    claims_json, claims_of, claims_read_back, issued_for, token_error_text, token_outcome,
    with_revoked, Claims, ClaimsView, JwtService, TokenError,
};
use crate::gateway::reply::{
    bare_reply, error_reply, error_view, ok_reply, Reply, ReplyView,
};
use crate::json::{text_array, text_or_null, Json, JsonView};
use crate::outside::{json_of_bytes, jwt_claims, read_as};
use crate::text::{cat2, cat3, own, same, view_opt, views};
use crate::wire::{as_record, optional_text_at, read_optional_text_at, record};
use vstd::prelude::*;

verus! {

/// A reply, and the record of it where there is one.
pub struct Audited {
    pub reply: Reply,
    pub audit: Option<AuditEntryBuilder>,
}

/// The mathematical content of a [`Audited`].
pub struct AuditedView {
    pub reply: ReplyView,
    pub audit: Option<AuditEntryBuilderView>,
}

impl View for Audited {
    type V = AuditedView;

    open spec fn view(&self) -> AuditedView {
        AuditedView {
            reply: self.reply@,
            audit: view_opt(self.audit),
        }
    }
}

/// A user as the brain knows it.
pub struct UserRecord {
    pub user_id: String,
    pub username: String,
    pub email: Option<String>,
    pub display_name: Option<String>,
    pub role: String,
    pub status: String,
    pub password_hash: String,
    pub scopes: Vec<String>,
    pub created_at: String,
}

/// The mathematical content of a [`UserRecord`].
pub struct UserRecordView {
    pub user_id: Seq<char>,
    pub username: Seq<char>,
    pub email: Option<Seq<char>>,
    pub display_name: Option<Seq<char>>,
    pub role: Seq<char>,
    pub status: Seq<char>,
    pub password_hash: Seq<char>,
    pub scopes: Seq<Seq<char>>,
    pub created_at: Seq<char>,
}

impl View for UserRecord {
    type V = UserRecordView;

    open spec fn view(&self) -> UserRecordView {
        UserRecordView {
            user_id: self.user_id@,
            username: self.username@,
            email: view_opt(self.email),
            display_name: view_opt(self.display_name),
            role: self.role@,
            status: self.status@,
            password_hash: self.password_hash@,
            scopes: views(self.scopes@),
            created_at: self.created_at@,
        }
    }
}

impl Duplicate for UserRecord {
    fn copy(&self) -> (r: UserRecord) {
        UserRecord {
            user_id: self.user_id.clone(),
            username: self.username.clone(),
            email: duplicate_opt(&self.email),
            display_name: duplicate_opt(&self.display_name),
            role: self.role.clone(),
            status: self.status.clone(),
            password_hash: self.password_hash.clone(),
            scopes: duplicate_all(&self.scopes),
            created_at: self.created_at.clone(),
        }
    }
}

/// A user to create.
pub struct UserCreateRequest {
    pub username: String,
    pub password_hash: String,
    pub email: Option<String>,
    pub display_name: Option<String>,
    pub role: String,
}

/// The mathematical content of a [`UserCreateRequest`].
pub struct UserCreateRequestView {
    pub username: Seq<char>,
    pub password_hash: Seq<char>,
    pub email: Option<Seq<char>>,
    pub display_name: Option<Seq<char>>,
    pub role: Seq<char>,
}

impl View for UserCreateRequest {
    type V = UserCreateRequestView;

    open spec fn view(&self) -> UserCreateRequestView {
        UserCreateRequestView {
            username: self.username@,
            password_hash: self.password_hash@,
            email: view_opt(self.email),
            display_name: view_opt(self.display_name),
            role: self.role@,
        }
    }
}

/// Whether a user was created.
pub struct UserCreateResponse {
    pub created: bool,
    pub user_id: String,
    pub username: String,
    pub role: String,
    pub error: Option<String>,
}

/// The mathematical content of a [`UserCreateResponse`].
pub struct UserCreateResponseView {
    pub created: bool,
    pub user_id: Seq<char>,
    pub username: Seq<char>,
    pub role: Seq<char>,
    pub error: Option<Seq<char>>,
}

impl View for UserCreateResponse {
    type V = UserCreateResponseView;

    open spec fn view(&self) -> UserCreateResponseView {
        UserCreateResponseView {
            created: self.created,
            user_id: self.user_id@,
            username: self.username@,
            role: self.role@,
            error: view_opt(self.error),
        }
    }
}

/// What to change of a user.
pub struct UserUpdateRequest {
    pub user_id: String,
    pub role: Option<String>,
    pub email: Option<String>,
    pub display_name: Option<String>,
    pub password_hash: Option<String>,
}

/// The mathematical content of a [`UserUpdateRequest`].
pub struct UserUpdateRequestView {
    pub user_id: Seq<char>,
    pub role: Option<Seq<char>>,
    pub email: Option<Seq<char>>,
    pub display_name: Option<Seq<char>>,
    pub password_hash: Option<Seq<char>>,
}

impl View for UserUpdateRequest {
    type V = UserUpdateRequestView;

    open spec fn view(&self) -> UserUpdateRequestView {
        UserUpdateRequestView {
            user_id: self.user_id@,
            role: view_opt(self.role),
            email: view_opt(self.email),
            display_name: view_opt(self.display_name),
            password_hash: view_opt(self.password_hash),
        }
    }
}

/// Whether a user was changed.
pub struct UserUpdateResponse {
    pub success: bool,
    pub error: Option<String>,
}

/// The mathematical content of a [`UserUpdateResponse`].
pub struct UserUpdateResponseView {
    pub success: bool,
    pub error: Option<Seq<char>>,
}

impl View for UserUpdateResponse {
    type V = UserUpdateResponseView;

    open spec fn view(&self) -> UserUpdateResponseView {
        UserUpdateResponseView {
            success: self.success,
            error: view_opt(self.error),
        }
    }
}

/// A reply without a record.
pub open spec fn unrecorded(reply: ReplyView) -> AuditedView {
    AuditedView { reply, audit: None }
}

/// A reply without a record.
fn plain(reply: Reply) -> (r: Audited)
    ensures
        r@ == unrecorded(reply@),
{
    Audited { reply, audit: None }
}

// ---------------------------------------------------------------------------
// Tokens
// ---------------------------------------------------------------------------

/// The record of something that happened at the token endpoint.
pub open spec fn token_audit(action: Seq<char>, subject: Seq<char>, status: u16) -> AuditEntryBuilderView {
    AuditEntryBuilderView {
        method: "POST"@,
        path: "/api/v1/auth/token"@,
        status,
        ..fresh_builder(action, subject, "auth_token"@)
    }
}

/// The record of something that happened at the token endpoint.
fn token_entry(action: &str, subject: &str, status: u16) -> (r: AuditEntryBuilder)
    ensures
        r@ == token_audit(action@, subject@, status),
{
    AuditEntryBuilder::new(action, subject, "auth_token").method("POST").path(
        "/api/v1/auth/token",
    ).status(status)
}

/// The reply that brings a token. A missing user is left out.
pub open spec fn token_reply(token: Seq<char>, expires_in: u64, user_id: Option<Seq<char>>) -> ReplyView {
    let base = JsonView::object().put("token"@, JsonView::Text(token)).put(
        "expires_in"@,
        JsonView::Int(expires_in as int),
    );
    ReplyView {
        status: 200,
        body: Some(
            match user_id {
                Some(u) => base.put("user_id"@, JsonView::Text(u)),
                None => base,
            },
        ),
    }
}

/// The reply once issuing a token was tried.
pub open spec fn issue_outcome(
    token: Result<Seq<char>, Seq<char>>,
    expires_in: u64,
    user_id: Option<Seq<char>>,
    audit: AuditEntryBuilderView,
) -> AuditedView {
    match token {
        Ok(t) => AuditedView {
            reply: token_reply(t, expires_in, user_id),
            audit: Some(audit),
        },
        Err(e) => unrecorded(error_view(500, "token generation failed: "@ + e)),
    }
}

/// The reply once issuing a token was tried.
pub fn finish_issue(
    token: Result<String, String>,
    expires_in: u64,
    user_id: Option<String>,
    audit: AuditEntryBuilder,
) -> (r: Audited)
    ensures
        r@ == issue_outcome(
            match token {
                Ok(t) => Ok(t@),
                Err(e) => Err(e@),
            },
            expires_in,
            view_opt(user_id),
            audit@,
        ),
{
    match token {
        Ok(t) => {
            let base = Json::object().put("token", Json::text(&t)).put(
                "expires_in",
                Json::Unsigned(expires_in),
            );
            let body = match &user_id {
                Some(u) => base.put("user_id", Json::text(u)),
                None => base,
            };
            Audited { reply: ok_reply(body), audit: Some(audit) }
        },
        Err(e) => plain(error_reply(500, &cat2("token generation failed: ", &e))),
    }
}

/// A reply that brings a token for a subject, signed under a secret.
pub open spec fn brings_token(
    r: AuditedView,
    secret: Seq<char>,
    ttl: u64,
    subject: Seq<char>,
    role: Seq<char>,
    scopes: Seq<Seq<char>>,
    user_id: Option<Seq<char>>,
    audit: AuditEntryBuilderView,
) -> bool {
    exists|t: Seq<char>, c: ClaimsView|
        #[trigger] issued_for(c, subject, role, scopes, user_id, ttl) && jwt_claims(t, secret)
            == Some(claims_json(c)) && r == #[trigger] issue_outcome(Ok(t), ttl, user_id, audit)
}

/// Issues a token and makes the reply.
fn issue(
    service: &JwtService,
    subject: &str,
    role: &str,
    scopes: Vec<String>,
    user_id: Option<String>,
    audit: AuditEntryBuilder,
) -> (r: Audited)
    requires
        service.wf(),
    ensures
        brings_token(
            r@,
            service.key(),
            service.ttl(),
            subject@,
            role@,
            views(scopes@),
            view_opt(user_id),
            audit@,
        ),
{
    let token = service.generate_token(subject, role, scopes, duplicate_opt(&user_id));
    let ghost g = token;
    let r = finish_issue(token, service.ttl_secs(), user_id, audit);
    proof {
        let t = g->Ok_0;
        let c = choose|c: ClaimsView|
            #[trigger] issued_for(
                c,
                subject@,
                role@,
                views(scopes@),
                view_opt(user_id),
                service.ttl(),
            ) && jwt_claims(t@, service.key()) == Some(claims_json(c));
        assert(issued_for(c, subject@, role@, views(scopes@), view_opt(user_id), service.ttl()));
        assert(r@ == issue_outcome(Ok(t@), service.ttl(), view_opt(user_id), audit@));
    }
    r
}

/// What a request for a token leads to.
pub enum TokenStep {
    Done(Audited),
    /// The user of this name is to be looked up.
    Lookup(String),
}

/// What a request for a token is, given whether tokens are configured and what the
/// API key is.
pub enum TokenCase {
    Unconfigured,
    ByPassword,
    BadKey,
    ByKey,
    Neither,
}

/// Sorts a request for a token: a name and a password come before an API key.
pub open spec fn token_case(configured: bool, api_key: Seq<char>, req: TokenRequestView) -> TokenCase {
    if !configured {
        TokenCase::Unconfigured
    } else if req.username is Some && req.password is Some {
        TokenCase::ByPassword
    } else if req.api_key is Some {
        if req.api_key == Some(api_key) {
            TokenCase::ByKey
        } else {
            TokenCase::BadKey
        }
    } else {
        TokenCase::Neither
    }
}

/// The scopes of a token that is asked for with the API key.
pub open spec fn key_scopes(req: TokenRequestView) -> Seq<Seq<char>> {
    req.scopes.unwrap_or(seq!["scope_root"@])
}

/// Starts on a request for a token.
pub fn begin_token(handler: &AuthHandler, req: &TokenRequest) -> (r: TokenStep)
    requires
        handler.wf(),
    ensures
        match token_case(handler.jwt_service is Some, handler.api_key@, req@) {
            TokenCase::Unconfigured => r matches TokenStep::Done(a) && a@ == unrecorded(
                error_view(400, "JWT service not configured"@),
            ),
            TokenCase::ByPassword => r matches TokenStep::Lookup(name) && Some(name@)
                == req@.username,
            TokenCase::BadKey => r matches TokenStep::Done(a) && a@ == (AuditedView {
                reply: error_view(401, "invalid api_key"@),
                audit: Some(token_audit("auth.token_failed"@, "unknown"@, 401)),
            }),
            TokenCase::ByKey => r matches TokenStep::Done(a) && brings_token(
                a@,
                handler.jwt_service->0.key(),
                handler.jwt_service->0.ttl(),
                req@.subject.unwrap_or("api-user"@),
                req@.role.unwrap_or("admin"@),
                key_scopes(req@),
                None,
                token_audit("auth.token_issued"@, req@.subject.unwrap_or("api-user"@), 200),
            ),
            TokenCase::Neither => r matches TokenStep::Done(a) && a@ == unrecorded(
                error_view(400, "provide either api_key or username+password"@),
            ),
        },
{
    let service = match &handler.jwt_service {
        Some(s) => s,
        None => {
            return TokenStep::Done(plain(error_reply(400, "JWT service not configured")));
        },
    };
    match (&req.username, &req.password) {
        (Some(name), Some(_)) => {
            return TokenStep::Lookup(name.clone());
        },
        _ => {},
    }
    match &req.api_key {
        Some(key) => {
            if !validate_api_key(key, &handler.api_key) {
                return TokenStep::Done(
                    Audited {
                        reply: error_reply(401, "invalid api_key"),
                        audit: Some(token_entry("auth.token_failed", "unknown", 401)),
                    },
                );
            }
            let subject = match &req.subject {
                Some(s) => s.clone(),
                None => own("api-user"),
            };
            let role = match &req.role {
                Some(s) => s.clone(),
                None => own("admin"),
            };
            let scopes = match &req.scopes {
                Some(s) => duplicate_all(s),
                None => {
                    let root = vec![own("scope_root")];
                    assert(views(root@) =~= seq!["scope_root"@]);
                    root
                },
            };
            let audit = token_entry("auth.token_issued", &subject, 200);
            TokenStep::Done(issue(service, &subject, &role, scopes, None, audit))
        },
        None => TokenStep::Done(
            plain(error_reply(400, "provide either api_key or username+password")),
        ),
    }
}

/// What became of a login.
pub enum LoginCase {
    NoUser,
    Inactive,
    WrongPassword,
    Welcome,
}

/// Sorts a login: the user must exist, be active and know the password.
pub open spec fn login_case(user: Option<UserRecordView>, password: Seq<char>) -> LoginCase {
    match user {
        None => LoginCase::NoUser,
        Some(u) => if u.status != "active"@ {
            LoginCase::Inactive
        } else if !opens(password, u.password_hash) {
            LoginCase::WrongPassword
        } else {
            LoginCase::Welcome
        },
    }
}

/// Finishes a request for a token by name and password, once the user was looked
/// up.
pub fn finish_login(
    service: &JwtService,
    username: &str,
    password: &str,
    user: &Option<UserRecord>,
) -> (r: Audited)
    requires
        service.wf(),
    ensures
        match login_case(view_opt(*user), password@) {
            LoginCase::NoUser => r@ == (AuditedView {
                reply: error_view(401, "invalid credentials"@),
                audit: Some(
                    AuditEntryBuilderView {
                        details: Some("user not found"@),
                        ..token_audit("auth.login_failed"@, username@, 401)
                    },
                ),
            }),
            LoginCase::Inactive => r@ == unrecorded(error_view(403, "account is not active"@)),
            LoginCase::WrongPassword => r@ == (AuditedView {
                reply: error_view(401, "invalid credentials"@),
                audit: Some(
                    AuditEntryBuilderView {
                        details: Some("invalid password"@),
                        user_id: Some(user->0@.user_id),
                        ..token_audit("auth.login_failed"@, username@, 401)
                    },
                ),
            }),
            LoginCase::Welcome => brings_token(
                r@,
                service.key(),
                service.ttl(),
                username@,
                user->0@.role,
                user->0@.scopes,
                Some(user->0@.user_id),
                AuditEntryBuilderView {
                    user_id: Some(user->0@.user_id),
                    ..token_audit("auth.login"@, username@, 200)
                },
            ),
        },
{
    let u = match user {
        Some(u) => u,
        None => {
            return Audited {
                reply: error_reply(401, "invalid credentials"),
                audit: Some(
                    token_entry("auth.login_failed", username, 401).details("user not found"),
                ),
            };
        },
    };
    if !same(&u.status, "active") {
        return plain(error_reply(403, "account is not active"));
    }
    if !verify_password(password, &u.password_hash) {
        return Audited {
            reply: error_reply(401, "invalid credentials"),
            audit: Some(
                token_entry("auth.login_failed", username, 401).details(
                    "invalid password",
                ).user_id(Some(u.user_id.clone())),
            ),
        };
    }
    let audit = token_entry("auth.login", username, 200).user_id(Some(u.user_id.clone()));
    issue(
        service,
        username,
        &u.role,
        duplicate_all(&u.scopes),
        Some(u.user_id.clone()),
        audit,
    )
}

// ---------------------------------------------------------------------------
// Registration
// ---------------------------------------------------------------------------

/// The least number of characters of a password.
pub const MIN_PASSWORD_CHARS: usize = 12;

/// A password is long enough.
pub open spec fn long_enough(password: Seq<char>) -> bool {
    password.len() >= MIN_PASSWORD_CHARS
}

/// Starts on a registration: the password must be long enough, and is hashed. New
/// users are regular users.
pub fn begin_register(req: &RegisterRequest) -> (r: Result<UserCreateRequest, Reply>)
    ensures
        match r {
            Ok(q) => long_enough(req@.password) && q@.username == req@.username && q@.email
                == req@.email && q@.display_name == req@.display_name && q@.role == "user"@
                && made_of(q@.password_hash, req@.password),
            Err(e) => if long_enough(req@.password) {
                !hashable(req@.password) && e@ == error_view(
                    500,
                    "password hashing failed: "@ + "invalid password"@,
                )
            } else {
                e@ == error_view(400, "password must be at least 12 characters"@)
            },
        },
{
    if req.password.as_str().unicode_len() < MIN_PASSWORD_CHARS {
        return Err(error_reply(400, "password must be at least 12 characters"));
    }
    match hash_password(&req.password) {
        Ok(password_hash) => Ok(
            UserCreateRequest {
                username: req.username.clone(),
                password_hash,
                email: duplicate_opt(&req.email),
                display_name: duplicate_opt(&req.display_name),
                role: own("user"),
            },
        ),
        Err(e) => Err(error_reply(500, &cat2("password hashing failed: ", &e.message))),
    }
}

/// The reply to a registration.
pub open spec fn registered(username: Seq<char>, outcome: Outcome<UserCreateResponse>) -> AuditedView {
    match outcome {
        Outcome::Answer(a) => if a@.created {
            AuditedView {
                reply: ReplyView {
                    status: 201,
                    body: Some(
                        JsonView::object().put("user_id"@, JsonView::Text(a@.user_id)).put(
                            "username"@,
                            JsonView::Text(a@.username),
                        ).put("role"@, JsonView::Text(a@.role)),
                    ),
                },
                audit: Some(
                    AuditEntryBuilderView {
                        method: "POST"@,
                        path: "/api/v1/auth/register"@,
                        status: 201,
                        user_id: Some(a@.user_id),
                        ..fresh_builder("user.registered"@, username, "auth_register"@)
                    },
                ),
            }
        } else {
            unrecorded(error_view(409, a@.error.unwrap_or("registration failed"@)))
        },
        Outcome::Failed(e) => unrecorded(error_view(500, "brain request failed: "@ + e@)),
        Outcome::TimedOut => unrecorded(error_view(504, "request timed out"@)),
    }
}

/// The reply to a registration.
pub fn finish_register(username: &str, outcome: Outcome<UserCreateResponse>) -> (r: Audited)
    ensures
        r@ == registered(username@, outcome),
{
    match outcome {
        Outcome::Answer(a) => if a.created {
            let body = Json::object().put("user_id", Json::text(&a.user_id)).put(
                "username",
                Json::text(&a.username),
            ).put("role", Json::text(&a.role));
            let audit = AuditEntryBuilder::new("user.registered", username, "auth_register").method(
                "POST",
            ).path("/api/v1/auth/register").status(201).user_id(Some(a.user_id));
            Audited { reply: Reply { status: 201, body: Some(body) }, audit: Some(audit) }
        } else {
            let error = match a.error {
                Some(e) => e,
                None => own("registration failed"),
            };
            plain(error_reply(409, &error))
        },
        Outcome::Failed(e) => plain(error_reply(500, &cat2("brain request failed: ", &e))),
        Outcome::TimedOut => plain(error_reply(504, "request timed out")),
    }
}

// ---------------------------------------------------------------------------
// Revocation
// ---------------------------------------------------------------------------

/// The bytes that a request body may have.
pub const BODY_LIMIT: usize = 16384;

/// The refusal of a request body: it is too long, or does not state what it must.
pub open spec fn bad_body(body: Seq<u8>) -> ReplyView {
    if body.len() > BODY_LIMIT {
        error_view(400, "invalid body"@)
    } else {
        error_view(400, "invalid request body"@)
    }
}

/// The document of a request body that is not too long.
pub open spec fn body_document(body: Seq<u8>) -> Result<JsonView, Seq<char>> {
    if body.len() > BODY_LIMIT {
        Err("invalid body"@)
    } else {
        json_of_bytes(body)
    }
}

/// The document of a request body that is not too long; `None` otherwise.
pub fn read_body(body: &[u8]) -> (r: Option<Json>)
    ensures
        match r {
            Some(j) => body_document(body@) == read_as(j@),
            None => body_document(body@) is Err,
        },
{
    if body.len() > BODY_LIMIT {
        return None;
    }
    Json::parse_bytes(body).ok()
}

/// The refusal of a request body.
fn refused_body(body: &[u8]) -> (r: Reply)
    ensures
        r@ == bad_body(body@),
{
    if body.len() > BODY_LIMIT {
        error_reply(400, "invalid body")
    } else {
        error_reply(400, "invalid request body")
    }
}

/// The string in the one field of a request body.
pub open spec fn body_text(body: Result<JsonView, Seq<char>>, key: Seq<char>) -> Option<Seq<char>> {
    match body {
        Ok(j) => record(j, seq![key], 1).text_at(key),
        Err(_) => None,
    }
}

/// Reads a string from the one field of a request body.
pub fn read_body_text(body: &[u8], key: &'static str) -> (r: Result<String, Reply>)
    ensures
        match (r, body_text(body_document(body@), key@)) {
            (Ok(s), Some(t)) => s@ == t,
            (Err(e), None) => e@ == bad_body(body@),
            _ => false,
        },
{
    match read_body(body) {
        Some(j) => {
            let names: Vec<&'static str> = vec![key];
            assert(views(names@) =~= seq![key@]);
            let spread = as_record(&j, &names, 1);
            let doc = match &spread {
                Some(x) => x,
                None => &j,
            };
            match doc.text_at(key) {
                Some(s) => Ok(s),
                None => Err(refused_body(body)),
            }
        },
        None => Err(refused_body(body)),
    }
}

/// Somebody may revoke a token: an administrator any, a user their own.
pub open spec fn may_revoke(auth: Option<AuthResultView>, claims: ClaimsView) -> bool {
    match auth {
        Some(a) => a.role == "admin"@ || a.user_id == claims.user_id,
        None => true,
    }
}

/// The record of a revocation.
pub open spec fn revoke_audit(c: ClaimsView) -> AuditEntryBuilderView {
    AuditEntryBuilderView {
        method: "POST"@,
        path: "/api/v1/auth/revoke"@,
        status: 200,
        user_id: c.user_id,
        ..fresh_builder("auth.token_revoked"@, c.sub, "auth_revoke"@)
    }
}

/// The reply to a revocation, given what validating the token gave.
pub open spec fn revocation(
    auth: Option<AuthResultView>,
    validated: Result<ClaimsView, Seq<char>>,
) -> AuditedView {
    match validated {
        Err(e) => unrecorded(error_view(400, "invalid token: "@ + e)),
        Ok(c) => if may_revoke(auth, c) {
            AuditedView {
                reply: ReplyView {
                    status: 200,
                    body: Some(JsonView::object().put("revoked"@, JsonView::Bool(true))),
                },
                audit: Some(revoke_audit(c)),
            }
        } else {
            unrecorded(error_view(403, "cannot revoke another user's token"@))
        },
    }
}

/// Whether two optional texts are the same.
fn same_texts(a: &Option<String>, b: &Option<String>) -> (r: bool)
    ensures
        r == (view_opt(*a) == view_opt(*b)),
{
    match (a, b) {
        (Some(x), Some(y)) => same(x, y),
        (None, None) => true,
        _ => false,
    }
}

/// Revokes a token, given what validating it gave.
pub fn revoke_claims(
    service: &mut JwtService,
    auth: &Option<AuthResult>,
    validated: Result<Claims, TokenError>,
) -> (r: Audited)
    requires
        old(service).wf(),
    ensures
        final(service).wf(),
        final(service).key() == old(service).key(),
        final(service).ttl() == old(service).ttl(),
        r@ == revocation(
            view_opt(*auth),
            match validated {
                Ok(c) => Ok(c@),
                Err(e) => Err(token_error_text(e)),
            },
        ),
        match validated {
            Ok(c) => if may_revoke(view_opt(*auth), c@) {
                final(service).revocations() == with_revoked(old(service).revocations(), c@.jti)
            } else {
                final(service).revocations() == old(service).revocations()
            },
            Err(_) => final(service).revocations() == old(service).revocations(),
        },
{
    match validated {
        Err(e) => plain(error_reply(400, &cat2("invalid token: ", &e.message()))),
        Ok(c) => {
            let allowed = match auth {
                Some(a) => a.is_admin() || same_texts(&a.user_id, &c.user_id),
                None => true,
            };
            if !allowed {
                return plain(error_reply(403, "cannot revoke another user's token"));
            }
            service.revoke_token(&c.jti);
            let audit = AuditEntryBuilder::new("auth.token_revoked", &c.sub, "auth_revoke").method(
                "POST",
            ).path("/api/v1/auth/revoke").status(200).user_id(c.user_id);
            Audited {
                reply: ok_reply(Json::object().put("revoked", Json::Bool(true))),
                audit: Some(audit),
            }
        },
    }
}

/// Revokes a token. What is accepted was a token of this service.
pub fn revoke_token(handler: &mut AuthHandler, auth: &Option<AuthResult>, token: &str) -> (r:
    Audited)
    requires
        old(handler).wf(),
    ensures
        final(handler).wf(),
        final(handler).api_key == old(handler).api_key,
        match old(handler).jwt_service {
            None => final(handler).jwt_service is None && r@ == unrecorded(
                error_view(400, "JWT service not configured"@),
            ),
            Some(s) => final(handler).jwt_service matches Some(t) && t.key() == s.key() && t.ttl()
                == s.ttl() && exists|
                validated: Result<ClaimsView, Seq<char>>,
            |
                {
                    &&& r@ == #[trigger] revocation(view_opt(*auth), validated)
                    &&& s.may_give(token@, validated)
                    &&& if validated matches Ok(c) && may_revoke(view_opt(*auth), c) {
                        t.revocations() == with_revoked(s.revocations(), validated->Ok_0.jti)
                    } else {
                        t.revocations() == s.revocations()
                    }
                },
        },
{
    match &mut handler.jwt_service {
        None => plain(error_reply(400, "JWT service not configured")),
        Some(service) => {
            let validated = service.validate_token(token);
            let ghost o = token_outcome(validated);
            let r = revoke_claims(service, auth, validated);
            assert(r@ == revocation(view_opt(*auth), o));
            r
        },
    }
}

// ---------------------------------------------------------------------------
// Profiles and users
// ---------------------------------------------------------------------------

/// What a request of a handler leads to.
pub enum UserStep<T> {
    Done(Reply),
    /// A request to the brain is to be made.
    Ask(T),
}

/// The profile of a user.
pub open spec fn profile_json(u: UserRecordView) -> JsonView {
    JsonView::object().put("user_id"@, JsonView::Text(u.user_id)).put(
        "username"@,
        JsonView::Text(u.username),
    ).put("email"@, text_or_null(u.email)).put("display_name"@, text_or_null(u.display_name)).put(
        "role"@,
        JsonView::Text(u.role),
    ).put("created_at"@, JsonView::Text(u.created_at))
}

/// The profile of a user.
pub fn profile_document(u: &UserRecord) -> (r: Json)
    ensures
        r@ == profile_json(u@),
{
    Json::object().put("user_id", Json::text(&u.user_id)).put(
        "username",
        Json::text(&u.username),
    ).put("email", Json::opt(&u.email)).put("display_name", Json::opt(&u.display_name)).put(
        "role",
        Json::text(&u.role),
    ).put("created_at", Json::text(&u.created_at))
}

/// Whoever asks for their own profile: a user is looked up by id; the holder of
/// the API key is shown what is known.
pub fn get_my_profile(auth: &Option<AuthResult>) -> (r: UserStep<String>)
    ensures
        match *auth {
            None => r matches UserStep::Done(x) && x@ == (ReplyView { status: 401, body: None }),
            Some(a) => match a@.user_id {
                Some(id) => r matches UserStep::Ask(x) && x@ == id,
                None => r matches UserStep::Done(x) && x@ == (ReplyView {
                    status: 200,
                    body: Some(
                        JsonView::object().put("subject"@, JsonView::Text(a@.subject)).put(
                            "role"@,
                            JsonView::Text(a@.role),
                        ).put("scopes"@, text_array(a@.scopes)).put(
                            "auth_type"@,
                            JsonView::Text("api_key"@),
                        ),
                    ),
                }),
            },
        },
{
    match auth {
        None => UserStep::Done(bare_reply(401)),
        Some(a) => match &a.user_id {
            Some(id) => UserStep::Ask(id.clone()),
            None => UserStep::Done(
                ok_reply(
                    Json::object().put("subject", Json::text(&a.subject)).put(
                        "role",
                        Json::text(&a.role),
                    ).put("scopes", Json::texts(&a.scopes)).put(
                        "auth_type",
                        Json::text("api_key"),
                    ),
                ),
            ),
        },
    }
}

/// The reply that shows a user.
pub fn profile_reply(user: &Option<UserRecord>) -> (r: Reply)
    ensures
        r@ == match *user {
            Some(u) => ReplyView { status: 200, body: Some(profile_json(u@)) },
            None => error_view(404, "user not found"@),
        },
{
    match user {
        Some(u) => ok_reply(profile_document(u)),
        None => error_reply(404, "user not found"),
    }
}

/// What a user wants to change of their profile.
pub struct ProfileUpdate {
    pub email: Option<String>,
    pub display_name: Option<String>,
    pub password: Option<String>,
}

/// What a request body states to change of a profile.
pub open spec fn profile_update_of(body: Result<JsonView, Seq<char>>) -> Option<
    (Option<Seq<char>>, Option<Seq<char>>, Option<Seq<char>>),
> {
    match body {
        Ok(j) => {
            let j = record(j, seq!["email"@, "display_name"@, "password"@], 3);
            if j is Object {
                match (
                    optional_text_at(j, "email"@),
                    optional_text_at(j, "display_name"@),
                    optional_text_at(j, "password"@),
                ) {
                    (Some(e), Some(d), Some(p)) => Some((e, d, p)),
                    _ => None,
                }
            } else {
                None
            }
        },
        Err(_) => None,
    }
}

/// Reads what a request body states to change of a profile.
pub fn read_profile_update(bytes: &[u8]) -> (r: Result<ProfileUpdate, Reply>)
    ensures
        match r {
            Ok(u) => profile_update_of(body_document(bytes@)) == Some(
                (view_opt(u.email), view_opt(u.display_name), view_opt(u.password)),
            ),
            Err(e) => profile_update_of(body_document(bytes@)) is None && e@ == bad_body(bytes@),
        },
{
    match read_body(bytes) {
        Some(body) => {
            let names: Vec<&'static str> = vec!["email", "display_name", "password"];
            assert(views(names@) =~= seq!["email"@, "display_name"@, "password"@]);
            let spread = as_record(&body, &names, 3);
            let j = match &spread {
                Some(x) => x,
                None => &body,
            };
            match j {
                Json::Object(_) => match (
                    read_optional_text_at(j, "email"),
                    read_optional_text_at(j, "display_name"),
                    read_optional_text_at(j, "password"),
                ) {
                    (Some(email), Some(display_name), Some(password)) => Ok(
                        ProfileUpdate { email, display_name, password },
                    ),
                    _ => Err(refused_body(bytes)),
                },
                _ => Err(refused_body(bytes)),
            }
        },
        None => Err(refused_body(bytes)),
    }
}

/// A user changes their own profile: not the role, and the password only to one
/// that is long enough. Where a new password cannot be hashed, the hash is empty,
/// so that no password matches it.
pub fn update_my_profile(auth: &Option<AuthResult>, update: Result<ProfileUpdate, Reply>) -> (r:
    UserStep<UserUpdateRequest>)
    ensures
        match *auth {
            None => r matches UserStep::Done(x) && x@ == (ReplyView { status: 401, body: None }),
            Some(a) => match a@.user_id {
                None => r matches UserStep::Done(x) && x@ == error_view(
                    400,
                    "API key users cannot update profile"@,
                ),
                Some(id) => match update {
                    Err(e) => r matches UserStep::Done(x) && x@ == e@,
                    Ok(u) => if u.password matches Some(p) && !long_enough(p@) {
                        r matches UserStep::Done(x) && x@ == error_view(
                            400,
                            "password must be at least 12 characters"@,
                        )
                    } else {
                        r matches UserStep::Ask(q) && q@.user_id == id && q@.role is None
                            && q@.email == view_opt(u.email) && q@.display_name == view_opt(
                            u.display_name,
                        ) && match u.password {
                            Some(p) => q@.password_hash matches Some(h) && if hashable(p@) {
                                made_of(h, p@)
                            } else {
                                h.len() == 0
                            },
                            None => q@.password_hash is None,
                        }
                    },
                },
            },
        },
{
    let a = match auth {
        Some(a) => a,
        None => {
            return UserStep::Done(bare_reply(401));
        },
    };
    let user_id = match &a.user_id {
        Some(id) => id.clone(),
        None => {
            return UserStep::Done(error_reply(400, "API key users cannot update profile"));
        },
    };
    let u = match update {
        Ok(u) => u,
        Err(reply) => {
            return UserStep::Done(reply);
        },
    };
    let password_hash = match &u.password {
        Some(p) => {
            if p.as_str().unicode_len() < MIN_PASSWORD_CHARS {
                return UserStep::Done(error_reply(400, "password must be at least 12 characters"));
            }
            match hash_password(p) {
                Ok(h) => Some(h),
                Err(_) => Some(String::new()),
            }
        },
        None => None,
    };
    UserStep::Ask(
        UserUpdateRequest {
            user_id,
            role: None,
            email: u.email,
            display_name: u.display_name,
            password_hash,
        },
    )
}

/// The reply once changing a profile was tried.
pub fn finish_update(outcome: Option<UserUpdateResponse>) -> (r: Reply)
    ensures
        r@ == match outcome {
            Some(a) => if a@.success {
                ReplyView {
                    status: 200,
                    body: Some(JsonView::object().put("updated"@, JsonView::Bool(true))),
                }
            } else {
                error_view(500, a@.error.unwrap_or("update failed"@))
            },
            None => error_view(500, "brain request failed"@),
        },
{
    match outcome {
        Some(a) => if a.success {
            ok_reply(Json::object().put("updated", Json::Bool(true)))
        } else {
            let error = match a.error {
                Some(e) => e,
                None => own("update failed"),
            };
            error_reply(500, &error)
        },
        None => error_reply(500, "brain request failed"),
    }
}

/// Why somebody may not do what administrators may: they are unknown, or no
/// administrator.
pub open spec fn admin_refusal(auth: Option<AuthResultView>) -> Option<ReplyView> {
    match auth {
        None => Some(ReplyView { status: 401, body: None }),
        Some(a) => if a.role == "admin"@ {
            None
        } else {
            Some(error_view(403, "admin access required"@))
        },
    }
}

/// Checks that somebody is an administrator.
pub fn require_admin(auth: &Option<AuthResult>) -> (r: Option<Reply>)
    ensures
        view_opt(r) == admin_refusal(view_opt(*auth)),
{
    match auth {
        None => Some(bare_reply(401)),
        Some(a) => if a.is_admin() {
            None
        } else {
            Some(error_reply(403, "admin access required"))
        },
    }
}

/// The profile of a user, as shown to others.
pub open spec fn profile_of(u: UserRecordView) -> UserProfileResponseView {
    UserProfileResponseView {
        user_id: u.user_id,
        username: u.username,
        email: u.email,
        display_name: u.display_name,
        role: u.role,
        created_at: u.created_at,
    }
}

/// The profiles of some users.
pub fn list_users(users: &Vec<UserRecord>) -> (r: UserListResponse)
    ensures
        r@.users == Seq::new(users@.len(), |i: int| profile_of(users@[i]@)),
{
    let mut out: Vec<UserProfileResponse> = Vec::new();
    let mut i: usize = 0;
    while i < users.len()
        invariant
            i <= users@.len(),
            out@.len() == i,
            forall|k: int| 0 <= k < i ==> (#[trigger] out@[k])@ == profile_of(users@[k]@),
        decreases users@.len() - i,
    {
        let u = &users[i];
        out.push(
            UserProfileResponse {
                user_id: u.user_id.clone(),
                username: u.username.clone(),
                email: duplicate_opt(&u.email),
                display_name: duplicate_opt(&u.display_name),
                role: u.role.clone(),
                created_at: u.created_at.clone(),
            },
        );
        i = i + 1;
    }
    assert(views(out@) =~= Seq::new(users@.len(), |i: int| profile_of(users@[i]@)));
    UserListResponse { users: out }
}

/// A role that users can have.
pub open spec fn known_role(role: Seq<char>) -> bool {
    role == "admin"@ || role == "user"@ || role == "readonly"@
}

/// An administrator changes the role of a user.
pub fn update_user_role(auth: &Option<AuthResult>, user_id: &str, role: &str) -> (r: UserStep<
    UserUpdateRequest,
>)
    ensures
        match admin_refusal(view_opt(*auth)) {
            Some(x) => r matches UserStep::Done(y) && y@ == x,
            None => if known_role(role@) {
                r matches UserStep::Ask(q) && q@ == (UserUpdateRequestView {
                    user_id: user_id@,
                    role: Some(role@),
                    email: None,
                    display_name: None,
                    password_hash: None,
                })
            } else {
                r matches UserStep::Done(y) && y@ == error_view(
                    400,
                    "role must be admin, user, or readonly"@,
                )
            },
        },
{
    match require_admin(auth) {
        Some(x) => {
            return UserStep::Done(x);
        },
        None => {},
    }
    if same(role, "admin") || same(role, "user") || same(role, "readonly") {
        UserStep::Ask(
            UserUpdateRequest {
                user_id: own(user_id),
                role: Some(own(role)),
                email: None,
                display_name: None,
                password_hash: None,
            },
        )
    } else {
        UserStep::Done(error_reply(400, "role must be admin, user, or readonly"))
    }
}

/// The record of what an administrator did to a user.
pub open spec fn admin_audit(
    auth: AuthResultView,
    action: Seq<char>,
    method: Seq<char>,
    path: Seq<char>,
    user_id: Seq<char>,
) -> AuditEntryBuilderView {
    AuditEntryBuilderView {
        method,
        path,
        status: 200,
        user_id: auth.user_id,
        ..fresh_builder(action, auth.subject, user_id)
    }
}

/// The reply once changing a role was tried.
pub fn finish_role_update(auth: &AuthResult, user_id: &str, success: bool) -> (r: Audited)
    ensures
        r@ == if success {
            AuditedView {
                reply: ReplyView {
                    status: 200,
                    body: Some(JsonView::object().put("updated"@, JsonView::Bool(true))),
                },
                audit: Some(
                    admin_audit(
                        auth@,
                        "user.role_updated"@,
                        "PUT"@,
                        "/api/v1/users/"@ + user_id@ + "/role"@,
                        user_id@,
                    ),
                ),
            }
        } else {
            unrecorded(error_view(500, "update failed"@))
        },
{
    if success {
        let path = cat3("/api/v1/users/", user_id, "/role");
        let audit = AuditEntryBuilder::new("user.role_updated", &auth.subject, user_id).method(
            "PUT",
        ).path(&path).status(200).user_id(duplicate_opt(&auth.user_id));
        Audited {
            reply: ok_reply(Json::object().put("updated", Json::Bool(true))),
            audit: Some(audit),
        }
    } else {
        plain(error_reply(500, "update failed"))
    }
}

/// The reply once deleting a user was tried.
pub fn finish_delete(auth: &AuthResult, user_id: &str, success: bool) -> (r: Audited)
    ensures
        r@ == if success {
            AuditedView {
                reply: ReplyView {
                    status: 200,
                    body: Some(JsonView::object().put("deleted"@, JsonView::Bool(true))),
                },
                audit: Some(
                    admin_audit(
                        auth@,
                        "user.deleted"@,
                        "DELETE"@,
                        "/api/v1/users/"@ + user_id@,
                        user_id@,
                    ),
                ),
            }
        } else {
            unrecorded(error_view(500, "delete failed"@))
        },
{
    if success {
        let path = cat2("/api/v1/users/", user_id);
        let audit = AuditEntryBuilder::new("user.deleted", &auth.subject, user_id).method(
            "DELETE",
        ).path(&path).status(200).user_id(duplicate_opt(&auth.user_id));
        Audited {
            reply: ok_reply(Json::object().put("deleted", Json::Bool(true))),
            audit: Some(audit),
        }
    } else {
        plain(error_reply(500, "delete failed"))
    }
}

// ---------------------------------------------------------------------------
// Laws
// ---------------------------------------------------------------------------

/// Only administrators pass where administrators are required.
pub proof fn only_admins_pass(auth: Option<AuthResultView>)
    ensures
        admin_refusal(auth) is None <==> (auth matches Some(a) && a.role == "admin"@),
{
}

/// A user who is no administrator revokes no token of another user.
pub proof fn users_revoke_their_own(auth: AuthResultView, c: ClaimsView)
    requires
        auth.role != "admin"@,
        auth.user_id != c.user_id,
    ensures
        revocation(Some(auth), Ok(c)).reply.status == 403,
{
}

/// The reply with a token holds that token, how long it lasts and whose it is.
pub proof fn token_is_handed_over(
    token: Seq<char>,
    expires_in: u64,
    user_id: Option<Seq<char>>,
    audit: AuditEntryBuilderView,
    e: Seq<char>,
)
    ensures
        ({
            let r = issue_outcome(Ok(token), expires_in, user_id, audit);
            let failed = issue_outcome(Err(e), expires_in, user_id, audit);
            &&& r.reply.status == 200
            &&& r.reply.body is Some
            &&& r.reply.body->0.text_at("token"@) == Some(token)
            &&& r.reply.body->0.get("expires_in"@) == Some(JsonView::Int(expires_in as int))
            &&& user_id is Some ==> r.reply.body->0.text_at("user_id"@) == user_id
            &&& user_id is None ==> r.reply.body->0.get("user_id"@) is None
            &&& r.audit == Some(audit)
            &&& failed.reply.status == 500
            &&& failed.reply.body is Some
            &&& failed.reply.body->0.text_at("error"@) == Some("token generation failed: "@ + e)
            &&& failed.audit is None
        }),
{
    reveal_strlit("token");
    reveal_strlit("expires_in");
    reveal_strlit("user_id");
    reveal_strlit("error");
    assert("token"@.len() == 5);
    assert("expires_in"@.len() == 10);
    assert("user_id"@.len() == 7);
    assert("error"@.len() == 5);
    assert("token"@[0] != "error"@[0]);
}

/// A password wins over a key, a key counts only if it is the right one, and without a token
/// service nobody gets a token.
pub proof fn token_needs_proof(configured: bool, api_key: Seq<char>, req: TokenRequestView)
    ensures
        token_case(configured, api_key, req) is ByKey ==> configured && req.api_key == Some(
            api_key,
        ),
        token_case(configured, api_key, req) is ByPassword <==> configured && req.username is Some
            && req.password is Some,
        configured && req.api_key == Some(api_key) && (req.username is None || req.password is None)
            ==> token_case(configured, api_key, req) is ByKey,
        configured && req.api_key is Some && req.api_key != Some(api_key) && (req.username is None
            || req.password is None) ==> token_case(configured, api_key, req) is BadKey,
        !configured ==> token_case(configured, api_key, req) is Unconfigured,
        req.scopes is Some ==> key_scopes(req) == req.scopes->0,
{
}

/// Only a user that is there, is active and has the right password is let in.
pub proof fn login_needs_the_password(user: Option<UserRecordView>, password: Seq<char>)
    ensures
        login_case(user, password) is Welcome <==> user is Some && user->0.status == "active"@
            && opens(password, user->0.password_hash),
        user is None ==> login_case(user, password) is NoUser,
        user is Some && user->0.status != "active"@ ==> login_case(user, password) is Inactive,
{
}

/// A failed or granted token is recorded under who asked for it, with the status of the reply.
pub proof fn token_is_recorded(action: Seq<char>, subject: Seq<char>, status: u16)
    ensures
        token_audit(action, subject, status).action == action,
        token_audit(action, subject, status).subject == subject,
        token_audit(action, subject, status).status == status,
        token_audit(action, subject, status).path == "/api/v1/auth/token"@,
        token_audit(action, subject, status).method == "POST"@,
{
}

/// A new user is told who they are, and the registration is recorded; an old one is told why
/// there is no new account, and nothing is recorded.
pub proof fn registration_is_told(username: Seq<char>, a: UserCreateResponse, e: String)
    ensures
        ({
            let r = registered(username, Outcome::Answer(a));
            let f = registered(username, Outcome::Failed(e));
            &&& r.reply.body is Some
            &&& a@.created ==> r.reply.status == 201 && r.reply.body->0.text_at("user_id"@) == Some(
                a@.user_id,
            ) && r.reply.body->0.text_at("username"@) == Some(a@.username)
                && r.reply.body->0.text_at("role"@) == Some(a@.role)
            &&& a@.created ==> r.audit is Some && r.audit->0.user_id == Some(a@.user_id)
                && r.audit->0.subject == username && r.audit->0.status == 201
                && r.audit->0.action == "user.registered"@ && r.audit->0.method == "POST"@
                && r.audit->0.path == "/api/v1/auth/register"@
            &&& !a@.created ==> r.reply.status == 409 && r.audit is None
            &&& !a@.created && a@.error is Some ==> r.reply.body->0.text_at("error"@) == a@.error
            &&& f.reply.status == 500 && f.audit is None
            &&& f.reply.body is Some && f.reply.body->0.text_at("error"@) == Some(
                "brain request failed: "@ + e@,
            )
            &&& registered(username, Outcome::TimedOut).reply.status == 504
        }),
{
    reveal_strlit("user_id");
    reveal_strlit("username");
    reveal_strlit("role");
    reveal_strlit("error");
    assert("user_id"@.len() == 7);
    assert("username"@.len() == 8);
    assert("role"@.len() == 4);
    assert("error"@.len() == 5);
}

/// A token that may be revoked is, and that is recorded under its owner; one that may not, or
/// is no valid token, is refused and nothing is recorded.
pub proof fn revocation_is_told(auth: Option<AuthResultView>, c: ClaimsView, e: Seq<char>)
    ensures
        ({
            let r = revocation(auth, Ok(c));
            let allowed = auth is None || auth->0.role == "admin"@ || auth->0.user_id == c.user_id;
            &&& allowed ==> r.reply.status == 200 && r.reply.body is Some
                && r.reply.body->0.get("revoked"@) == Some(JsonView::Bool(true)) && r.audit is Some
                && r.audit->0.subject == c.sub && r.audit->0.user_id == c.user_id
                && r.audit->0.action == "auth.token_revoked"@ && r.audit->0.status == 200
                && r.audit->0.method == "POST"@ && r.audit->0.path == "/api/v1/auth/revoke"@
            &&& !allowed ==> r.reply.status == 403 && r.audit is None
            &&& revocation(auth, Err(e)).reply.status == 400
            &&& revocation(auth, Err(e)).audit is None
            &&& revocation(auth, Err(e)).reply.body is Some
            &&& revocation(auth, Err(e)).reply.body->0.text_at("error"@) == Some(
                "invalid token: "@ + e,
            )
        }),
{
}

/// A profile says who the user is, and keeps the password to itself.
pub proof fn profile_tells(u: UserRecordView)
    ensures
        profile_json(u).text_at("user_id"@) == Some(u.user_id),
        profile_json(u).text_at("username"@) == Some(u.username),
        optional_text_at(profile_json(u), "email"@) == Some(u.email),
        optional_text_at(profile_json(u), "display_name"@) == Some(u.display_name),
        profile_json(u).text_at("role"@) == Some(u.role),
        profile_json(u).text_at("created_at"@) == Some(u.created_at),
        profile_json(u).get("password_hash"@) is None,
        profile_of(u).user_id == u.user_id,
        profile_of(u).username == u.username,
        profile_of(u).email == u.email,
        profile_of(u).display_name == u.display_name,
        profile_of(u).role == u.role,
        profile_of(u).created_at == u.created_at,
{
    reveal_strlit("user_id");
    reveal_strlit("username");
    reveal_strlit("email");
    reveal_strlit("display_name");
    reveal_strlit("role");
    reveal_strlit("created_at");
    reveal_strlit("password_hash");
    assert("user_id"@.len() == 7);
    assert("username"@.len() == 8);
    assert("email"@.len() == 5);
    assert("display_name"@.len() == 12);
    assert("role"@.len() == 4);
    assert("created_at"@.len() == 10);
    assert("password_hash"@.len() == 13);
}

/// A profile update changes what its body names; a body in which a field is no text is none.
pub proof fn update_is_read(j: JsonView)
    requires
        j is Object,
    ensures
        match profile_update_of(Ok(j)) {
            Some((email, display_name, password)) => optional_text_at(j, "email"@) == Some(email)
                && optional_text_at(j, "display_name"@) == Some(display_name) && optional_text_at(
                j,
                "password"@,
            ) == Some(password),
            None => optional_text_at(j, "email"@) is None || optional_text_at(
                j,
                "display_name"@,
            ) is None || optional_text_at(j, "password"@) is None,
        },
        body_text(Ok(j), "role"@) == j.text_at("role"@),
{
}

/// A body that is too long is none, whatever it holds.
pub proof fn long_body_is_refused(body: Seq<u8>)
    ensures
        body.len() > BODY_LIMIT ==> body_document(body) is Err,
        body.len() <= BODY_LIMIT ==> body_document(body) == json_of_bytes(body),
        bad_body(body).status == 400,
        bad_body(body).body is Some,
        body.len() > BODY_LIMIT ==> bad_body(body).body->0.text_at("error"@) == Some(
            "invalid body"@,
        ),
        body.len() <= BODY_LIMIT ==> bad_body(body).body->0.text_at("error"@) == Some(
            "invalid request body"@,
        ),
{
}

/// What an admin does is recorded under that admin, with what it was done to.
pub proof fn admin_acts_are_recorded(
    auth: AuthResultView,
    action: Seq<char>,
    method: Seq<char>,
    path: Seq<char>,
    user_id: Seq<char>,
)
    ensures
        ({
            let r = admin_audit(auth, action, method, path, user_id);
            &&& r.action == action
            &&& r.subject == auth.subject
            &&& r.user_id == auth.user_id
            &&& r.resource == user_id
            &&& r.method == method
            &&& r.path == path
            &&& r.status == 200
        }),
{
}

/// There are three roles.
pub proof fn roles_are_known(role: Seq<char>)
    ensures
        known_role(role) <==> seq!["admin"@, "user"@, "readonly"@].contains(role),
{
    let s = seq!["admin"@, "user"@, "readonly"@];
    assert(s[0] == "admin"@ && s[1] == "user"@ && s[2] == "readonly"@);
}

/// One who is not known is asked to say who they are; one who is no admin is told so.
pub proof fn refusals_differ(auth: Option<AuthResultView>)
    ensures
        auth is None ==> admin_refusal(auth) is Some && admin_refusal(auth)->0.status == 401,
        auth is Some && auth->0.role != "admin"@ ==> admin_refusal(auth) is Some && admin_refusal(
            auth,
        )->0.status == 403,
        auth is Some && auth->0.role == "admin"@ ==> admin_refusal(auth) is None,
{
}

/// A reply that brings a token brings one whose claims name the subject, its role, its scopes
/// and its user, and that lasts as long as it says.
pub proof fn brought_token_is_genuine(
    r: AuditedView,
    secret: Seq<char>,
    ttl: u64,
    subject: Seq<char>,
    role: Seq<char>,
    scopes: Seq<Seq<char>>,
    user_id: Option<Seq<char>>,
    audit: AuditEntryBuilderView,
)
    requires
        brings_token(r, secret, ttl, subject, role, scopes, user_id, audit),
    ensures
        r.reply.status == 200,
        r.audit == Some(audit),
        r.reply.body is Some,
        r.reply.body->0.text_at("token"@) is Some,
        jwt_claims(r.reply.body->0.text_at("token"@)->0, secret) is Some,
        ({
            let c = claims_of(jwt_claims(r.reply.body->0.text_at("token"@)->0, secret)->0);
            &&& c is Some
            &&& c->0.sub == subject
            &&& c->0.role == role
            &&& c->0.scopes == scopes
            &&& c->0.user_id == user_id
            &&& c->0.exp == c->0.iat + ttl
        }),
{
    let (t, c) = choose|t: Seq<char>, c: ClaimsView|
        #[trigger] issued_for(c, subject, role, scopes, user_id, ttl) && jwt_claims(t, secret)
            == Some(claims_json(c)) && r == #[trigger] issue_outcome(Ok(t), ttl, user_id, audit);
    token_is_handed_over(t, ttl, user_id, audit, Seq::empty());
    claims_read_back(c);
}

/// A password has at least twelve characters.
pub proof fn passwords_are_long(password: Seq<char>)
    ensures
        long_enough(password) <==> password.len() >= 12,
{
}

} // verus!
