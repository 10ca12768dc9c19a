//! Authentication: API keys, tokens and passwords.
use crate::duplicate::{duplicate_all, duplicate_opt, views_opt, Duplicate};
use crate::gateway::jwt::{
    accepted_token_is_genuine, claims_of, token_outcome, Claims, ClaimsView, JwtService,
    LAST_SECOND,
};
use crate::outside::{
    argon2_verify, argon2id_hash, bytes_equal, hash_prefix, is_hash_string, jwt_claims, lanes_fit,
    password_matches, too_many_lanes_at,
};
use crate::text::{after_prefix, chars_of, own, same, starts_with, view_opt, views};
use vstd::prelude::*;
use vstd::utf8::{encode_utf8, encode_utf8_decode_utf8};

verus! {

/// Who is asking, once that is known.
pub struct AuthResult {
    pub subject: String,
    pub role: String,
    pub scopes: Vec<String>,
    /// The user, for tokens of users; none for API keys.
    pub user_id: Option<String>,
}

/// The mathematical content of a [`AuthResult`].
pub struct AuthResultView {
    pub subject: Seq<char>,
    pub role: Seq<char>,
    pub scopes: Seq<Seq<char>>,
    pub user_id: Option<Seq<char>>,
}

impl View for AuthResult {
    type V = AuthResultView;

    open spec fn view(&self) -> AuthResultView {
        AuthResultView {
            subject: self.subject@,
            role: self.role@,
            scopes: views(self.scopes@),
            user_id: view_opt(self.user_id),
        }
    }
}

impl Duplicate for AuthResult {
    fn copy(&self) -> (r: AuthResult) {
        AuthResult {
            subject: self.subject.clone(),
            role: self.role.clone(),
            scopes: duplicate_all(&self.scopes),
            user_id: duplicate_opt(&self.user_id),
        }
    }
}

/// A request for a token, by API key or by user name and password.
pub struct TokenRequest {
    pub api_key: Option<String>,
    pub username: Option<String>,
    pub password: Option<String>,
    pub subject: Option<String>,
    pub role: Option<String>,
    pub scopes: Option<Vec<String>>,
}

/// The mathematical content of a [`TokenRequest`].
pub struct TokenRequestView {
    pub api_key: Option<Seq<char>>,
    pub username: Option<Seq<char>>,
    pub password: Option<Seq<char>>,
    pub subject: Option<Seq<char>>,
    pub role: Option<Seq<char>>,
    pub scopes: Option<Seq<Seq<char>>>,
}

impl View for TokenRequest {
    type V = TokenRequestView;

    open spec fn view(&self) -> TokenRequestView {
        TokenRequestView {
            api_key: view_opt(self.api_key),
            username: view_opt(self.username),
            password: view_opt(self.password),
            subject: view_opt(self.subject),
            role: view_opt(self.role),
            scopes: views_opt(self.scopes),
        }
    }
}

/// A token that was issued.
pub struct TokenResponse {
    pub token: String,
    pub expires_in: u64,
    pub user_id: Option<String>,
}

/// The mathematical content of a [`TokenResponse`].
pub struct TokenResponseView {
    pub token: Seq<char>,
    pub expires_in: u64,
    pub user_id: Option<Seq<char>>,
}

impl View for TokenResponse {
    type V = TokenResponseView;

    open spec fn view(&self) -> TokenResponseView {
        TokenResponseView {
            token: self.token@,
            expires_in: self.expires_in,
            user_id: view_opt(self.user_id),
        }
    }
}

/// A token to revoke.
pub struct RevokeTokenRequest {
    pub token: String,
}

/// The mathematical content of a [`RevokeTokenRequest`].
pub struct RevokeTokenRequestView {
    pub token: Seq<char>,
}

impl View for RevokeTokenRequest {
    type V = RevokeTokenRequestView;

    open spec fn view(&self) -> RevokeTokenRequestView {
        RevokeTokenRequestView {
            token: self.token@,
        }
    }
}

/// A user to register.
pub struct RegisterRequest {
    pub username: String,
    pub password: String,
    pub email: Option<String>,
    pub display_name: Option<String>,
}

/// The mathematical content of a [`RegisterRequest`].
pub struct RegisterRequestView {
    pub username: Seq<char>,
    pub password: Seq<char>,
    pub email: Option<Seq<char>>,
    pub display_name: Option<Seq<char>>,
}

impl View for RegisterRequest {
    type V = RegisterRequestView;

    open spec fn view(&self) -> RegisterRequestView {
        RegisterRequestView {
            username: self.username@,
            password: self.password@,
            email: view_opt(self.email),
            display_name: view_opt(self.display_name),
        }
    }
}

/// A user that was registered.
pub struct RegisterResponse {
    pub user_id: String,
    pub username: String,
    pub role: String,
}

/// The mathematical content of a [`RegisterResponse`].
pub struct RegisterResponseView {
    pub user_id: Seq<char>,
    pub username: Seq<char>,
    pub role: Seq<char>,
}

impl View for RegisterResponse {
    type V = RegisterResponseView;

    open spec fn view(&self) -> RegisterResponseView {
        RegisterResponseView {
            user_id: self.user_id@,
            username: self.username@,
            role: self.role@,
        }
    }
}

/// A user as shown to others.
pub struct UserProfileResponse {
    pub user_id: String,
    pub username: String,
    pub email: Option<String>,
    pub display_name: Option<String>,
    pub role: String,
    pub created_at: String,
}

/// The mathematical content of a [`UserProfileResponse`].
pub struct UserProfileResponseView {
    pub user_id: Seq<char>,
    pub username: Seq<char>,
    pub email: Option<Seq<char>>,
    pub display_name: Option<Seq<char>>,
    pub role: Seq<char>,
    pub created_at: Seq<char>,
}

impl View for UserProfileResponse {
    type V = UserProfileResponseView;

    open spec fn view(&self) -> UserProfileResponseView {
        UserProfileResponseView {
            user_id: self.user_id@,
            username: self.username@,
            email: view_opt(self.email),
            display_name: view_opt(self.display_name),
            role: self.role@,
            created_at: self.created_at@,
        }
    }
}

impl Duplicate for UserProfileResponse {
    fn copy(&self) -> (r: UserProfileResponse) {
        UserProfileResponse {
            user_id: self.user_id.clone(),
            username: self.username.clone(),
            email: duplicate_opt(&self.email),
            display_name: duplicate_opt(&self.display_name),
            role: self.role.clone(),
            created_at: self.created_at.clone(),
        }
    }
}

/// A list of users.
pub struct UserListResponse {
    pub users: Vec<UserProfileResponse>,
}

/// The mathematical content of a [`UserListResponse`].
pub struct UserListResponseView {
    pub users: Seq<UserProfileResponseView>,
}

impl View for UserListResponse {
    type V = UserListResponseView;

    open spec fn view(&self) -> UserListResponseView {
        UserListResponseView {
            users: views(self.users@),
        }
    }
}

/// A new role of a user.
pub struct UpdateUserRoleRequest {
    pub role: String,
}

/// The mathematical content of a [`UpdateUserRoleRequest`].
pub struct UpdateUserRoleRequestView {
    pub role: Seq<char>,
}

impl View for UpdateUserRoleRequest {
    type V = UpdateUserRoleRequestView;

    open spec fn view(&self) -> UpdateUserRoleRequestView {
        UpdateUserRoleRequestView {
            role: self.role@,
        }
    }
}

impl AuthResult {
    /// Whether the role is that of an administrator.
    pub fn is_admin(&self) -> (r: bool)
        ensures
            r == (self@.role == "admin"@),
    {
        same(&self.role, "admin")
    }
}

/// Two texts with the same bytes are the same text.
proof fn same_bytes_same_text(a: Seq<char>, b: Seq<char>)
    requires
        encode_utf8(a) == encode_utf8(b),
    ensures
        a == b,
{
    encode_utf8_decode_utf8(a);
    encode_utf8_decode_utf8(b);
}

/// Whether an API key is the expected one. The comparison takes the same time for
/// all keys of the same length.
pub fn validate_api_key(provided: &str, expected: &str) -> (r: bool)
    ensures
        r == (provided@ == expected@),
{
    let a = provided.as_bytes();
    let b = expected.as_bytes();
    proof {
        if a@ == b@ {
            same_bytes_same_text(provided@, expected@);
        }
    }
    if a.len() != b.len() {
        return false;
    }
    bytes_equal(a, b)
}

/// Whoever holds the API key is an administrator.
pub open spec fn api_key_auth() -> AuthResultView {
    AuthResultView {
        subject: "api-key"@,
        role: "admin"@,
        scopes: seq!["scope_root"@],
        user_id: None,
    }
}

/// Whoever holds a token is whom it was issued to.
pub open spec fn token_auth(c: ClaimsView) -> AuthResultView {
    AuthResultView { subject: c.sub, role: c.role, scopes: c.scopes, user_id: c.user_id }
}

/// What follows a prefix.
pub open spec fn rest_after(s: Seq<char>, prefix: Seq<char>) -> Option<Seq<char>> {
    if starts_with(s, prefix) {
        Some(s.subrange(prefix.len() as int, s.len() as int))
    } else {
        None
    }
}

/// Who is asking: the holder of a valid token in the header, else the holder of
/// the API key as a parameter, else the holder of the API key in the header, by
/// itself or in place of a token. `bearer` is what validating the token of the
/// header gave.
pub open spec fn authenticated(
    header: Seq<char>,
    param: Option<Seq<char>>,
    api_key: Seq<char>,
    bearer: Option<ClaimsView>,
) -> Option<AuthResultView> {
    if bearer is Some {
        Some(token_auth(bearer->0))
    } else if param matches Some(k) && k.len() > 0 && k == api_key {
        Some(api_key_auth())
    } else if rest_after(header, "ApiKey "@) == Some(api_key) {
        Some(api_key_auth())
    } else if rest_after(header, "Bearer "@) == Some(api_key) && api_key.len() > 0 {
        Some(api_key_auth())
    } else {
        None
    }
}

/// The claims of a token that was accepted.
pub open spec fn bearer_of(o: Result<ClaimsView, Seq<char>>) -> Option<ClaimsView> {
    match o {
        Ok(c) => Some(c),
        Err(_) => None,
    }
}

/// Knows the API key and, where one is configured, the token service.
pub struct AuthHandler {
    pub jwt_service: Option<JwtService>,
    pub api_key: String,
}

impl AuthHandler {
    /// The token service is in order.
    pub open spec fn wf(self) -> bool {
        self.jwt_service matches Some(s) ==> s.wf()
    }

    /// A handler for an API key; with a secret, also for tokens that are valid for
    /// `jwt_ttl` seconds.
    pub fn new(api_key: String, jwt_secret: Option<String>, jwt_ttl: u64) -> (r: AuthHandler)
        ensures
            r.api_key == api_key,
            match jwt_secret {
                Some(secret) => r.jwt_service matches Some(s) && s.key() == secret@ && s.ttl()
                    == jwt_ttl && s.revocations() == Seq::<Seq<char>>::empty(),
                None => r.jwt_service is None,
            },
            jwt_ttl <= u64::MAX - LAST_SECOND ==> r.wf(),
    {
        let jwt_service = match jwt_secret {
            Some(secret) => Some(JwtService::new(&secret, jwt_ttl)),
            None => None,
        };
        AuthHandler { jwt_service, api_key }
    }

    /// The holder of the API key.
    fn api_key_result() -> (r: AuthResult)
        ensures
            r@ == api_key_auth(),
    {
        let r = AuthResult {
            subject: own("api-key"),
            role: own("admin"),
            scopes: vec![own("scope_root")],
            user_id: None,
        };
        assert(r@.scopes =~= seq!["scope_root"@]);
        r
    }

    /// Decides who is asking, given what validating the token of the header gave.
    pub fn decide(
        &self,
        auth_header: &str,
        api_key_param: &Option<String>,
        bearer: Option<Claims>,
    ) -> (r: Option<AuthResult>)
        ensures
            view_opt(r) == authenticated(
                auth_header@,
                view_opt(*api_key_param),
                self.api_key@,
                view_opt(bearer),
            ),
    {
        match bearer {
            Some(c) => {
                return Some(
                    AuthResult {
                        subject: c.sub,
                        role: c.role,
                        scopes: c.scopes,
                        user_id: c.user_id,
                    },
                );
            },
            None => {},
        }
        match api_key_param {
            Some(k) => {
                if !k.as_str().is_empty() && validate_api_key(k, &self.api_key) {
                    return Some(AuthHandler::api_key_result());
                }
            },
            None => {},
        }
        match after_prefix(auth_header, "ApiKey ") {
            Some(k) => {
                if validate_api_key(&k, &self.api_key) {
                    return Some(AuthHandler::api_key_result());
                }
            },
            None => {},
        }
        match after_prefix(auth_header, "Bearer ") {
            Some(k) => {
                if !k.as_str().is_empty() && validate_api_key(&k, &self.api_key) {
                    return Some(AuthHandler::api_key_result());
                }
            },
            None => {},
        }
        None
    }

    /// Finds out who is asking. A token counts if it was signed under the secret,
    /// states the claims of this service and was not revoked; whether it is
    /// expired rests on the clock, unless it expires after the clock's last instant.
    pub fn authenticate(&self, auth_header: &str, api_key_param: Option<String>) -> (r: Option<
        AuthResult,
    >)
        ensures
            exists|bearer: Option<ClaimsView>|
                view_opt(r) == #[trigger] authenticated(
                    auth_header@,
                    view_opt(api_key_param),
                    self.api_key@,
                    bearer,
                ) && self.may_bear(auth_header@, bearer),
    {
        let bearer = match after_prefix(auth_header, "Bearer ") {
            Some(token) => match &self.jwt_service {
                Some(service) => {
                    let outcome = service.validate_token(&token);
                    let ghost o = token_outcome(outcome);
                    proof {
                        let given = bearer_of(o);
                        assert(self.jwt_service == Some(*service));
                        assert(rest_after(auth_header@, "Bearer "@) == Some(token@));
                        assert(self.jwt_service->0.may_give(
                            rest_after(auth_header@, "Bearer "@)->0,
                            o,
                        ));
                        assert(self.may_bear(auth_header@, given));
                    }
                    match outcome {
                        Ok(c) => Some(c),
                        Err(_) => None,
                    }
                },
                None => None,
            },
            None => None,
        };
        let ghost b = view_opt(bearer);
        assert(self.may_bear(auth_header@, b));
        self.decide(auth_header, &api_key_param, bearer)
    }

    /// What validating the token of a header may give: the claims of a token that is
    /// accepted, or nothing. There is nothing without a token or without a service.
    pub open spec fn may_bear(self, header: Seq<char>, bearer: Option<ClaimsView>) -> bool {
        if rest_after(header, "Bearer "@) is Some && self.jwt_service is Some {
            exists|o: Result<ClaimsView, Seq<char>>|
                #[trigger] self.jwt_service->0.may_give(
                    rest_after(header, "Bearer "@)->0,
                    o,
                ) && bearer == bearer_of(o)
        } else {
            bearer is None
        }
    }
}

/// Without a token and without the API key nobody gets in.
pub proof fn strangers_are_refused(header: Seq<char>, param: Option<Seq<char>>, api_key: Seq<char>)
    requires
        param != Some(api_key),
        rest_after(header, "ApiKey "@) != Some(api_key),
        rest_after(header, "Bearer "@) != Some(api_key),
    ensures
        authenticated(header, param, api_key, None) is None,
{
}

/// Why a password could not be hashed.
pub struct PasswordError {
    pub message: String,
}

/// The memory that hashing a password takes, in KiB.
pub const HASH_MEMORY_KIB: u32 = 65536;

/// The iterations that hashing a password takes.
pub const HASH_ITERATIONS: u32 = 3;

/// The lanes that hashing a password takes.
pub const HASH_LANES: u32 = 4;

/// A password can be hashed: its bytes can be counted.
pub open spec fn hashable(password: Seq<char>) -> bool {
    encode_utf8(password).len() <= u32::MAX
}

/// A password matches a hash. A hash for more lanes than Argon2 can have matches
/// nothing.
pub open spec fn opens(password: Seq<char>, hash: Seq<char>) -> bool {
    lanes_fit(hash) && password_matches(password, hash)
}

/// A hash that was made of a password at the cost of this library.
pub open spec fn made_of(hash: Seq<char>, password: Seq<char>) -> bool {
    opens(password, hash) && starts_with(
        hash,
        hash_prefix(HASH_MEMORY_KIB, HASH_ITERATIONS, HASH_LANES),
    )
}

/// Hashes a password with Argon2id and a random salt. The password matches the
/// hash.
pub fn hash_password(password: &str) -> (r: Result<String, PasswordError>)
    ensures
        match r {
            Ok(h) => hashable(password@) && made_of(h@, password@),
            Err(e) => !hashable(password@) && e.message@ == "invalid password"@,
        },
{
    match argon2id_hash(password, HASH_MEMORY_KIB, HASH_ITERATIONS, HASH_LANES) {
        Ok(h) => Ok(h),
        Err(message) => Err(PasswordError { message }),
    }
}

/// Whether a hash names no more lanes than Argon2 can count.
fn has_countable_lanes(hash: &str) -> (r: bool)
    ensures
        r == lanes_fit(hash@),
{
    let chars: Vec<char> = chars_of(hash);
    let mut i: usize = 0;
    while i < chars.len()
        invariant
            chars@ == hash@,
            i <= chars.len(),
            forall|k: int| 0 <= k < i ==> !#[trigger] too_many_lanes_at(hash@, k),
        decreases chars.len() - i,
    {
        if chars.len() - i > 10 && chars[i] == 'p' && chars[i + 1] == '=' {
            let mut j: usize = i + 2;
            while j < i + 11 && '0' <= chars[j] && chars[j] <= '9'
                invariant
                    chars@ == hash@,
                    i + 2 <= j <= i + 11,
                    i + 10 < chars.len(),
                    forall|k: int|
                        i + 2 <= k < j ==> '0' <= #[trigger] hash@[k] && hash@[k] <= '9',
                decreases i + 11 - j,
            {
                j = j + 1;
            }
            if j == i + 11 {
                assert(too_many_lanes_at(hash@, i as int));
                return false;
            }
        }
        i = i + 1;
    }
    true
}

/// Whether a password matches a hash. No password matches a text that is no hash
/// string.
pub fn verify_password(password: &str, hash: &str) -> (r: bool)
    ensures
        r == opens(password@, hash@),
        !is_hash_string(hash@) ==> !r,
{
    has_countable_lanes(hash) && argon2_verify(password, hash)
}

/// A valid token lets its owner in with the role and the scopes that it grants.
pub proof fn token_grants_its_claims(
    header: Seq<char>,
    param: Option<Seq<char>>,
    api_key: Seq<char>,
    c: ClaimsView,
)
    ensures
        ({
            let r = authenticated(header, param, api_key, Some(c));
            &&& r is Some
            &&& r->0.subject == c.sub
            &&& r->0.role == c.role
            &&& r->0.scopes == c.scopes
            &&& r->0.user_id == c.user_id
        }),
{
}

/// The key lets in as an admin that is no user, by a parameter or by a header of either kind.
pub proof fn key_lets_in(header: Seq<char>, param: Option<Seq<char>>, api_key: Seq<char>)
    requires
        api_key.len() > 0,
        param == Some(api_key) || header == "ApiKey "@ + api_key || header == "Bearer "@ + api_key,
    ensures
        ({
            let r = authenticated(header, param, api_key, None);
            &&& r is Some
            &&& r->0.role == "admin"@
            &&& r->0.scopes == seq!["scope_root"@]
            &&& r->0.user_id is None
            &&& r->0.subject == "api-key"@
        }),
{
    if header == "ApiKey "@ + api_key {
        rest_is_behind("ApiKey "@, api_key);
    }
    if header == "Bearer "@ + api_key {
        rest_is_behind("Bearer "@, api_key);
    }
}

/// What stands behind a prefix is the rest.
pub proof fn rest_is_behind(prefix: Seq<char>, rest: Seq<char>)
    ensures
        rest_after(prefix + rest, prefix) == Some(rest),
{
    assert((prefix + rest).subrange(0, prefix.len() as int) =~= prefix);
    assert((prefix + rest).subrange(prefix.len() as int, (prefix + rest).len() as int) =~= rest);
}

/// A bearer is one that the token behind the header names, and that is accepted.
pub proof fn bearer_is_genuine(h: AuthHandler, header: Seq<char>, c: ClaimsView)
    requires
        h.may_bear(header, Some(c)),
    ensures
        h.jwt_service is Some,
        rest_after(header, "Bearer "@) is Some,
        jwt_claims(rest_after(header, "Bearer "@)->0, h.jwt_service->0.key()) is Some,
        claims_of(
            jwt_claims(rest_after(header, "Bearer "@)->0, h.jwt_service->0.key())->0,
        ) == Some(c),
        !h.jwt_service->0.revocations().contains(c.jti),
{
    let token = rest_after(header, "Bearer "@)->0;
    let o = choose|o: Result<ClaimsView, Seq<char>>|
        #[trigger] h.jwt_service->0.may_give(token, o) && Some(c) == bearer_of(o);
    accepted_token_is_genuine(h.jwt_service->0, token, c);
}

/// Without a token service, or without a token, nobody is a bearer.
pub proof fn no_token_no_bearer(h: AuthHandler, header: Seq<char>, bearer: Option<ClaimsView>)
    requires
        h.may_bear(header, bearer),
        h.jwt_service is None || !starts_with(header, "Bearer "@),
    ensures
        bearer is None,
{
}

/// A password is hashed if its bytes can be counted in thirty-two bits.
pub proof fn passwords_are_hashable(password: Seq<char>)
    ensures
        hashable(password) <==> encode_utf8(password).len() < 0x1_0000_0000,
{
}

} // verus!
