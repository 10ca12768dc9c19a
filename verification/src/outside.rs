//! The calls into other crates, each with the contract that is taken on trust.
use crate::json::{portable_is_float_free, text_array, Json, JsonView};
use crate::plugins::mail_form::parsable;
use crate::text::{decimal, is_alnum, split, starts_with, view_opt, views};
use vstd::prelude::*;
use vstd::utf8::encode_utf8;

verus! {

/// What is read from an electronic mail message.
pub struct Mail {
    pub from: Option<String>,
    pub to: Option<String>,
    pub subject: Option<String>,
    pub body: Option<String>,
    pub message_id: Option<String>,
    pub in_reply_to: Option<String>,
}

/// The mathematical content of a [`Mail`].
pub struct MailView {
    pub from: Option<Seq<char>>,
    pub to: Option<Seq<char>>,
    pub subject: Option<Seq<char>>,
    pub body: Option<Seq<char>>,
    pub message_id: Option<Seq<char>>,
    pub in_reply_to: Option<Seq<char>>,
}

impl View for Mail {
    type V = MailView;

    open spec fn view(&self) -> MailView {
        MailView {
            from: view_opt(self.from),
            to: view_opt(self.to),
            subject: view_opt(self.subject),
            body: view_opt(self.body),
            message_id: view_opt(self.message_id),
            in_reply_to: view_opt(self.in_reply_to),
        }
    }
}

/// A document as `serde_json` holds it.
#[verifier::external_type_specification]
#[verifier::external_body]
pub struct ExValue(serde_json::Value);

/// What a `serde_json::Value` holds. A number that fits `u64` or `i64` is an
/// integer; any other number is the numeral that `serde_json` prints for it.
pub uninterp spec fn value_json(v: serde_json::Value) -> JsonView;

/// What `serde_json::from_str` reads from a text: the document, or the message
/// of the error.
pub uninterp spec fn json_of_text(text: Seq<char>) -> Result<JsonView, Seq<char>>;

/// What `serde_json::from_slice` reads from bytes: the document, or the message
/// of the error.
pub uninterp spec fn json_of_bytes(bytes: Seq<u8>) -> Result<JsonView, Seq<char>>;

/// The message with which `serde_json::from_value` refuses to make a `String`.
pub uninterp spec fn string_error(j: JsonView) -> Seq<char>;

/// The message with which `serde_json::from_value` refuses to make a `u32`.
pub uninterp spec fn u32_error(j: JsonView) -> Seq<char>;

/// The message with which `serde_json::from_value` refuses to make a `u64`.
pub uninterp spec fn u64_error(j: JsonView) -> Seq<char>;

/// The message with which `serde_json::from_value` refuses to make a
/// `Vec<String>`.
pub uninterp spec fn strings_error(j: JsonView) -> Seq<char>;

/// The message with which `serde_json::from_value` refuses to make a map.
pub uninterp spec fn map_error(j: JsonView) -> Seq<char>;

/// The compact text that `serde_json` prints for a document.
pub uninterp spec fn json_to_text(j: JsonView) -> Seq<char>;

/// Whether a password is the one that an Argon2 hash string was made of.
pub uninterp spec fn password_matches(password: Seq<char>, hash: Seq<char>) -> bool;

/// The SHA-256 digest of some bytes.
pub uninterp spec fn sha256_of(bytes: Seq<u8>) -> Seq<u8>;

/// The token that `jsonwebtoken` makes of claims with HMAC-SHA256 under a secret.
pub uninterp spec fn jwt_token(claims: JsonView, secret: Seq<char>) -> Option<Seq<char>>;

/// The claims of a token, as far as time plays no part: its form is accepted, its
/// HMAC-SHA256 signature holds under the secret, and it names no audience.
pub uninterp spec fn jwt_claims(token: Seq<char>, secret: Seq<char>) -> Option<JsonView>;

/// Whether `jsonschema` takes a document for a schema.
pub uninterp spec fn schema_compiles(schema: JsonView) -> bool;

/// The messages of the errors that `jsonschema` finds in a document under a schema, in
/// their order; a valid document has none.
pub uninterp spec fn schema_messages(schema: JsonView, document: JsonView) -> Seq<Seq<char>>;

/// The media type that `mime_guess` gives for a path by its extension, or that of
/// plain bytes.
pub uninterp spec fn media_type_of(path: Seq<char>) -> Seq<char>;

/// What `mail_parser` reads from the bytes of a message, if it is one.
pub uninterp spec fn mail_of(bytes: Seq<u8>) -> Option<MailView>;

/// The lower case of a text, as `str::to_lowercase` gives it.
pub uninterp spec fn lowercase(text: Seq<char>) -> Seq<char>;

/// The seconds since the epoch and the nanoseconds after that which `chrono`
/// reads from a text, if it is a point in time.
pub uninterp spec fn time_of_text(text: Seq<char>) -> Option<(i64, u32)>;

/// The same for a text in the form of RFC 3339.
pub uninterp spec fn rfc3339_time_of(text: Seq<char>) -> Option<(i64, u32)>;

/// The number that `serde_json` reads from a numeral, or the null document
/// where the text is no numeral.
pub uninterp spec fn numeral(text: Seq<char>) -> JsonView;

/// The document with each `Float` numeral replaced by the number it stands for.
pub open spec fn settle(j: JsonView) -> JsonView
    decreases j,
{
    match j {
        JsonView::Float(s) => numeral(s),
        JsonView::Array(s) => JsonView::Array(
            Seq::new(
                s.len(),
                |i: int|
                    if 0 <= i < s.len() {
                        settle(s[i])
                    } else {
                        JsonView::Null
                    },
            ),
        ),
        JsonView::Object(m) => JsonView::Object(
            Map::new(
                |k: Seq<char>| m.contains_key(k),
                |k: Seq<char>|
                    if m.contains_key(k) {
                        settle(m[k])
                    } else {
                        JsonView::Null
                    },
            ),
        ),
        _ => j,
    }
}

/// A document whose numbers are all integers stands for itself.
pub proof fn settle_float_free(j: JsonView)
    requires
        j.float_free(),
    ensures
        settle(j) == j,
    decreases j,
{
    match j {
        JsonView::Array(s) => {
            assert forall|i: int| 0 <= i < s.len() implies settle(s[i]) == s[i] by {
                settle_float_free(s[i]);
            }
            assert(settle(j)->Array_0 =~= s);
        },
        JsonView::Object(m) => {
            assert forall|k: Seq<char>| m.contains_key(k) implies settle(m[k]) == m[k] by {
                settle_float_free(m[k]);
            }
            assert(settle(j)->Object_0 =~= m);
        },
        _ => {},
    }
}

/// Takes a `serde_json::Value` apart, variant by variant.
#[verifier::external_body]
pub(crate) fn value_into_json(v: serde_json::Value) -> (r: Json)
    ensures
        r@ == value_json(v),
{
    match v {
        serde_json::Value::Null => Json::Null,
        serde_json::Value::Bool(b) => Json::Bool(b),
        serde_json::Value::Number(n) => match (n.as_u64(), n.as_i64()) {
            (Some(u), _) => Json::Unsigned(u),
            (None, Some(i)) => Json::Signed(i),
            (None, None) => Json::Float(n.to_string()),
        },
        serde_json::Value::String(s) => Json::Text(s),
        serde_json::Value::Array(a) => Json::Array(a.into_iter().map(value_into_json).collect()),
        serde_json::Value::Object(o) => Json::Object(
            o.into_iter().map(|(k, x)| (k, value_into_json(x))).collect(),
        ),
    }
}

/// Builds the `serde_json::Value` of a document, variant by variant; of two
/// fields with one key `serde_json::Map` keeps the later.
#[verifier::external_body]
pub(crate) fn json_into_value(j: &Json) -> (r: serde_json::Value)
    ensures
        value_json(r) == settle(j@),
        j@ matches JsonView::Float(s) ==> value_json(r) == numeral(s),
{
    match j {
        Json::Null => serde_json::Value::Null,
        Json::Bool(b) => serde_json::Value::from(*b),
        Json::Unsigned(n) => serde_json::Value::from(*n),
        Json::Signed(n) => serde_json::Value::from(*n),
        Json::Float(s) => s.parse().map_or(serde_json::Value::Null, serde_json::Value::Number),
        Json::Text(s) => serde_json::Value::from(s.as_str()),
        Json::Array(v) => serde_json::Value::Array(v.iter().map(json_into_value).collect()),
        Json::Object(v) => serde_json::Value::Object(
            v.iter().map(|(k, x)| (k.clone(), json_into_value(x))).collect(),
        ),
    }
}

/// `serde_json::from_str`: the document that a text holds, or the message of
/// the error. Both depend on the text alone.
#[verifier::external_body]
pub(crate) fn value_of_text(text: &str) -> (r: Result<serde_json::Value, String>)
    ensures
        match r {
            Ok(v) => json_of_text(text@) == Ok::<JsonView, Seq<char>>(value_json(v)),
            Err(e) => json_of_text(text@) == Err::<JsonView, Seq<char>>(e@),
        },
{
    serde_json::from_str(text).map_err(|e| e.to_string())
}

/// A document that was read.
pub open spec fn read_as(j: JsonView) -> Result<JsonView, Seq<char>> {
    Ok(j)
}

/// `serde_json::Value`'s `Display`: the compact text of a document. `from_str` reads
/// a portable document back from it. Of floating point numbers that is not stated:
/// without a further feature of `serde_json` they come back only nearly the same.
#[verifier::external_body]
pub(crate) fn text_of_value(v: &serde_json::Value) -> (r: String)
    ensures
        r@ == json_to_text(value_json(*v)),
        value_json(*v).portable(127) ==> json_of_text(r@) == read_as(value_json(*v)),
{
    v.to_string()
}

/// `serde_json::from_slice`: the document that bytes hold, or the message of
/// the error. Both depend on the bytes alone.
#[verifier::external_body]
pub(crate) fn value_of_bytes(bytes: &[u8]) -> (r: Result<serde_json::Value, String>)
    ensures
        match r {
            Ok(v) => json_of_bytes(bytes@) == Ok::<JsonView, Seq<char>>(value_json(v)),
            Err(e) => json_of_bytes(bytes@) == Err::<JsonView, Seq<char>>(e@),
        },
{
    serde_json::from_slice(bytes).map_err(|e| e.to_string())
}

/// Every element of an array of documents is a string.
pub open spec fn all_texts(s: Seq<JsonView>) -> bool {
    forall|i: int| 0 <= i < s.len() ==> s[i] is Text
}

/// `serde_json::from_value::<String>`: succeeds on strings only, with the string.
#[verifier::external_body]
pub(crate) fn value_string(v: serde_json::Value) -> (r: Result<String, String>)
    ensures
        match r {
            Ok(s) => value_json(v) == JsonView::Text(s@),
            Err(e) => !(value_json(v) is Text) && e@ == string_error(value_json(v)),
        },
{
    serde_json::from_value(v).map_err(|e| e.to_string())
}

/// `serde_json::from_value::<u32>`: succeeds on the integers of that type only.
#[verifier::external_body]
pub(crate) fn value_u32(v: serde_json::Value) -> (r: Result<u32, String>)
    ensures
        match r {
            Ok(n) => value_json(v) == JsonView::Int(n as int),
            Err(e) => !(value_json(v) matches JsonView::Int(n) && 0 <= n <= u32::MAX) && e@
                == u32_error(value_json(v)),
        },
{
    serde_json::from_value(v).map_err(|e| e.to_string())
}

/// `serde_json::from_value::<u64>`: succeeds on the integers of that type only.
#[verifier::external_body]
pub(crate) fn value_u64(v: serde_json::Value) -> (r: Result<u64, String>)
    ensures
        match r {
            Ok(n) => value_json(v) == JsonView::Int(n as int),
            Err(e) => !(value_json(v) matches JsonView::Int(n) && 0 <= n <= u64::MAX) && e@
                == u64_error(value_json(v)),
        },
{
    serde_json::from_value(v).map_err(|e| e.to_string())
}

/// `serde_json::from_value::<Vec<String>>`: succeeds on arrays of strings only,
/// with the strings in order.
#[verifier::external_body]
pub(crate) fn value_strings(v: serde_json::Value) -> (r: Result<Vec<String>, String>)
    ensures
        match r {
            Ok(s) => value_json(v) == text_array(views(s@)),
            Err(e) => !(value_json(v) matches JsonView::Array(a) && all_texts(a)) && e@
                == strings_error(value_json(v)),
        },
{
    serde_json::from_value(v).map_err(|e| e.to_string())
}

/// `serde_json::from_value` into a `serde_json::Map`: refuses what is no object.
/// Nothing is stated of objects.
#[verifier::external_body]
pub(crate) fn value_map(v: serde_json::Value) -> (r: Result<(), String>)
    requires
        !(value_json(v) is Object),
    ensures
        match r {
            Ok(_) => false,
            Err(e) => e@ == map_error(value_json(v)),
        },
{
    serde_json::from_value::<serde_json::Map<String, serde_json::Value>>(v).map(|_| ()).map_err(
        |e| e.to_string(),
    )
}

/// `str::to_lowercase`: the lower case of a text by the tables of Unicode.
#[verifier::external_body]
pub(crate) fn to_lowercase(text: &str) -> (r: String)
    ensures
        r@ == lowercase(text@),
{
    text.to_lowercase()
}

/// `chrono::Utc::now`, as seconds since the epoch and nanoseconds after that.
/// The clock stands after the epoch and within the years that `chrono` can hold.
#[verifier::external_body]
pub(crate) fn utc_now() -> (r: (i64, u32))
    ensures
        0 <= r.0 <= 8_400_000_000_000,
        r.1 < 2_000_000_000,
{
    let now = chrono::Utc::now();
    (now.timestamp(), now.timestamp_subsec_nanos())
}

/// `chrono::Utc::now`, printed by `to_rfc3339`. Nothing is stated of it.
#[verifier::external_body]
pub(crate) fn rfc3339_now() -> (r: String) {
    chrono::Utc::now().to_rfc3339()
}

/// `subtle::ConstantTimeEq::ct_eq` on byte slices: whether they are equal. That
/// the time taken does not depend on the bytes is not stated.
#[verifier::external_body]
pub(crate) fn bytes_equal(a: &[u8], b: &[u8]) -> (r: bool)
    ensures
        r == (a@ == b@),
{
    bool::from(subtle::ConstantTimeEq::ct_eq(a, b))
}

/// Argon2 can work at this cost.
pub open spec fn cost_is_valid(memory: u32, iterations: u32, lanes: u32) -> bool {
    8 <= memory && 8 * lanes <= memory && 1 <= iterations && 1 <= lanes
}

/// How a hash string of Argon2id, version 19, begins: with the cost.
pub open spec fn hash_prefix(memory: u32, iterations: u32, lanes: u32) -> Seq<char> {
    "$argon2id$v=19$m="@ + decimal(memory as nat) + ",t="@ + decimal(iterations as nat) + ",p="@
        + decimal(lanes as nat) + "$"@
}

/// From `i` on a text names a number of lanes that has more than eight digits.
pub open spec fn too_many_lanes_at(hash: Seq<char>, i: int) -> bool {
    i + 10 < hash.len() && hash[i] == 'p' && hash[i + 1] == '=' && forall|j: int|
        i + 2 <= j < i + 11 ==> '0' <= #[trigger] hash[j] && hash[j] <= '9'
}

/// A text names no number of lanes that has more than eight digits. In such a number
/// the arithmetic of `argon2::Params::new` could overflow.
pub open spec fn lanes_fit(hash: Seq<char>) -> bool {
    forall|i: int| 0 <= i ==> !#[trigger] too_many_lanes_at(hash, i)
}

/// `argon2::PasswordHasher::hash_password` with Argon2id, version 19, a random
/// salt and the given cost: memory in KiB, iterations and lanes. It fails only for
/// a cost that is not valid or a password of more bytes than `u32` can count; the
/// message says which. The hash string begins with the cost, and the password matches
/// it. The digits that depend on the salt are not stated.
#[verifier::external_body]
pub(crate) fn argon2id_hash(password: &str, memory: u32, iterations: u32, lanes: u32) -> (r: Result<
    String,
    String,
>)
    requires
        lanes <= 0xff_ffff,
    ensures
        match r {
            Ok(h) => cost_is_valid(memory, iterations, lanes) && encode_utf8(password@).len()
                <= u32::MAX && password_matches(password@, h@) && lanes_fit(h@) && starts_with(
                h@,
                hash_prefix(memory, iterations, lanes),
            ),
            Err(e) => if cost_is_valid(memory, iterations, lanes) {
                encode_utf8(password@).len() > u32::MAX && e@ == "invalid password"@
            } else {
                e@ == "invalid parameter name"@
            },
        },
{
    let salt = argon2::password_hash::SaltString::generate(
        &mut argon2::password_hash::rand_core::OsRng,
    );
    let params = argon2::Params::new(memory, iterations, lanes, None)
        .map_err(|_| argon2::password_hash::Error::ParamNameInvalid.to_string())?;
    let hasher = argon2::Argon2::new(argon2::Algorithm::Argon2id, argon2::Version::V0x13, params);
    argon2::PasswordHasher::hash_password(
        &hasher,
        password.as_bytes(),
        &salt,
    ).map(|h| h.to_string()).map_err(|e| e.to_string())
}

/// A text in the digits of base 64.
pub open spec fn in_base64(s: Seq<char>) -> bool {
    forall|i: int| 0 <= i < s.len() ==> is_alnum(#[trigger] s[i]) || s[i] == '+' || s[i] == '/'
}

/// A text has the form of a hash string of Argon2: after a first dollar sign, parts
/// between such signs. They are a variant, up to two parts of its settings, a salt and
/// the hash.
pub open spec fn is_hash_string(hash: Seq<char>) -> bool {
    let parts = split(hash, '$');
    let n = parts.len() as int;
    4 <= n <= 6 && parts[0].len() == 0 && (parts[1] == "argon2d"@ || parts[1] == "argon2i"@
        || parts[1] == "argon2id"@) && 4 <= parts[n - 2].len() <= 64 && in_base64(parts[n - 2])
        && parts[n - 1].len() > 0 && in_base64(parts[n - 1])
}

/// `argon2::PasswordVerifier::verify_password` on a parsed hash string: whether
/// the password matches. A text that does not have the form of a hash string matches
/// nothing.
#[verifier::external_body]
pub(crate) fn argon2_verify(password: &str, hash: &str) -> (r: bool)
    requires
        lanes_fit(hash@),
    ensures
        r == password_matches(password@, hash@),
        r ==> is_hash_string(hash@),
{
    argon2::PasswordHash::new(hash).is_ok_and(|h| {
        argon2::PasswordVerifier::verify_password(
            &argon2::Argon2::default(),
            password.as_bytes(),
            &h,
        ).is_ok()
    })
}

/// `sha2::Digest::digest` for SHA-256.
#[verifier::external_body]
pub(crate) fn sha256(bytes: &[u8]) -> (r: Vec<u8>)
    ensures
        r@ == sha256_of(bytes@),
        r@.len() == 32,
{
    <sha2::Sha256 as sha2::Digest>::digest(bytes).to_vec()
}

/// `ulid::Ulid::new`, printed: 26 characters made of the time and chance.
#[verifier::external_body]
pub(crate) fn new_ulid() -> (r: String)
    ensures
        r@.len() == 26,
{
    ulid::Ulid::new().to_string()
}

/// The document has no list at a key.
pub open spec fn no_list_at(j: JsonView, key: Seq<char>) -> bool {
    j.get(key) matches Some(x) ==> !(x is Array)
}

/// Claims that come back from a token as they went in: an object of strings,
/// integers and lists of strings that names no audience and has no key that
/// `serde_json` keeps for itself. The subject and the two times that `jsonwebtoken`
/// reads once more by itself are no lists.
pub open spec fn plain_claims(j: JsonView) -> bool {
    match j {
        JsonView::Object(m) => !m.contains_key("aud"@) && !m.contains_key(
            "$serde_json::private::Number"@,
        ) && !m.contains_key("$serde_json::private::RawValue"@) && no_list_at(j, "sub"@)
            && no_list_at(j, "exp"@) && no_list_at(j, "nbf"@) && forall|k: Seq<char>|
            #[trigger] m.contains_key(k) ==> (m[k] is Text || m[k] is Int || (
            m[k] matches JsonView::Array(a) && all_texts(a))),
        _ => false,
    }
}

/// `jsonwebtoken::encode` with the default header, which names HMAC-SHA256. The
/// token is determined by the claims and the secret, and carries plain claims as
/// they are. Plain claims always give a token: they can be printed as JSON, and
/// signing with a secret cannot fail.
#[verifier::external_body]
pub(crate) fn jwt_encode(claims: &serde_json::Value, secret: &str) -> (r: Result<String, String>)
    ensures
        match r {
            Ok(t) => jwt_token(value_json(*claims), secret@) == Some(t@) && (plain_claims(
                value_json(*claims),
            ) ==> jwt_claims(t@, secret@) == Some(value_json(*claims))),
            Err(_) => jwt_token(value_json(*claims), secret@) is None,
        },
        plain_claims(value_json(*claims)) ==> r is Ok,
{
    let key = jsonwebtoken::EncodingKey::from_secret(secret.as_bytes());
    jsonwebtoken::encode(&jsonwebtoken::Header::default(), claims, &key).map_err(|e| e.to_string())
}

/// The claims state an expiry that the clock can have passed: one that is no integer, or
/// one before the last instant of the clock.
pub open spec fn may_be_expired(j: JsonView) -> bool {
    match j.get("exp"@) {
        Some(x) => x matches JsonView::Int(n) ==> 0 <= n < 8_400_000_000_000,
        None => false,
    }
}

/// `jsonwebtoken::decode` for HMAC-SHA256, with the expiry checked to the second
/// and no claim required. What it accepts are the claims of the token; it refuses
/// the claims of a token only for an expiry that the clock can have passed. The clock
/// stands within the years that `chrono` can hold. When it has passed the expiry is not
/// stated.
#[verifier::external_body]
pub(crate) fn jwt_decode(token: &str, secret: &str) -> (r: Result<serde_json::Value, String>)
    ensures
        match r {
            Ok(v) => jwt_claims(token@, secret@) == Some(value_json(v)),
            Err(_) => jwt_claims(token@, secret@) matches Some(j) ==> may_be_expired(j),
        },
{
    let key = jsonwebtoken::DecodingKey::from_secret(secret.as_bytes());
    let mut validation = jsonwebtoken::Validation::default();
    validation.validate_exp = true;
    validation.leeway = 0;
    validation.required_spec_claims.clear();
    jsonwebtoken::decode(token, &key, &validation).map(|d| d.claims).map_err(|e| e.to_string())
}

/// A text that can stand in an HTTP header: no control characters but the tab.
pub open spec fn header_text(s: Seq<char>) -> bool {
    forall|i: int|
        0 <= i < s.len() ==> (#[trigger] s[i] == '\t' || (' ' <= s[i] && s[i] != '\u{7f}'))
}

/// `axum::http::HeaderValue::from_str`: succeeds on texts that can stand in an HTTP
/// header.
#[verifier::external_body]
pub(crate) fn is_header_text(s: &str) -> (r: bool)
    ensures
        r == header_text(s@),
{
    axum::http::HeaderValue::from_str(s).is_ok()
}

/// `mime_guess::from_path`, with `application/octet-stream` where it knows nothing.
#[verifier::external_body]
pub(crate) fn media_type(path: &str) -> (r: String)
    ensures
        r@ == media_type_of(path@),
{
    mime_guess::from_path(path).first_or_octet_stream().to_string()
}

/// The seconds since the epoch and the nanoseconds after that which
/// `chrono::DateTime::parse_from_rfc3339` reads from a text, if it is a point in
/// time in that form; its bounds are those of [`parse_time`].
#[verifier::external_body]
pub(crate) fn parse_rfc3339(text: &str) -> (r: Option<(i64, u32)>)
    ensures
        r == rfc3339_time_of(text@),
        r matches Some(t) ==> -8_400_000_000_000 <= t.0 <= 8_400_000_000_000 && t.1
            < 2_000_000_000,
{
    let parsed = chrono::DateTime::parse_from_rfc3339(text).ok();
    parsed.map(|t| (t.timestamp(), t.timestamp_subsec_nanos()))
}

/// `mail_parser::MessageParser::parse`, and of the message the address of the first
/// sender and of the first recipient, the subject, the first text body, the
/// message id and the id that it replies to. All depend on the bytes alone. Bytes on
/// which the arithmetic of the parser overflows are left out.
#[verifier::external_body]
pub(crate) fn parse_mail(bytes: &[u8]) -> (r: Option<Mail>)
    requires
        parsable(bytes@),
    ensures
        view_opt(r) == mail_of(bytes@),
{
    let m = mail_parser::MessageParser::default().parse(bytes)?;
    Some(Mail {
        from: m.from().and_then(|a| a.first()).and_then(|a| a.address()).map(str::to_string),
        to: m.to().and_then(|a| a.first()).and_then(|a| a.address()).map(str::to_string),
        subject: m.subject().map(str::to_string),
        body: m.body_text(0).map(|b| b.to_string()),
        message_id: m.message_id().map(str::to_string),
        in_reply_to: m.in_reply_to().as_text().map(str::to_string),
    })
}

/// `jsonschema::validator_for`, and the messages of `iter_errors` on a document. Both
/// depend on the schema and the document alone. What is said of a document that is no
/// schema is not stated: of several references that cannot be followed, it names any.
#[verifier::external_body]
pub(crate) fn schema_errors(schema: &serde_json::Value, document: &serde_json::Value) -> (r: Result<
    Vec<String>,
    String,
>)
    ensures
        match r {
            Ok(errors) => schema_compiles(value_json(*schema)) && views(errors@)
                == schema_messages(value_json(*schema), value_json(*document)),
            Err(_) => !schema_compiles(value_json(*schema)),
        },
{
    let validator = jsonschema::validator_for(schema).map_err(|e| e.to_string())?;
    Ok(validator.iter_errors(document).map(|e| e.to_string()).collect())
}

/// `str::parse::<chrono::DateTime<chrono::Utc>>`, taken apart by
/// `DateTime::timestamp` and `DateTime::timestamp_subsec_nanos`. The years that
/// `chrono` can hold bound the seconds; a leap second makes the nanoseconds
/// exceed one second but not two.
#[verifier::external_body]
pub(crate) fn parse_time(text: &str) -> (r: Option<(i64, u32)>)
    ensures
        r == time_of_text(text@),
        r matches Some(t) ==> -8_400_000_000_000 <= t.0 <= 8_400_000_000_000 && t.1
            < 2_000_000_000,
{
    let parsed = text.parse::<chrono::DateTime<chrono::Utc>>().ok();
    parsed.map(|t| (t.timestamp(), t.timestamp_subsec_nanos()))
}

impl Json {
    /// The document that `serde_json` holds.
    pub fn from_value(v: serde_json::Value) -> (r: Json)
        ensures
            r@ == value_json(v),
    {
        value_into_json(v)
    }

    /// The document in the form that `serde_json` holds.
    pub fn to_value(&self) -> (r: serde_json::Value)
        ensures
            value_json(r) == settle(self@),
    {
        json_into_value(self)
    }

    /// Reads a document, or gives the message of the error. Of two fields with one key
    /// the later one counts.
    pub fn parse(text: &str) -> (r: Result<Json, String>)
        ensures
            match r {
                Ok(j) => json_of_text(text@) == Ok::<JsonView, Seq<char>>(j@),
                Err(e) => json_of_text(text@) == Err::<JsonView, Seq<char>>(e@),
            },
    {
        match value_of_text(text) {
            Ok(v) => Ok(value_into_json(v)),
            Err(e) => Err(e),
        }
    }

    /// Reads a document from bytes, or gives the message of the error. Of two fields with
    /// one key the later one counts.
    pub fn parse_bytes(bytes: &[u8]) -> (r: Result<Json, String>)
        ensures
            match r {
                Ok(j) => json_of_bytes(bytes@) == Ok::<JsonView, Seq<char>>(j@),
                Err(e) => json_of_bytes(bytes@) == Err::<JsonView, Seq<char>>(e@),
            },
    {
        match value_of_bytes(bytes) {
            Ok(v) => Ok(value_into_json(v)),
            Err(e) => Err(e),
        }
    }

    /// The compact text of the document.
    pub fn print(&self) -> (r: String)
        ensures
            r@ == json_to_text(settle(self@)),
            self@.portable(127) ==> json_of_text(r@) == read_as(self@),
    {
        proof {
            if self@.portable(127) {
                portable_is_float_free(self@, 127);
                settle_float_free(self@);
            }
        }
        text_of_value(&json_into_value(self))
    }
}

} // verus!
