//! Where the key of the Google API comes from.
use crate::json::{Json, JsonView};
use crate::outside::json_of_text;
use crate::text::{cat2, own, view_opt};
use vstd::prelude::*;

verus! {

/// The key that a document of profiles states for the default Google profile.
pub open spec fn profile_key(j: JsonView) -> Option<Seq<char>> {
    match j.get("profiles"@) {
        Some(p) => match p.get("google:default"@) {
            Some(g) => g.text_at("key"@),
            None => None,
        },
        None => None,
    }
}

/// The key that a document of profiles states.
pub fn key_in_profiles(j: &Json) -> (r: Option<String>)
    ensures
        view_opt(r) == profile_key(j@),
{
    match j.get("profiles") {
        Some(p) => match p.get("google:default") {
            Some(g) => g.text_at("key"),
            None => None,
        },
        None => None,
    }
}

/// A key that was given and is not empty.
pub open spec fn given(key: Option<Seq<char>>) -> bool {
    key matches Some(k) && k.len() > 0
}

/// Whether the file of profiles must be read: no key was given.
pub fn needs_profiles(cli_key: &Option<String>) -> (r: bool)
    ensures
        r == !given(view_opt(*cli_key)),
{
    match cli_key {
        Some(k) => k.as_str().is_empty(),
        None => true,
    }
}

/// The key to use: the one given, or else the one in the file of profiles. `file`
/// is the text of that file, or why it could not be read.
pub open spec fn resolved_key(
    cli_key: Option<Seq<char>>,
    file: Result<Result<JsonView, Seq<char>>, Seq<char>>,
) -> Result<Seq<char>, Seq<char>> {
    if given(cli_key) {
        Ok(cli_key->0)
    } else {
        match file {
            Err(e) => Err(e),
            Ok(Err(e)) => Err("Failed to parse OpenClaw auth-profiles.json: "@ + e),
            Ok(Ok(j)) => match profile_key(j) {
                Some(k) => Ok(k),
                None => Err("No google:default.key found in OpenClaw auth-profiles.json"@),
            },
        }
    }
}

/// The key to use: the one given, or else the one in the file of profiles.
pub fn resolve_google_api_key(cli_key: &Option<String>, file: Result<String, String>) -> (r: Result<
    String,
    String,
>)
    ensures
        ({
            let k = resolved_key(
                view_opt(*cli_key),
                match file {
                    Ok(text) => Ok(json_of_text(text@)),
                    Err(e) => Err(e@),
                },
            );
            match r {
                Ok(s) => k == Ok::<Seq<char>, Seq<char>>(s@),
                Err(e) => k == Err::<Seq<char>, Seq<char>>(e@),
            }
        }),
{
    match cli_key {
        Some(k) => {
            if !k.as_str().is_empty() {
                return Ok(k.clone());
            }
        },
        None => {},
    }
    match file {
        Err(e) => Err(e),
        Ok(text) => match Json::parse(&text) {
            Err(e) => Err(cat2("Failed to parse OpenClaw auth-profiles.json: ", &e)),
            Ok(j) => match key_in_profiles(&j) {
                Some(k) => Ok(k),
                None => Err(own("No google:default.key found in OpenClaw auth-profiles.json")),
            },
        },
    }
}

/// A key that is given is used; else the one in the profiles is.
pub proof fn given_key_comes_first(
    key: Seq<char>,
    file: Result<Result<JsonView, Seq<char>>, Seq<char>>,
    j: JsonView,
    e: Seq<char>,
)
    ensures
        key.len() > 0 ==> resolved_key(Some(key), file) == Ok::<Seq<char>, Seq<char>>(key),
        profile_key(j) is Some ==> resolved_key(None, Ok(Ok(j))) == Ok::<Seq<char>, Seq<char>>(
            profile_key(j)->0,
        ),
        profile_key(j) is None ==> resolved_key(None, Ok(Ok(j))) is Err,
        resolved_key(None, Err(e)) == Err::<Seq<char>, Seq<char>>(e),
        resolved_key(None, Ok(Err(e))) is Err,
        given(Some(key)) <==> key.len() > 0,
        !given(None),
{
}

} // verus!
