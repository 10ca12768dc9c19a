//! Reading the arguments of a tool call.
//!
//! The arguments are an object, or an array that lists them in their order of
//! declaration. Each reader takes the name and the position of one argument. In
//! an object a missing argument has a default; in an array an optional argument
//! must be there. An argument of the wrong type is refused with the message of
//! the JSON library.
use crate::duplicate::views_opt;
use crate::json::{items_view_index, text_array, Json, JsonView};
use crate::outside::{
    all_texts, json_into_value, map_error, settle, string_error, strings_error, u32_error,
    u64_error, value_into_json, value_map, value_string, value_strings, value_u32, value_u64,
};
use crate::text::{
    before_suffix, cat3, cat4, decimal, decimal_of, ends_with, view_opt, views,
};
use vstd::prelude::*;

verus! {

/// The strings of an array that holds nothing else.
pub open spec fn element_texts(a: Seq<JsonView>) -> Seq<Seq<char>> {
    Seq::new(
        a.len(),
        |i: int|
            match a[i] {
                JsonView::Text(s) => s,
                _ => Seq::empty(),
            },
    )
}

/// What stands under a name in an object, or at a position in an array.
pub open spec fn field(a: JsonView, key: Seq<char>, index: int) -> Option<JsonView> {
    match a {
        JsonView::Array(s) => if 0 <= index < s.len() {
            Some(s[index])
        } else {
            None
        },
        _ => a.get(key),
    }
}

/// The refusal of a document that is no map, with the name of the wanted record
/// in place of the map.
pub open spec fn wanted(e: Seq<char>, name: Seq<char>) -> Seq<char> {
    if ends_with(e, "a map"@) {
        e.subrange(0, e.len() - "a map"@.len()) + "struct "@ + name
    } else {
        e
    }
}

/// Why the arguments are neither an object nor an array.
pub open spec fn shape_problem(a: JsonView, name: Seq<char>) -> Option<Seq<char>> {
    match settle(a) {
        JsonView::Object(_) => None,
        JsonView::Array(_) => None,
        o => Some(wanted(map_error(o), name)),
    }
}

/// Why an array has more elements than there are arguments.
pub open spec fn surplus_problem(a: JsonView, count: int) -> Option<Seq<char>> {
    match a {
        JsonView::Array(s) => if s.len() > count {
            Some("invalid length "@ + decimal(s.len()) + ", expected fewer elements in array"@)
        } else {
            None
        },
        _ => None,
    }
}

/// What is wrong with an array that ends before an optional argument.
pub open spec fn too_short(index: nat, shape: Seq<char>) -> Seq<char> {
    "invalid length "@ + decimal(index) + ", expected "@ + shape
}

/// The error of a result.
pub open spec fn problem<T>(r: Result<T, Seq<char>>) -> Option<Seq<char>> {
    match r {
        Ok(_) => None,
        Err(e) => Some(e),
    }
}

/// The first of two errors, if there is any.
pub open spec fn earlier(a: Option<Seq<char>>, b: Option<Seq<char>>) -> Option<Seq<char>> {
    if a is Some {
        a
    } else {
        b
    }
}

/// A string argument, empty when it is missing.
pub open spec fn text_argument(a: JsonView, key: Seq<char>, index: nat) -> Result<Seq<char>, Seq<char>> {
    match field(a, key, index as int) {
        None => Ok(Seq::empty()),
        Some(v) => match settle(v) {
            JsonView::Text(s) => Ok(s),
            o => Err(string_error(o)),
        },
    }
}

/// An optional string argument; the null document counts as missing.
pub open spec fn opt_text_argument(
    a: JsonView,
    key: Seq<char>,
    index: nat,
    shape: Seq<char>,
) -> Result<
    Option<Seq<char>>,
    Seq<char>,
> {
    match field(a, key, index as int) {
        None => if a is Array {
            Err(too_short(index, shape))
        } else {
            Ok(None)
        },
        Some(v) => if v is Null {
            Ok(None)
        } else {
            match settle(v) {
                JsonView::Text(s) => Ok(Some(s)),
                o => Err(string_error(o)),
            }
        },
    }
}

/// An optional 32-bit argument; the null document counts as missing.
pub open spec fn opt_u32_argument(a: JsonView, key: Seq<char>, index: nat, shape: Seq<char>) -> Result<Option<u32>, Seq<char>> {
    match field(a, key, index as int) {
        None => if a is Array {
            Err(too_short(index, shape))
        } else {
            Ok(None)
        },
        Some(v) => if v is Null {
            Ok(None)
        } else {
            match settle(v) {
                JsonView::Int(n) => if 0 <= n <= u32::MAX {
                    Ok(Some(n as u32))
                } else {
                    Err(u32_error(settle(v)))
                },
                o => Err(u32_error(o)),
            }
        },
    }
}

/// A 64-bit number that a document holds.
pub open spec fn u64_of(v: JsonView) -> Result<u64, Seq<char>> {
    match settle(v) {
        JsonView::Int(n) => if 0 <= n <= u64::MAX {
            Ok(n as u64)
        } else {
            Err(u64_error(settle(v)))
        },
        o => Err(u64_error(o)),
    }
}

/// A 64-bit argument, zero when it is missing.
pub open spec fn u64_argument(a: JsonView, key: Seq<char>, index: nat) -> Result<u64, Seq<char>> {
    match field(a, key, index as int) {
        None => Ok(0u64),
        Some(v) => u64_of(v),
    }
}

/// An optional 64-bit argument; the null document counts as missing.
pub open spec fn opt_u64_argument(a: JsonView, key: Seq<char>, index: nat, shape: Seq<char>) -> Result<Option<u64>, Seq<char>> {
    match field(a, key, index as int) {
        None => if a is Array {
            Err(too_short(index, shape))
        } else {
            Ok(None)
        },
        Some(v) => if v is Null {
            Ok(None)
        } else {
            match u64_of(v) {
                Ok(n) => Ok(Some(n)),
                Err(e) => Err(e),
            }
        },
    }
}

/// The strings that a document lists.
pub open spec fn texts_of(v: JsonView) -> Result<Seq<Seq<char>>, Seq<char>> {
    match settle(v) {
        JsonView::Array(s) => if all_texts(s) {
            Ok(element_texts(s))
        } else {
            Err(strings_error(settle(v)))
        },
        o => Err(strings_error(o)),
    }
}

/// A list of strings, empty when it is missing.
pub open spec fn texts_argument(a: JsonView, key: Seq<char>, index: nat) -> Result<Seq<Seq<char>>, Seq<char>> {
    match field(a, key, index as int) {
        None => Ok(Seq::empty()),
        Some(v) => texts_of(v),
    }
}

/// An optional list of strings; the null document counts as missing.
pub open spec fn opt_texts_argument(
    a: JsonView,
    key: Seq<char>,
    index: nat,
    shape: Seq<char>,
) -> Result<
    Option<Seq<Seq<char>>>,
    Seq<char>,
> {
    match field(a, key, index as int) {
        None => if a is Array {
            Err(too_short(index, shape))
        } else {
            Ok(None)
        },
        Some(v) => if v is Null {
            Ok(None)
        } else {
            match texts_of(v) {
                Ok(s) => Ok(Some(s)),
                Err(e) => Err(e),
            }
        },
    }
}

/// Any argument; the null document counts as missing.
pub open spec fn opt_json_argument(a: JsonView, key: Seq<char>, index: nat, shape: Seq<char>) -> Result<Option<JsonView>, Seq<char>> {
    match field(a, key, index as int) {
        None => if a is Array {
            Err(too_short(index, shape))
        } else {
            Ok(None)
        },
        Some(v) => if v is Null {
            Ok(None)
        } else {
            Ok(Some(v))
        },
    }
}

/// Finds what stands under a name in an object, or at a position in an array.
fn find_field<'a>(a: &'a Json, key: &str, index: usize) -> (r: Option<&'a Json>)
    ensures
        match r {
            Some(j) => field(a@, key@, index as int) == Some(j@),
            None => field(a@, key@, index as int) is None,
        },
{
    match a {
        Json::Array(v) => {
            proof {
                items_view_index(v@);
            }
            if index < v.len() {
                Some(&v[index])
            } else {
                None
            }
        },
        _ => a.get(key),
    }
}

/// Whether the arguments are an array.
pub fn is_array(a: &Json) -> (r: bool)
    ensures
        r == (a@ is Array),
{
    match a {
        Json::Array(_) => true,
        _ => false,
    }
}

/// The error of a result.
pub fn problem_of<T>(r: &Result<T, String>) -> (p: Option<String>)
    ensures
        view_opt(p) == match *r {
            Ok(_) => None,
            Err(e) => Some(e@),
        },
{
    match r {
        Ok(_) => None,
        Err(e) => Some(e.clone()),
    }
}

/// The first of two errors.
pub fn earlier_of(a: Option<String>, b: Option<String>) -> (r: Option<String>)
    ensures
        view_opt(r) == earlier(view_opt(a), view_opt(b)),
{
    if a.is_some() {
        a
    } else {
        b
    }
}

/// Checks that the arguments are an object or an array.
pub fn check_shape(a: &Json, name: &str) -> (r: Option<String>)
    ensures
        view_opt(r) == shape_problem(a@, name@),
{
    if is_settled_record(a) {
        return None;
    }
    match value_map(json_into_value(a)) {
        Ok(_) => None,
        Err(e) => match before_suffix(&e, "a map") {
            Some(start) => Some(cat3(&start, "struct ", name)),
            None => Some(e),
        },
    }
}

/// Whether the arguments are an object or an array once they are settled.
fn is_settled_record(a: &Json) -> (r: bool)
    ensures
        r == (settle(a@) is Object || settle(a@) is Array),
{
    match value_into_json(json_into_value(a)) {
        Json::Object(_) => true,
        Json::Array(_) => true,
        _ => false,
    }
}

/// Checks that an array has no more elements than there are arguments.
pub fn check_surplus(a: &Json, count: usize) -> (r: Option<String>)
    ensures
        view_opt(r) == surplus_problem(a@, count as int),
{
    match a {
        Json::Array(v) => {
            proof {
                items_view_index(v@);
            }
            if v.len() > count {
                Some(
                    cat3(
                        "invalid length ",
                        &decimal_of(v.len() as u64),
                        ", expected fewer elements in array",
                    ),
                )
            } else {
                None
            }
        },
        _ => None,
    }
}

/// What is wrong with an array that ends before an optional argument.
fn short_array(index: usize, shape: &str) -> (r: String)
    ensures
        r@ == too_short(index as nat, shape@),
{
    cat4("invalid length ", &decimal_of(index as u64), ", expected ", shape)
}

/// Reads a string argument.
pub fn read_text(a: &Json, key: &str, index: usize) -> (r: Result<String, String>)
    ensures
        match r {
            Ok(s) => text_argument(a@, key@, index as nat) == Ok::<Seq<char>, Seq<char>>(s@),
            Err(e) => text_argument(a@, key@, index as nat) == Err::<Seq<char>, Seq<char>>(e@),
        },
{
    match find_field(a, key, index) {
        None => Ok(String::new()),
        Some(v) => value_string(json_into_value(v)),
    }
}

/// Reads an optional string argument.
pub fn read_opt_text(
    a: &Json,
    key: &str,
    index: usize,
    shape: &str,
) -> (r: Result<Option<String>, String>)
    ensures
        match r {
            Ok(s) => opt_text_argument(
                a@,
                key@,
                index as nat,
                shape@,
            ) == Ok::<Option<Seq<char>>, Seq<char>>(view_opt(s)),
            Err(e) => opt_text_argument(
                a@,
                key@,
                index as nat,
                shape@,
            ) == Err::<Option<Seq<char>>, Seq<char>>(e@),
        },
{
    match find_field(a, key, index) {
        None => if is_array(a) {
            Err(short_array(index, shape))
        } else {
            Ok(None)
        },
        Some(v) => if v.is_null() {
            Ok(None)
        } else {
            match value_string(json_into_value(v)) {
                Ok(s) => Ok(Some(s)),
                Err(e) => Err(e),
            }
        },
    }
}

/// Reads an optional 32-bit argument.
pub fn read_opt_u32(
    a: &Json,
    key: &str,
    index: usize,
    shape: &str,
) -> (r: Result<Option<u32>, String>)
    ensures
        match r {
            Ok(n) => opt_u32_argument(
                a@,
                key@,
                index as nat,
                shape@,
            ) == Ok::<Option<u32>, Seq<char>>(n),
            Err(e) => opt_u32_argument(
                a@,
                key@,
                index as nat,
                shape@,
            ) == Err::<Option<u32>, Seq<char>>(e@),
        },
{
    match find_field(a, key, index) {
        None => if is_array(a) {
            Err(short_array(index, shape))
        } else {
            Ok(None)
        },
        Some(v) => if v.is_null() {
            Ok(None)
        } else {
            match value_u32(json_into_value(v)) {
                Ok(n) => Ok(Some(n)),
                Err(e) => Err(e),
            }
        },
    }
}

/// Reads a 64-bit argument.
pub fn read_u64(a: &Json, key: &str, index: usize) -> (r: Result<u64, String>)
    ensures
        match r {
            Ok(n) => u64_argument(a@, key@, index as nat) == Ok::<u64, Seq<char>>(n),
            Err(e) => u64_argument(a@, key@, index as nat) == Err::<u64, Seq<char>>(e@),
        },
{
    match find_field(a, key, index) {
        None => Ok(0),
        Some(v) => value_u64(json_into_value(v)),
    }
}

/// Reads an optional 64-bit argument.
pub fn read_opt_u64(
    a: &Json,
    key: &str,
    index: usize,
    shape: &str,
) -> (r: Result<Option<u64>, String>)
    ensures
        match r {
            Ok(n) => opt_u64_argument(
                a@,
                key@,
                index as nat,
                shape@,
            ) == Ok::<Option<u64>, Seq<char>>(n),
            Err(e) => opt_u64_argument(
                a@,
                key@,
                index as nat,
                shape@,
            ) == Err::<Option<u64>, Seq<char>>(e@),
        },
{
    match find_field(a, key, index) {
        None => if is_array(a) {
            Err(short_array(index, shape))
        } else {
            Ok(None)
        },
        Some(v) => if v.is_null() {
            Ok(None)
        } else {
            match value_u64(json_into_value(v)) {
                Ok(n) => Ok(Some(n)),
                Err(e) => Err(e),
            }
        },
    }
}

/// An array of strings gives its strings back.
proof fn element_texts_of_array(s: Seq<Seq<char>>)
    ensures
        text_array(s) matches JsonView::Array(a) && all_texts(a) && element_texts(a) == s,
{
    match text_array(s) {
        JsonView::Array(a) => {
            assert(element_texts(a) =~= s);
        },
        _ => {},
    }
}

/// Reads a list of strings.
pub fn read_texts(a: &Json, key: &str, index: usize) -> (r: Result<Vec<String>, String>)
    ensures
        match r {
            Ok(s) => texts_argument(
                a@,
                key@,
                index as nat,
            ) == Ok::<Seq<Seq<char>>, Seq<char>>(views(s@)),
            Err(e) => texts_argument(
                a@,
                key@,
                index as nat,
            ) == Err::<Seq<Seq<char>>, Seq<char>>(e@),
        },
{
    match find_field(a, key, index) {
        None => {
            let out: Vec<String> = Vec::new();
            assert(views(out@) =~= Seq::<Seq<char>>::empty());
            Ok(out)
        },
        Some(v) => match value_strings(json_into_value(v)) {
            Ok(s) => {
                proof {
                    element_texts_of_array(views(s@));
                }
                Ok(s)
            },
            Err(e) => Err(e),
        },
    }
}

/// Reads an optional list of strings.
pub fn read_opt_texts(
    a: &Json,
    key: &str,
    index: usize,
    shape: &str,
) -> (r: Result<Option<Vec<String>>, String>)
    ensures
        match r {
            Ok(s) => opt_texts_argument(a@, key@, index as nat, shape@) == Ok::<Option<Seq<Seq<char>>>, Seq<char>>(
                views_opt(s),
            ),
            Err(e) => opt_texts_argument(
                a@,
                key@,
                index as nat,
                shape@,
            ) == Err::<Option<Seq<Seq<char>>>, Seq<char>>(e@),
        },
{
    match find_field(a, key, index) {
        None => if is_array(a) {
            Err(short_array(index, shape))
        } else {
            Ok(None)
        },
        Some(v) => if v.is_null() {
            Ok(None)
        } else {
            match value_strings(json_into_value(v)) {
                Ok(s) => {
                    proof {
                        element_texts_of_array(views(s@));
                    }
                    Ok(Some(s))
                },
                Err(e) => Err(e),
            }
        },
    }
}

/// Reads any argument.
pub fn read_opt_json(
    a: &Json,
    key: &str,
    index: usize,
    shape: &str,
) -> (r: Result<Option<Json>, String>)
    ensures
        match r {
            Ok(j) => opt_json_argument(
                a@,
                key@,
                index as nat,
                shape@,
            ) == Ok::<Option<JsonView>, Seq<char>>(view_opt(j)),
            Err(e) => opt_json_argument(
                a@,
                key@,
                index as nat,
                shape@,
            ) == Err::<Option<JsonView>, Seq<char>>(e@),
        },
{
    match find_field(a, key, index) {
        None => if is_array(a) {
            Err(short_array(index, shape))
        } else {
            Ok(None)
        },
        Some(v) => if v.is_null() {
            Ok(None)
        } else {
            Ok(Some(v.copy()))
        },
    }
}

/// An argument is found by its name in an object and by its place in an array.
pub proof fn arguments_are_found(a: JsonView, s: Seq<JsonView>, key: Seq<char>, i: int)
    ensures
        a is Object ==> field(a, key, i) == a.get(key),
        0 <= i < s.len() ==> field(JsonView::Array(s), key, i) == Some(s[i]),
        i >= s.len() ==> field(JsonView::Array(s), key, i) is None,
{
}

/// An argument is taken as it is given; one that is missing, or null where it may be, is left
/// out.
pub proof fn arguments_are_taken(
    a: JsonView,
    v: JsonView,
    key: Seq<char>,
    i: nat,
    shape: Seq<char>,
    t: Seq<char>,
    n: int,
)
    requires
        a is Object,
    ensures
        a.get(key) == Some(v) && settle(v) == JsonView::Text(t) ==> text_argument(a, key, i) == Ok::<
            Seq<char>,
            Seq<char>,
        >(t),
        a.get(key) == Some(v) && settle(v) == JsonView::Text(t) && !(v is Null)
            ==> opt_text_argument(a, key, i, shape) == Ok::<Option<Seq<char>>, Seq<char>>(Some(t)),
        a.get(key) == Some(v) && settle(v) == JsonView::Int(n) && 0 <= n <= u64::MAX
            ==> u64_argument(a, key, i) == Ok::<u64, Seq<char>>(n as u64),
        a.get(key) == Some(v) && settle(v) == JsonView::Int(n) && !(v is Null) && 0 <= n
            <= u64::MAX ==> opt_u64_argument(a, key, i, shape) == Ok::<Option<u64>, Seq<char>>(
            Some(n as u64),
        ),
        a.get(key) == Some(v) && settle(v) == JsonView::Int(n) && !(v is Null) && 0 <= n
            <= u32::MAX ==> opt_u32_argument(a, key, i, shape) == Ok::<Option<u32>, Seq<char>>(
            Some(n as u32),
        ),
        a.get(key) == Some(v) && !(v is Null) ==> opt_json_argument(a, key, i, shape) == Ok::<
            Option<JsonView>,
            Seq<char>,
        >(Some(v)),
        a.get(key) is None || a.get(key) == Some(JsonView::Null) ==> opt_text_argument(
            a,
            key,
            i,
            shape,
        ) == Ok::<Option<Seq<char>>, Seq<char>>(None) && opt_u64_argument(a, key, i, shape) == Ok::<
            Option<u64>,
            Seq<char>,
        >(None) && opt_u32_argument(a, key, i, shape) == Ok::<Option<u32>, Seq<char>>(None)
            && opt_json_argument(a, key, i, shape) == Ok::<Option<JsonView>, Seq<char>>(None),
        a.get(key) == Some(v) && settle(v) is Bool ==> text_argument(a, key, i) is Err
            && u64_argument(a, key, i) is Err && texts_argument(a, key, i) is Err,
        a.get(key) == Some(v) && settle(v) == JsonView::Int(n) && n < 0 ==> u64_argument(
            a,
            key,
            i,
        ) is Err,
{
}

/// Of two faults the first is told, if there is one.
pub proof fn first_fault_is_told(a: Option<Seq<char>>, b: Option<Seq<char>>)
    ensures
        a is Some ==> earlier(a, b) == a,
        a is None ==> earlier(a, b) == b,
{
}

/// An array has a surplus if it has more places than there are arguments.
pub proof fn surplus_is_told(s: Seq<JsonView>, count: int)
    ensures
        surplus_problem(JsonView::Array(s), count) is Some <==> s.len() > count,
        surplus_problem(JsonView::Null, count) is None,
{
}

/// A list that may be left out is null in an array, or missing from an object; a place that is
/// missing from an array is a fault.
pub proof fn lists_are_taken(
    a: JsonView,
    key: Seq<char>,
    i: nat,
    shape: Seq<char>,
    v: JsonView,
)
    ensures
        a is Object && a.get(key) is None ==> opt_texts_argument(a, key, i, shape) == Ok::<
            Option<Seq<Seq<char>>>,
            Seq<char>,
        >(None),
        a is Array && i >= a->Array_0.len() ==> opt_texts_argument(a, key, i, shape) is Err
            && opt_text_argument(a, key, i, shape) is Err && opt_u32_argument(
            a,
            key,
            i,
            shape,
        ) is Err && opt_u64_argument(a, key, i, shape) is Err && opt_json_argument(
            a,
            key,
            i,
            shape,
        ) is Err,
        a is Object && a.get(key) == Some(v) && !(v is Null) ==> (opt_texts_argument(
            a,
            key,
            i,
            shape,
        ) is Ok <==> settle(v) is Array && all_texts(settle(v)->Array_0)),
{
}

} // verus!
