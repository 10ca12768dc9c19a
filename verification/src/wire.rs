//! Events and records as JSON documents.
use crate::duplicate::{assigned, duplicate_all, duplicate_opt, Duplicate, TextMap};
use crate::events::{
    ChannelAction,
    ChannelActionView,
    ChannelInbound,
    ChannelInboundView,
    ChannelOutbound,
    ChannelOutboundView,
    FactUpsertRequest,
    FactUpsertRequestView,
    PluginRegister,
    PluginRegisterView,
    ToolRegister,
    ToolRegisterView,
};
use crate::json::{
    fields_view, fields_view_last, items_view_index, text_array, text_or_null, Json, JsonView,
};
use crate::kernel::arguments::element_texts;
use crate::outside::{all_texts, json_of_bytes, new_ulid, rfc3339_now};
use crate::text::{own, same, view_opt, views};
use vstd::prelude::*;

verus! {

// ---------------------------------------------------------------------------
// Fields
// ---------------------------------------------------------------------------

/// The object with the first `n` elements of an array under names, in order.
pub open spec fn listed(a: Seq<JsonView>, names: Seq<Seq<char>>, n: nat) -> JsonView
    decreases n,
{
    if n == 0 {
        JsonView::object()
    } else {
        listed(a, names, (n - 1) as nat).put(names[n - 1], a[n - 1])
    }
}

/// The object that states a record. An array states its fields in their order, up to
/// the last one or to one behind which every field has a default; `least` fields are
/// needed. An array of another length states nothing.
pub open spec fn record(j: JsonView, names: Seq<Seq<char>>, least: int) -> JsonView {
    match j {
        JsonView::Array(a) => if least <= a.len() <= names.len() {
            listed(a, names, a.len())
        } else {
            JsonView::Null
        },
        _ => j,
    }
}

/// The kind of record that an array names in its first place.
pub open spec fn first_kind(j: JsonView) -> Seq<char> {
    match j {
        JsonView::Array(a) => if a.len() > 0 {
            a[0].as_text().unwrap_or(Seq::empty())
        } else {
            Seq::empty()
        },
        _ => Seq::empty(),
    }
}

/// The kind of record that an array names in its first place.
pub fn read_first_kind(j: &Json) -> (r: String)
    ensures
        r@ == first_kind(j@),
{
    match j {
        Json::Array(v) => {
            proof {
                items_view_index(v@);
            }
            if v.len() > 0 {
                assert(views(v@)[0] == v@[0]@);
                match &v[0] {
                    Json::Text(s) => s.clone(),
                    _ => String::new(),
                }
            } else {
                String::new()
            }
        },
        _ => String::new(),
    }
}

/// The object that states a record, where it is not the document itself.
pub fn as_record(j: &Json, names: &Vec<&'static str>, least: usize) -> (r: Option<Json>)
    ensures
        match r {
            Some(x) => x@ == record(j@, views(names@), least as int),
            None => j@ == record(j@, views(names@), least as int),
        },
{
    match j {
        Json::Array(v) => {
            proof {
                items_view_index(v@);
            }
            if v.len() < least || names.len() < v.len() {
                return Some(Json::Null);
            }
            let ghost a = views(v@);
            let ghost n = views(names@);
            let mut out = Json::object();
            let mut i: usize = 0;
            while i < v.len()
                invariant
                    i <= v@.len() <= names@.len(),
                    a == views(v@),
                    n == views(names@),
                    out@ == listed(a, n, i as nat),
                decreases v@.len() - i,
            {
                assert(n[i as int] == names@[i as int]@);
                assert(a[i as int] == v@[i as int]@);
                out = out.put(names[i], v[i].copy());
                i = i + 1;
            }
            Some(out)
        },
        _ => None,
    }
}

/// The strings in a field that lists strings only.
pub open spec fn texts_at(j: JsonView, key: Seq<char>) -> Option<Seq<Seq<char>>> {
    match j.array_at(key) {
        Some(a) => if all_texts(a) {
            Some(element_texts(a))
        } else {
            None
        },
        None => None,
    }
}

/// A string in a field that may be missing or null: the outer `None` is a field
/// of another type.
pub open spec fn optional_text_at(j: JsonView, key: Seq<char>) -> Option<Option<Seq<char>>> {
    match j.get(key) {
        None => Some(None),
        Some(JsonView::Null) => Some(None),
        Some(JsonView::Text(s)) => Some(Some(s)),
        Some(_) => None,
    }
}

/// The strings of a list of strings.
pub fn read_texts_at(j: &Json, key: &str) -> (r: Option<Vec<String>>)
    ensures
        match r {
            Some(v) => texts_at(j@, key@) == Some(views(v@)),
            None => texts_at(j@, key@) is None,
        },
{
    match j.get(key) {
        Some(x) => match x {
            Json::Array(v) => {
                proof {
                    items_view_index(v@);
                }
                let ghost s = views(v@);
                let mut out: Vec<String> = Vec::new();
                let mut i: usize = 0;
                while i < v.len()
                    invariant
                        i <= v@.len(),
                        s == views(v@),
                        x@ == JsonView::Array(s),
                        j@.get(key@) == Some(x@),
                        out@.len() == i,
                        forall|k: int| 0 <= k < i ==> s[k] == JsonView::Text((#[trigger] out@[k])@),
                    decreases v@.len() - i,
                {
                    assert(s[i as int] == v@[i as int]@);
                    match &v[i] {
                        Json::Text(t) => {
                            out.push(t.clone());
                        },
                        _ => {
                            assert(!(s[i as int] is Text));
                            return None;
                        },
                    }
                    i = i + 1;
                }
                proof {
                    assert forall|k: int| 0 <= k < s.len() implies s[k] is Text by {
                        assert(s[k] == JsonView::Text(out@[k]@));
                    }
                    assert(element_texts(s) =~= views(out@));
                }
                Some(out)
            },
            _ => None,
        },
        None => None,
    }
}

/// The strings in a field that lists strings; a missing field lists none.
pub open spec fn default_texts_at(j: JsonView, key: Seq<char>) -> Option<Seq<Seq<char>>> {
    match j.get(key) {
        None => Some(Seq::empty()),
        Some(_) => texts_at(j, key),
    }
}

/// The truth value in a field.
pub open spec fn bool_at(j: JsonView, key: Seq<char>) -> Option<bool> {
    match j.get(key) {
        Some(v) => v.as_bool(),
        None => None,
    }
}

/// The strings in a field that lists strings; a missing field lists none.
pub fn read_default_texts_at(j: &Json, key: &str) -> (r: Option<Vec<String>>)
    ensures
        match r {
            Some(v) => default_texts_at(j@, key@) == Some(views(v@)),
            None => default_texts_at(j@, key@) is None,
        },
{
    match j.get(key) {
        None => {
            let none: Vec<String> = Vec::new();
            assert(views(none@) =~= Seq::<Seq<char>>::empty());
            Some(none)
        },
        Some(_) => read_texts_at(j, key),
    }
}

/// The truth value in a field.
pub fn read_bool_at(j: &Json, key: &str) -> (r: Option<bool>)
    ensures
        r == bool_at(j@, key@),
{
    match j.get(key) {
        Some(v) => v.as_bool(),
        None => None,
    }
}

/// The document in a field.
pub fn read_json_at(j: &Json, key: &str) -> (r: Option<Json>)
    ensures
        view_opt(r) == j@.get(key@),
{
    match j.get(key) {
        Some(v) => Some(v.copy()),
        None => None,
    }
}

/// The string in a field that may be missing or null.
pub fn read_optional_text_at(j: &Json, key: &str) -> (r: Option<Option<String>>)
    ensures
        match r {
            Some(o) => optional_text_at(j@, key@) == Some(view_opt(o)),
            None => optional_text_at(j@, key@) is None,
        },
{
    match j.get(key) {
        None => Some(None),
        Some(x) => match x {
            Json::Null => Some(None),
            Json::Text(s) => Some(Some(s.clone())),
            _ => None,
        },
    }
}

/// A list of strings is read back from a field as it was written.
pub proof fn text_array_read_back(j: JsonView, key: Seq<char>, s: Seq<Seq<char>>)
    requires
        j.get(key) == Some(text_array(s)),
    ensures
        texts_at(j, key) == Some(s),
        default_texts_at(j, key) == Some(s),
{
    let a = text_array(s)->Array_0;
    assert(all_texts(a));
    assert(element_texts(a) =~= s);
}

/// The string in a field, or `d` where the field is missing.
pub open spec fn default_text_at(j: JsonView, key: Seq<char>, d: Seq<char>) -> Option<Seq<char>> {
    match j.get(key) {
        None => Some(d),
        Some(v) => v.as_text(),
    }
}

/// The string in a field, or `d` where the field is missing.
pub fn read_default_text_at(j: &Json, key: &str, d: &str) -> (r: Option<String>)
    ensures
        view_opt(r) == default_text_at(j@, key@, d@),
{
    match j.get(key) {
        None => Some(own(d)),
        Some(v) => match v {
            Json::Text(s) => Some(s.clone()),
            _ => None,
        },
    }
}

/// The unsigned integer in a field, or `d` where the field is missing.
pub open spec fn default_u64_at(j: JsonView, key: Seq<char>, d: int) -> Option<int> {
    match j.get(key) {
        None => Some(d),
        Some(v) => v.as_u64(),
    }
}

/// The unsigned integer in a field, or `d` where the field is missing.
pub fn read_default_u64_at(j: &Json, key: &str, d: u64) -> (r: Option<u64>)
    ensures
        match r {
            Some(n) => default_u64_at(j@, key@, d as int) == Some(n as int),
            None => default_u64_at(j@, key@, d as int) is None,
        },
{
    match j.get(key) {
        None => Some(d),
        Some(v) => v.as_u64(),
    }
}

/// The 32-bit integer in a field.
pub open spec fn i32_at(j: JsonView, key: Seq<char>) -> Option<int> {
    match j.get(key) {
        Some(JsonView::Int(n)) => if i32::MIN <= n <= i32::MAX {
            Some(n)
        } else {
            None
        },
        _ => None,
    }
}

/// The 32-bit integer in a field.
pub fn read_i32_at(j: &Json, key: &str) -> (r: Option<i32>)
    ensures
        match r {
            Some(n) => i32_at(j@, key@) == Some(n as int),
            None => i32_at(j@, key@) is None,
        },
{
    match j.get(key) {
        Some(v) => match v.as_i64() {
            Some(n) => if -0x8000_0000 <= n && n <= 0x7fff_ffff {
                Some(n as i32)
            } else {
                None
            },
            None => None,
        },
        None => None,
    }
}

/// The 64-bit integer in a field.
pub open spec fn i64_at(j: JsonView, key: Seq<char>) -> Option<int> {
    match j.get(key) {
        Some(JsonView::Int(n)) => if i64::MIN <= n <= i64::MAX {
            Some(n)
        } else {
            None
        },
        _ => None,
    }
}

/// The 64-bit integer in a field.
pub fn read_i64_at(j: &Json, key: &str) -> (r: Option<i64>)
    ensures
        match r {
            Some(n) => i64_at(j@, key@) == Some(n as int),
            None => i64_at(j@, key@) is None,
        },
{
    match j.get(key) {
        Some(v) => v.as_i64(),
        None => None,
    }
}

/// A document, or the null document when there is none.
pub open spec fn json_or_null(o: Option<JsonView>) -> JsonView {
    match o {
        Some(v) => v,
        None => JsonView::Null,
    }
}

/// A document, or the null document when there is none.
pub fn json_opt_document(o: &Option<Json>) -> (r: Json)
    ensures
        r@ == json_or_null(view_opt(*o)),
{
    match o {
        Some(v) => v.copy(),
        None => Json::Null,
    }
}

/// The document in a field that may be missing or null. It is never refused.
pub open spec fn optional_json_at(j: JsonView, key: Seq<char>) -> Option<Option<JsonView>> {
    match j.get(key) {
        None => Some(None),
        Some(JsonView::Null) => Some(None),
        Some(v) => Some(Some(v)),
    }
}

/// The document in a field that may be missing or null.
pub fn read_optional_json_at(j: &Json, key: &str) -> (r: Option<Option<Json>>)
    ensures
        match r {
            Some(o) => optional_json_at(j@, key@) == Some(view_opt(o)),
            None => false,
        },
{
    match j.get(key) {
        None => Some(None),
        Some(v) => if v.is_null() {
            Some(None)
        } else {
            Some(Some(v.copy()))
        },
    }
}

/// The elements of the array in a field; a missing field has none.
pub open spec fn default_items_at(j: JsonView, key: Seq<char>) -> Option<Seq<JsonView>> {
    match j.get(key) {
        None => Some(Seq::empty()),
        Some(v) => v.as_array(),
    }
}

/// The elements of the array in a field; a missing field has none.
pub fn read_default_items_at(j: &Json, key: &str) -> (r: Option<Vec<Json>>)
    ensures
        match r {
            Some(v) => default_items_at(j@, key@) == Some(views(v@)),
            None => default_items_at(j@, key@) is None,
        },
{
    match j.get(key) {
        None => {
            let none: Vec<Json> = Vec::new();
            assert(views(none@) =~= Seq::<JsonView>::empty());
            Some(none)
        },
        Some(x) => match x {
            Json::Array(v) => {
                proof {
                    items_view_index(v@);
                }
                Some(duplicate_all(v))
            },
            _ => None,
        },
    }
}

/// The array of some documents.
pub fn json_list_document(v: &Vec<Json>) -> (r: Json)
    ensures
        r@ == JsonView::Array(views(v@)),
{
    let copy = duplicate_all(v);
    proof {
        items_view_index(copy@);
    }
    Json::Array(copy)
}

/// The object of a map of texts.
pub open spec fn text_map_json(m: Map<Seq<char>, Seq<char>>) -> JsonView {
    JsonView::Object(
        Map::new(|k: Seq<char>| m.contains_key(k), |k: Seq<char>| JsonView::Text(m[k])),
    )
}

/// The map of texts that an object states, if all its fields are strings.
pub open spec fn text_map_of(j: JsonView) -> Option<Map<Seq<char>, Seq<char>>> {
    match j {
        JsonView::Object(m) => if forall|k: Seq<char>|
            #[trigger] m.contains_key(k) ==> m[k] is Text {
            Some(
                Map::new(|k: Seq<char>| m.contains_key(k), |k: Seq<char>| m[k]->Text_0),
            )
        } else {
            None
        },
        _ => None,
    }
}

/// The map of texts in a field; a missing field is the empty map.
pub open spec fn default_text_map_at(j: JsonView, key: Seq<char>) -> Option<
    Map<Seq<char>, Seq<char>>,
> {
    match j.get(key) {
        None => Some(Map::empty()),
        Some(v) => text_map_of(v),
    }
}

/// The object of a map of texts.
pub fn text_map_document(m: &TextMap) -> (r: Json)
    ensures
        r@ == text_map_json(m@),
{
    let mut out = Json::object();
    let mut i: usize = 0;
    proof {
        assert(m.entries@.subrange(0, 0) =~= Seq::empty());
        assert(out@->Object_0 =~= text_map_json(assigned(m.entries@.subrange(0, 0)))->Object_0);
    }
    while i < m.entries.len()
        invariant
            i <= m.entries@.len(),
            out@ == text_map_json(assigned(m.entries@.subrange(0, i as int))),
        decreases m.entries@.len() - i,
    {
        let k = m.entries[i].0.as_str();
        let v = m.entries[i].1.as_str();
        let ghost before = assigned(m.entries@.subrange(0, i as int));
        out = out.put(k, Json::text(v));
        proof {
            let t = m.entries@.subrange(0, i + 1);
            assert(t.drop_last() =~= m.entries@.subrange(0, i as int));
            assert(assigned(t) == before.insert(k@, v@));
            assert(out@->Object_0 =~= text_map_json(assigned(t))->Object_0);
        }
        i = i + 1;
    }
    assert(m.entries@.subrange(0, i as int) =~= m.entries@);
    out
}

/// The fields that no later field of the same name replaces.
fn is_last_of_key(v: &Vec<(String, Json)>, i: usize) -> (r: bool)
    requires
        i < v@.len(),
    ensures
        r == forall|k: int| i < k < v@.len() ==> (#[trigger] v@[k]).0@ != v@[i as int].0@,
{
    let n: usize = v.len();
    let mut k: usize = i + 1;
    while k < n
        invariant
            n == v@.len(),
            i < k <= v@.len(),
            forall|n: int| i < n < k ==> (#[trigger] v@[n]).0@ != v@[i as int].0@,
        decreases v@.len() - k,
    {
        if same(&v[k].0, &v[i].0) {
            assert(v@[k as int].0@ == v@[i as int].0@);
            return false;
        }
        k = k + 1;
    }
    true
}

/// Every key of a list of fields has a last field.
proof fn last_field(s: Seq<(String, Json)>, k: Seq<char>) -> (i: int)
    requires
        fields_view(s).contains_key(k),
    ensures
        0 <= i < s.len(),
        s[i].0@ == k,
        s[i].1@ == fields_view(s)[k],
        forall|n: int| i < n < s.len() ==> (#[trigger] s[n]).0@ != k,
    decreases s.len(),
{
    if s.last().0@ == k {
        s.len() - 1
    } else {
        let i = last_field(s.drop_last(), k);
        assert forall|n: int| i < n < s.len() implies (#[trigger] s[n]).0@ != k by {
            if n < s.len() - 1 {
                assert(s.drop_last()[n].0@ != k);
            }
        }
        i
    }
}

/// The map of texts that an object states.
pub fn read_text_map(j: &Json) -> (r: Option<TextMap>)
    ensures
        view_opt(r) == text_map_of(j@),
{
    match j {
        Json::Object(v) => {
            let ghost m = fields_view(v@);
            let mut out = TextMap::new();
            let mut i: usize = 0;
            while i < v.len()
                invariant
                    i <= v@.len(),
                    m == fields_view(v@),
                    j@ == JsonView::Object(m),
                    forall|k: Seq<char>|
                        #[trigger] out@.contains_key(k) ==> m.contains_key(k) && m[k]
                            == JsonView::Text(out@[k]),
                    forall|n: int|
                        0 <= n < i && (forall|x: int|
                            n < x < v@.len() ==> (#[trigger] v@[x]).0@ != v@[n].0@)
                            ==> out@.contains_key((#[trigger] v@[n]).0@),
                decreases v@.len() - i,
            {
                if is_last_of_key(v, i) {
                    proof {
                        fields_view_last(v@, v@[i as int].0@, i as int);
                    }
                    match &v[i].1 {
                        Json::Text(s) => {
                            out.put(v[i].0.as_str(), s.as_str());
                        },
                        _ => {
                            assert(!(m[v@[i as int].0@] is Text));
                            return None;
                        },
                    }
                }
                i = i + 1;
            }
            proof {
                assert forall|k: Seq<char>| #[trigger] m.contains_key(k) implies out@.contains_key(
                    k,
                ) by {
                    let n = last_field(v@, k);
                    assert(v@[n].0@ == k);
                }
                assert forall|k: Seq<char>| #[trigger] m.contains_key(k) implies m[k] is Text by {
                    assert(out@.contains_key(k));
                }
                assert(out@ =~= text_map_of(j@)->Some_0);
            }
            Some(out)
        },
        _ => None,
    }
}

/// The map of texts in a field; a missing field is the empty map.
pub fn read_default_text_map_at(j: &Json, key: &str) -> (r: Option<TextMap>)
    ensures
        view_opt(r) == default_text_map_at(j@, key@),
{
    match j.get(key) {
        None => Some(TextMap::new()),
        Some(v) => read_text_map(v),
    }
}

/// A map of texts is read back from its object.
pub proof fn text_map_read_back(j: JsonView, key: Seq<char>, m: Map<Seq<char>, Seq<char>>)
    requires
        j.get(key) == Some(text_map_json(m)),
    ensures
        default_text_map_at(j, key) == Some(m),
{
    let o = text_map_json(m)->Object_0;
    assert forall|k: Seq<char>| #[trigger] o.contains_key(k) implies o[k] is Text by {
    }
    assert(text_map_of(text_map_json(m))->Some_0 =~= m);
}

// ---------------------------------------------------------------------------
// Records
// ---------------------------------------------------------------------------

/// A number of any kind.
pub open spec fn is_number(j: JsonView) -> bool {
    j is Int || j is Float
}

/// The number in a field.
pub open spec fn number_at(j: JsonView, key: Seq<char>) -> Option<JsonView> {
    match j.get(key) {
        Some(v) => if is_number(v) {
            Some(v)
        } else {
            None
        },
        None => None,
    }
}

/// The number in a field, or the one that `d` writes where the field is missing.
pub open spec fn default_number_at(j: JsonView, key: Seq<char>, d: Seq<char>) -> Option<JsonView> {
    match j.get(key) {
        None => Some(JsonView::Float(d)),
        Some(_) => number_at(j, key),
    }
}

/// The number in a field.
pub fn read_number_at(j: &Json, key: &str) -> (r: Option<Json>)
    ensures
        view_opt(r) == number_at(j@, key@),
{
    match j.get(key) {
        Some(v) => match v {
            Json::Unsigned(_) | Json::Signed(_) | Json::Float(_) => Some(v.copy()),
            _ => None,
        },
        None => None,
    }
}

/// The number in a field, or the one that `d` writes where the field is missing.
pub fn read_default_number_at(j: &Json, key: &str, d: &str) -> (r: Option<Json>)
    ensures
        view_opt(r) == default_number_at(j@, key@, d@),
{
    match j.get(key) {
        None => Some(Json::Float(own(d))),
        Some(_) => read_number_at(j, key),
    }
}

/// The document of a fact to store. No date is set from which it holds.
pub open spec fn fact_upsert_json(x: FactUpsertRequestView) -> JsonView {
    JsonView::object().put("subject"@, JsonView::Text(x.subject)).put(
        "predicate"@,
        JsonView::Text(x.predicate),
    ).put("object"@, text_or_null(x.object)).put("value"@, text_or_null(x.value)).put(
        "confidence"@,
        x.confidence,
    ).put("source_content"@, JsonView::Text(x.source_content)).put("valid_from"@, JsonView::Null)
}

/// The document of a fact to store.
pub fn fact_upsert_document(x: &FactUpsertRequest) -> (r: Json)
    ensures
        r@ == fact_upsert_json(x@),
{
    Json::object().put("subject", Json::text(&x.subject)).put(
        "predicate",
        Json::text(&x.predicate),
    ).put("object", Json::opt(&x.object)).put("value", Json::opt(&x.value)).put(
        "confidence",
        x.confidence.copy(),
    ).put("source_content", Json::text(&x.source_content)).put("valid_from", Json::Null)
}

/// The document of a [`ChannelAction`].
pub open spec fn channel_action_json(x: ChannelActionView) -> JsonView {
    JsonView::object().put(
        "label"@,
        JsonView::Text(x.label),
    ).put(
        "action_type"@,
        JsonView::Text(x.action_type),
    ).put(
        "value"@,
        JsonView::Text(x.value),
    )
}

/// The [`ChannelAction`] that a document states.
pub open spec fn channel_action_of(j: JsonView) -> Option<ChannelActionView> {
    match (
        j.text_at("label"@),
        j.text_at("action_type"@),
        j.text_at("value"@),
    ) {
        (Some(label), Some(action_type), Some(value)) => Some(
            ChannelActionView { label, action_type, value },
        ),
        _ => None,
    }
}

/// The document of a [`ChannelAction`].
pub fn channel_action_document(x: &ChannelAction) -> (r: Json)
    ensures
        r@ == channel_action_json(x@),
{
    Json::object()
        .put("label", Json::text(&x.label))
        .put("action_type", Json::text(&x.action_type))
        .put("value", Json::text(&x.value))
}

/// The [`ChannelAction`] that a document states.
pub fn read_channel_action(j: &Json) -> (r: Option<ChannelAction>)
    ensures
        view_opt(r) == channel_action_of(j@),
{
    match (
        j.text_at("label"),
        j.text_at("action_type"),
        j.text_at("value"),
    ) {
        (Some(label), Some(action_type), Some(value)) => Some(
            ChannelAction { label, action_type, value },
        ),
        _ => None,
    }
}

/// The names of the fields are different.
proof fn channel_action_names_differ()
    ensures
        "action_type"@ != "label"@,
        "action_type"@ != "value"@,
        "label"@ != "value"@,
{
    reveal_strlit("action_type");
    assert("action_type"@.len() == 11);
    reveal_strlit("label");
    assert("label"@.len() == 5);
    reveal_strlit("value");
    assert("value"@.len() == 5);
    assert("label"@[0] == 'l');
    assert("value"@[0] == 'v');
}

/// A [`ChannelAction`] is read back from its document.
pub proof fn channel_action_round_trip(x: ChannelActionView)
    ensures
        channel_action_of(channel_action_json(x)) == Some(x),
{
    channel_action_names_differ();
    let j = channel_action_json(x);
}

/// The array of some actions.
pub open spec fn channel_actions_json(s: Seq<ChannelActionView>) -> JsonView {
    JsonView::Array(Seq::new(s.len(), |i: int| channel_action_json(s[i])))
}

/// The actions that an array states.
pub open spec fn channel_actions_of(a: Seq<JsonView>) -> Option<Seq<ChannelActionView>> {
    if forall|i: int| 0 <= i < a.len() ==> channel_action_of(#[trigger] a[i]) is Some {
        Some(Seq::new(a.len(), |i: int| channel_action_of(a[i])->Some_0))
    } else {
        None
    }
}

/// The actions in a field; a missing field has none.
pub open spec fn default_channel_actions_at(j: JsonView, key: Seq<char>) -> Option<
    Seq<ChannelActionView>,
> {
    match j.get(key) {
        None => Some(Seq::empty()),
        Some(v) => match v {
            JsonView::Array(a) => channel_actions_of(a),
            _ => None,
        },
    }
}

/// The array of some actions.
pub fn channel_actions_document(v: &Vec<ChannelAction>) -> (r: Json)
    ensures
        r@ == channel_actions_json(views(v@)),
{
    let mut out: Vec<Json> = Vec::new();
    let mut i: usize = 0;
    while i < v.len()
        invariant
            i <= v@.len(),
            out@.len() == i,
            forall|k: int| 0 <= k < i ==> (#[trigger] out@[k])@ == channel_action_json(v@[k]@),
        decreases v@.len() - i,
    {
        out.push(channel_action_document(&v[i]));
        i = i + 1;
    }
    proof {
        items_view_index(out@);
        assert(views(out@) =~= channel_actions_json(views(v@))->Array_0);
    }
    Json::Array(out)
}

/// The actions in a field; a missing field has none.
pub fn read_default_channel_actions_at(j: &Json, key: &str) -> (r: Option<Vec<ChannelAction>>)
    ensures
        match r {
            Some(v) => default_channel_actions_at(j@, key@) == Some(views(v@)),
            None => default_channel_actions_at(j@, key@) is None,
        },
{
    let mut out: Vec<ChannelAction> = Vec::new();
    match j.get(key) {
        None => {
            assert(views(out@) =~= Seq::<ChannelActionView>::empty());
            Some(out)
        },
        Some(x) => match x {
            Json::Array(v) => {
                let ghost a = views(v@);
                proof {
                    items_view_index(v@);
                }
                let mut i: usize = 0;
                while i < v.len()
                    invariant
                        i <= v@.len(),
                        a == views(v@),
                        x@ == JsonView::Array(a),
                        j@.get(key@) == Some(x@),
                        out@.len() == i,
                        forall|k: int|
                            0 <= k < i ==> channel_action_of(a[k]) == Some((#[trigger] out@[k])@),
                    decreases v@.len() - i,
                {
                    assert(a[i as int] == v@[i as int]@);
                    match read_channel_action(&v[i]) {
                        Some(c) => {
                            out.push(c);
                        },
                        None => {
                            assert(channel_action_of(a[i as int]) is None);
                            return None;
                        },
                    }
                    i = i + 1;
                }
                proof {
                    assert forall|k: int| 0 <= k < a.len() implies channel_action_of(
                        #[trigger] a[k],
                    ) is Some by {
                        assert(channel_action_of(a[k]) == Some(out@[k]@));
                    }
                    assert(views(out@) =~= channel_actions_of(a)->Some_0);
                }
                Some(out)
            },
            _ => None,
        },
    }
}

/// Actions are read back from their array.
pub proof fn channel_actions_read_back(j: JsonView, key: Seq<char>, s: Seq<ChannelActionView>)
    requires
        j.get(key) == Some(channel_actions_json(s)),
    ensures
        default_channel_actions_at(j, key) == Some(s),
{
    let a = channel_actions_json(s)->Array_0;
    assert forall|i: int| 0 <= i < a.len() implies channel_action_of(#[trigger] a[i]) == Some(
        s[i],
    ) by {
        channel_action_round_trip(s[i]);
    }
    assert(channel_actions_of(a)->Some_0 =~= s);
}

/// The document of a [`ChannelInbound`].
pub open spec fn channel_inbound_json(x: ChannelInboundView) -> JsonView {
    JsonView::object().put(
        "platform"@,
        JsonView::Text(x.platform),
    ).put(
        "user_id"@,
        JsonView::Text(x.user_id),
    ).put(
        "chat_id"@,
        JsonView::Text(x.chat_id),
    ).put(
        "text"@,
        JsonView::Text(x.text),
    ).put(
        "reply_to"@,
        text_or_null(x.reply_to),
    ).put(
        "attachments"@,
        JsonView::Array(x.attachments),
    ).put(
        "metadata"@,
        text_map_json(x.metadata),
    )
}

/// The [`ChannelInbound`] that a document states.
pub open spec fn channel_inbound_of(j: JsonView) -> Option<ChannelInboundView> {
    match (
        j.text_at("platform"@),
        j.text_at("user_id"@),
        j.text_at("chat_id"@),
        j.text_at("text"@),
        optional_text_at(j, "reply_to"@),
        default_items_at(j, "attachments"@),
        default_text_map_at(j, "metadata"@),
    ) {
        (Some(platform), Some(user_id), Some(chat_id), Some(text), Some(reply_to), Some(attachments), Some(metadata)) => Some(
            ChannelInboundView {
                platform,
                user_id,
                chat_id,
                text,
                reply_to,
                attachments,
                metadata,
            },
        ),
        _ => None,
    }
}

/// The document of a [`ChannelInbound`].
pub fn channel_inbound_document(x: &ChannelInbound) -> (r: Json)
    ensures
        r@ == channel_inbound_json(x@),
{
    Json::object()
        .put("platform", Json::text(&x.platform))
        .put("user_id", Json::text(&x.user_id))
        .put("chat_id", Json::text(&x.chat_id))
        .put("text", Json::text(&x.text))
        .put("reply_to", Json::opt(&x.reply_to))
        .put("attachments", json_list_document(&x.attachments))
        .put("metadata", text_map_document(&x.metadata))
}

/// The [`ChannelInbound`] that a document states.
pub fn read_channel_inbound(j: &Json) -> (r: Option<ChannelInbound>)
    ensures
        view_opt(r) == channel_inbound_of(j@),
{
    match (
        j.text_at("platform"),
        j.text_at("user_id"),
        j.text_at("chat_id"),
        j.text_at("text"),
        read_optional_text_at(j, "reply_to"),
        read_default_items_at(j, "attachments"),
        read_default_text_map_at(j, "metadata"),
    ) {
        (Some(platform), Some(user_id), Some(chat_id), Some(text), Some(reply_to), Some(attachments), Some(metadata)) => Some(
            ChannelInbound { platform, user_id, chat_id, text, reply_to, attachments, metadata },
        ),
        _ => None,
    }
}

/// The names of the fields are different.
proof fn channel_inbound_names_differ()
    ensures
        "attachments"@ != "chat_id"@,
        "attachments"@ != "metadata"@,
        "attachments"@ != "platform"@,
        "attachments"@ != "reply_to"@,
        "attachments"@ != "text"@,
        "attachments"@ != "user_id"@,
        "chat_id"@ != "metadata"@,
        "chat_id"@ != "platform"@,
        "chat_id"@ != "reply_to"@,
        "chat_id"@ != "text"@,
        "chat_id"@ != "user_id"@,
        "metadata"@ != "platform"@,
        "metadata"@ != "reply_to"@,
        "metadata"@ != "text"@,
        "metadata"@ != "user_id"@,
        "platform"@ != "reply_to"@,
        "platform"@ != "text"@,
        "platform"@ != "user_id"@,
        "reply_to"@ != "text"@,
        "reply_to"@ != "user_id"@,
        "text"@ != "user_id"@,
{
    reveal_strlit("attachments");
    assert("attachments"@.len() == 11);
    reveal_strlit("chat_id");
    assert("chat_id"@.len() == 7);
    reveal_strlit("metadata");
    assert("metadata"@.len() == 8);
    reveal_strlit("platform");
    assert("platform"@.len() == 8);
    reveal_strlit("reply_to");
    assert("reply_to"@.len() == 8);
    reveal_strlit("text");
    assert("text"@.len() == 4);
    reveal_strlit("user_id");
    assert("user_id"@.len() == 7);
    assert("chat_id"@[0] == 'c');
    assert("user_id"@[0] == 'u');
    assert("metadata"@[0] == 'm');
    assert("platform"@[0] == 'p');
    assert("metadata"@[0] == 'm');
    assert("reply_to"@[0] == 'r');
    assert("platform"@[0] == 'p');
    assert("reply_to"@[0] == 'r');
}

/// A [`ChannelInbound`] is read back from its document.
pub proof fn channel_inbound_round_trip(x: ChannelInboundView)
    ensures
        channel_inbound_of(channel_inbound_json(x)) == Some(x),
{
    channel_inbound_names_differ();
    let j = channel_inbound_json(x);
    text_map_read_back(j, "metadata"@, x.metadata);
}

/// The document of a [`ChannelOutbound`].
pub open spec fn channel_outbound_json(x: ChannelOutboundView) -> JsonView {
    JsonView::object().put(
        "platform"@,
        JsonView::Text(x.platform),
    ).put(
        "chat_id"@,
        JsonView::Text(x.chat_id),
    ).put(
        "text"@,
        JsonView::Text(x.text),
    ).put(
        "format"@,
        JsonView::Text(x.format),
    ).put(
        "reply_to"@,
        text_or_null(x.reply_to),
    ).put(
        "actions"@,
        channel_actions_json(x.actions),
    )
}

/// The [`ChannelOutbound`] that a document states.
pub open spec fn channel_outbound_of(j: JsonView) -> Option<ChannelOutboundView> {
    match (
        j.text_at("platform"@),
        j.text_at("chat_id"@),
        j.text_at("text"@),
        j.text_at("format"@),
        optional_text_at(j, "reply_to"@),
        default_channel_actions_at(j, "actions"@),
    ) {
        (Some(platform), Some(chat_id), Some(text), Some(format), Some(reply_to), Some(actions)) => Some(
            ChannelOutboundView { platform, chat_id, text, format, reply_to, actions },
        ),
        _ => None,
    }
}

/// The document of a [`ChannelOutbound`].
pub fn channel_outbound_document(x: &ChannelOutbound) -> (r: Json)
    ensures
        r@ == channel_outbound_json(x@),
{
    Json::object()
        .put("platform", Json::text(&x.platform))
        .put("chat_id", Json::text(&x.chat_id))
        .put("text", Json::text(&x.text))
        .put("format", Json::text(&x.format))
        .put("reply_to", Json::opt(&x.reply_to))
        .put("actions", channel_actions_document(&x.actions))
}

/// The [`ChannelOutbound`] that a document states.
pub fn read_channel_outbound(j: &Json) -> (r: Option<ChannelOutbound>)
    ensures
        view_opt(r) == channel_outbound_of(j@),
{
    match (
        j.text_at("platform"),
        j.text_at("chat_id"),
        j.text_at("text"),
        j.text_at("format"),
        read_optional_text_at(j, "reply_to"),
        read_default_channel_actions_at(j, "actions"),
    ) {
        (Some(platform), Some(chat_id), Some(text), Some(format), Some(reply_to), Some(actions)) => Some(
            ChannelOutbound { platform, chat_id, text, format, reply_to, actions },
        ),
        _ => None,
    }
}

/// The names of the fields are different.
proof fn channel_outbound_names_differ()
    ensures
        "actions"@ != "chat_id"@,
        "actions"@ != "format"@,
        "actions"@ != "platform"@,
        "actions"@ != "reply_to"@,
        "actions"@ != "text"@,
        "chat_id"@ != "format"@,
        "chat_id"@ != "platform"@,
        "chat_id"@ != "reply_to"@,
        "chat_id"@ != "text"@,
        "format"@ != "platform"@,
        "format"@ != "reply_to"@,
        "format"@ != "text"@,
        "platform"@ != "reply_to"@,
        "platform"@ != "text"@,
        "reply_to"@ != "text"@,
{
    reveal_strlit("actions");
    assert("actions"@.len() == 7);
    reveal_strlit("chat_id");
    assert("chat_id"@.len() == 7);
    reveal_strlit("format");
    assert("format"@.len() == 6);
    reveal_strlit("platform");
    assert("platform"@.len() == 8);
    reveal_strlit("reply_to");
    assert("reply_to"@.len() == 8);
    reveal_strlit("text");
    assert("text"@.len() == 4);
    assert("actions"@[0] == 'a');
    assert("chat_id"@[0] == 'c');
    assert("platform"@[0] == 'p');
    assert("reply_to"@[0] == 'r');
}

/// A [`ChannelOutbound`] is read back from its document.
pub proof fn channel_outbound_round_trip(x: ChannelOutboundView)
    ensures
        channel_outbound_of(channel_outbound_json(x)) == Some(x),
{
    channel_outbound_names_differ();
    let j = channel_outbound_json(x);
    channel_actions_read_back(j, "actions"@, x.actions);
}

/// The document of a [`PluginRegister`].
pub open spec fn plugin_register_json(x: PluginRegisterView) -> JsonView {
    JsonView::object().put(
        "id"@,
        JsonView::Text(x.id),
    ).put(
        "name"@,
        JsonView::Text(x.name),
    ).put(
        "version"@,
        JsonView::Text(x.version),
    ).put(
        "description"@,
        JsonView::Text(x.description),
    ).put(
        "consumes"@,
        text_array(x.consumes),
    ).put(
        "produces"@,
        text_array(x.produces),
    ).put(
        "health_subject"@,
        JsonView::Text(x.health_subject),
    ).put(
        "consumed_event_types"@,
        text_array(x.consumed_event_types),
    ).put(
        "produced_event_types"@,
        text_array(x.produced_event_types),
    ).put(
        "config_schema"@,
        json_or_null(x.config_schema),
    )
}

/// The [`PluginRegister`] that a document states.
pub open spec fn plugin_register_of(j: JsonView) -> Option<PluginRegisterView> {
    match (
        j.text_at("id"@),
        j.text_at("name"@),
        j.text_at("version"@),
        j.text_at("description"@),
        texts_at(j, "consumes"@),
        texts_at(j, "produces"@),
        j.text_at("health_subject"@),
        default_texts_at(j, "consumed_event_types"@),
        default_texts_at(j, "produced_event_types"@),
        optional_json_at(j, "config_schema"@),
    ) {
        (Some(id), Some(name), Some(version), Some(description), Some(consumes), Some(produces), Some(health_subject), Some(
            consumed_event_types,
        ), Some(produced_event_types), Some(config_schema)) => Some(
            PluginRegisterView {
                id,
                name,
                version,
                description,
                consumes,
                produces,
                health_subject,
                consumed_event_types,
                produced_event_types,
                config_schema,
            },
        ),
        _ => None,
    }
}

/// The document of a [`PluginRegister`].
pub fn plugin_register_document(x: &PluginRegister) -> (r: Json)
    ensures
        r@ == plugin_register_json(x@),
{
    Json::object()
        .put("id", Json::text(&x.id))
        .put("name", Json::text(&x.name))
        .put("version", Json::text(&x.version))
        .put("description", Json::text(&x.description))
        .put("consumes", Json::texts(&x.consumes))
        .put("produces", Json::texts(&x.produces))
        .put("health_subject", Json::text(&x.health_subject))
        .put("consumed_event_types", Json::texts(&x.consumed_event_types))
        .put("produced_event_types", Json::texts(&x.produced_event_types))
        .put("config_schema", json_opt_document(&x.config_schema))
}

/// The [`PluginRegister`] that a document states.
pub fn read_plugin_register(j: &Json) -> (r: Option<PluginRegister>)
    ensures
        view_opt(r) == plugin_register_of(j@),
{
    match (
        j.text_at("id"),
        j.text_at("name"),
        j.text_at("version"),
        j.text_at("description"),
        read_texts_at(j, "consumes"),
        read_texts_at(j, "produces"),
        j.text_at("health_subject"),
        read_default_texts_at(j, "consumed_event_types"),
        read_default_texts_at(j, "produced_event_types"),
        read_optional_json_at(j, "config_schema"),
    ) {
        (Some(id), Some(name), Some(version), Some(description), Some(consumes), Some(produces), Some(health_subject), Some(
            consumed_event_types,
        ), Some(produced_event_types), Some(config_schema)) => Some(
            PluginRegister {
                id,
                name,
                version,
                description,
                consumes,
                produces,
                health_subject,
                consumed_event_types,
                produced_event_types,
                config_schema,
            },
        ),
        _ => None,
    }
}

/// The names of the fields are different.
proof fn plugin_register_names_differ()
    ensures
        "config_schema"@ != "consumed_event_types"@,
        "config_schema"@ != "consumes"@,
        "config_schema"@ != "description"@,
        "config_schema"@ != "health_subject"@,
        "config_schema"@ != "id"@,
        "config_schema"@ != "name"@,
        "config_schema"@ != "produced_event_types"@,
        "config_schema"@ != "produces"@,
        "config_schema"@ != "version"@,
        "consumed_event_types"@ != "consumes"@,
        "consumed_event_types"@ != "description"@,
        "consumed_event_types"@ != "health_subject"@,
        "consumed_event_types"@ != "id"@,
        "consumed_event_types"@ != "name"@,
        "consumed_event_types"@ != "produced_event_types"@,
        "consumed_event_types"@ != "produces"@,
        "consumed_event_types"@ != "version"@,
        "consumes"@ != "description"@,
        "consumes"@ != "health_subject"@,
        "consumes"@ != "id"@,
        "consumes"@ != "name"@,
        "consumes"@ != "produced_event_types"@,
        "consumes"@ != "produces"@,
        "consumes"@ != "version"@,
        "description"@ != "health_subject"@,
        "description"@ != "id"@,
        "description"@ != "name"@,
        "description"@ != "produced_event_types"@,
        "description"@ != "produces"@,
        "description"@ != "version"@,
        "health_subject"@ != "id"@,
        "health_subject"@ != "name"@,
        "health_subject"@ != "produced_event_types"@,
        "health_subject"@ != "produces"@,
        "health_subject"@ != "version"@,
        "id"@ != "name"@,
        "id"@ != "produced_event_types"@,
        "id"@ != "produces"@,
        "id"@ != "version"@,
        "name"@ != "produced_event_types"@,
        "name"@ != "produces"@,
        "name"@ != "version"@,
        "produced_event_types"@ != "produces"@,
        "produced_event_types"@ != "version"@,
        "produces"@ != "version"@,
{
    reveal_strlit("config_schema");
    assert("config_schema"@.len() == 13);
    reveal_strlit("consumed_event_types");
    assert("consumed_event_types"@.len() == 20);
    reveal_strlit("consumes");
    assert("consumes"@.len() == 8);
    reveal_strlit("description");
    assert("description"@.len() == 11);
    reveal_strlit("health_subject");
    assert("health_subject"@.len() == 14);
    reveal_strlit("id");
    assert("id"@.len() == 2);
    reveal_strlit("name");
    assert("name"@.len() == 4);
    reveal_strlit("produced_event_types");
    assert("produced_event_types"@.len() == 20);
    reveal_strlit("produces");
    assert("produces"@.len() == 8);
    reveal_strlit("version");
    assert("version"@.len() == 7);
    assert("consumed_event_types"@[0] == 'c');
    assert("produced_event_types"@[0] == 'p');
    assert("consumes"@[0] == 'c');
    assert("produces"@[0] == 'p');
}

/// A [`PluginRegister`] is read back from its document.
pub proof fn plugin_register_round_trip(x: PluginRegisterView)
    requires
        x.config_schema != Some(JsonView::Null),
    ensures
        plugin_register_of(plugin_register_json(x)) == Some(x),
{
    plugin_register_names_differ();
    let j = plugin_register_json(x);
    text_array_read_back(j, "consumes"@, x.consumes);
    text_array_read_back(j, "produces"@, x.produces);
    text_array_read_back(j, "consumed_event_types"@, x.consumed_event_types);
    text_array_read_back(j, "produced_event_types"@, x.produced_event_types);
}

/// The document of a [`ToolRegister`].
pub open spec fn tool_register_json(x: ToolRegisterView) -> JsonView {
    JsonView::object().put(
        "tool_id"@,
        JsonView::Text(x.tool_id),
    ).put(
        "plugin_id"@,
        JsonView::Text(x.plugin_id),
    ).put(
        "name"@,
        JsonView::Text(x.name),
    ).put(
        "summary_md"@,
        JsonView::Text(x.summary_md),
    ).put(
        "manual_md"@,
        JsonView::Text(x.manual_md),
    ).put(
        "parameters"@,
        x.parameters,
    ).put(
        "call_subject"@,
        JsonView::Text(x.call_subject),
    ).put(
        "kind"@,
        JsonView::Text(x.kind),
    )
}

/// The [`ToolRegister`] that a document states.
pub open spec fn tool_register_of(j: JsonView) -> Option<ToolRegisterView> {
    match (
        j.text_at("tool_id"@),
        j.text_at("plugin_id"@),
        j.text_at("name"@),
        j.text_at("summary_md"@),
        j.text_at("manual_md"@),
        j.get("parameters"@),
        j.text_at("call_subject"@),
        j.text_at("kind"@),
    ) {
        (Some(tool_id), Some(plugin_id), Some(name), Some(summary_md), Some(manual_md), Some(parameters), Some(
            call_subject,
        ), Some(kind)) => Some(
            ToolRegisterView {
                tool_id,
                plugin_id,
                name,
                summary_md,
                manual_md,
                parameters,
                call_subject,
                kind,
            },
        ),
        _ => None,
    }
}

/// The document of a [`ToolRegister`].
pub fn tool_register_document(x: &ToolRegister) -> (r: Json)
    ensures
        r@ == tool_register_json(x@),
{
    Json::object()
        .put("tool_id", Json::text(&x.tool_id))
        .put("plugin_id", Json::text(&x.plugin_id))
        .put("name", Json::text(&x.name))
        .put("summary_md", Json::text(&x.summary_md))
        .put("manual_md", Json::text(&x.manual_md))
        .put("parameters", x.parameters.copy())
        .put("call_subject", Json::text(&x.call_subject))
        .put("kind", Json::text(&x.kind))
}

/// The [`ToolRegister`] that a document states.
pub fn read_tool_register(j: &Json) -> (r: Option<ToolRegister>)
    ensures
        view_opt(r) == tool_register_of(j@),
{
    match (
        j.text_at("tool_id"),
        j.text_at("plugin_id"),
        j.text_at("name"),
        j.text_at("summary_md"),
        j.text_at("manual_md"),
        read_json_at(j, "parameters"),
        j.text_at("call_subject"),
        j.text_at("kind"),
    ) {
        (Some(tool_id), Some(plugin_id), Some(name), Some(summary_md), Some(manual_md), Some(parameters), Some(
            call_subject,
        ), Some(kind)) => Some(
            ToolRegister {
                tool_id,
                plugin_id,
                name,
                summary_md,
                manual_md,
                parameters,
                call_subject,
                kind,
            },
        ),
        _ => None,
    }
}

/// The names of the fields are different.
proof fn tool_register_names_differ()
    ensures
        "call_subject"@ != "kind"@,
        "call_subject"@ != "manual_md"@,
        "call_subject"@ != "name"@,
        "call_subject"@ != "parameters"@,
        "call_subject"@ != "plugin_id"@,
        "call_subject"@ != "summary_md"@,
        "call_subject"@ != "tool_id"@,
        "kind"@ != "manual_md"@,
        "kind"@ != "name"@,
        "kind"@ != "parameters"@,
        "kind"@ != "plugin_id"@,
        "kind"@ != "summary_md"@,
        "kind"@ != "tool_id"@,
        "manual_md"@ != "name"@,
        "manual_md"@ != "parameters"@,
        "manual_md"@ != "plugin_id"@,
        "manual_md"@ != "summary_md"@,
        "manual_md"@ != "tool_id"@,
        "name"@ != "parameters"@,
        "name"@ != "plugin_id"@,
        "name"@ != "summary_md"@,
        "name"@ != "tool_id"@,
        "parameters"@ != "plugin_id"@,
        "parameters"@ != "summary_md"@,
        "parameters"@ != "tool_id"@,
        "plugin_id"@ != "summary_md"@,
        "plugin_id"@ != "tool_id"@,
        "summary_md"@ != "tool_id"@,
{
    reveal_strlit("call_subject");
    assert("call_subject"@.len() == 12);
    reveal_strlit("kind");
    assert("kind"@.len() == 4);
    reveal_strlit("manual_md");
    assert("manual_md"@.len() == 9);
    reveal_strlit("name");
    assert("name"@.len() == 4);
    reveal_strlit("parameters");
    assert("parameters"@.len() == 10);
    reveal_strlit("plugin_id");
    assert("plugin_id"@.len() == 9);
    reveal_strlit("summary_md");
    assert("summary_md"@.len() == 10);
    reveal_strlit("tool_id");
    assert("tool_id"@.len() == 7);
    assert("kind"@[0] == 'k');
    assert("name"@[0] == 'n');
    assert("manual_md"@[0] == 'm');
    assert("plugin_id"@[0] == 'p');
    assert("parameters"@[0] == 'p');
    assert("summary_md"@[0] == 's');
}

/// A [`ToolRegister`] is read back from its document.
pub proof fn tool_register_round_trip(x: ToolRegisterView)
    ensures
        tool_register_of(tool_register_json(x)) == Some(x),
{
    tool_register_names_differ();
    let j = tool_register_json(x);
}

/// An event with what is known of where it comes from.
pub struct EventEnvelope {
    pub id: String,
    pub event_type: String,
    pub timestamp: String,
    pub source: String,
    pub correlation_id: Option<String>,
    pub scope: Option<String>,
    pub payload: Json,
}

/// The mathematical content of a [`EventEnvelope`].
pub struct EventEnvelopeView {
    pub id: Seq<char>,
    pub event_type: Seq<char>,
    pub timestamp: Seq<char>,
    pub source: Seq<char>,
    pub correlation_id: Option<Seq<char>>,
    pub scope: Option<Seq<char>>,
    pub payload: JsonView,
}

impl View for EventEnvelope {
    type V = EventEnvelopeView;

    open spec fn view(&self) -> EventEnvelopeView {
        EventEnvelopeView {
            id: self.id@,
            event_type: self.event_type@,
            timestamp: self.timestamp@,
            source: self.source@,
            correlation_id: view_opt(self.correlation_id),
            scope: view_opt(self.scope),
            payload: self.payload@,
        }
    }
}

impl Duplicate for EventEnvelope {
    fn copy(&self) -> (r: EventEnvelope) {
        EventEnvelope {
            id: self.id.clone(),
            event_type: self.event_type.clone(),
            timestamp: self.timestamp.clone(),
            source: self.source.clone(),
            correlation_id: duplicate_opt(&self.correlation_id),
            scope: duplicate_opt(&self.scope),
            payload: self.payload.copy(),
        }
    }
}

/// The document of a [`EventEnvelope`].
pub open spec fn event_envelope_json(x: EventEnvelopeView) -> JsonView {
    JsonView::object().put(
        "id"@,
        JsonView::Text(x.id),
    ).put(
        "event_type"@,
        JsonView::Text(x.event_type),
    ).put(
        "timestamp"@,
        JsonView::Text(x.timestamp),
    ).put(
        "source"@,
        JsonView::Text(x.source),
    ).put(
        "correlation_id"@,
        text_or_null(x.correlation_id),
    ).put(
        "scope"@,
        text_or_null(x.scope),
    ).put(
        "payload"@,
        x.payload,
    )
}

/// The [`EventEnvelope`] that a document states.
pub open spec fn event_envelope_of(j: JsonView) -> Option<EventEnvelopeView> {
    match (
        j.text_at("id"@),
        j.text_at("event_type"@),
        j.text_at("timestamp"@),
        j.text_at("source"@),
        optional_text_at(j, "correlation_id"@),
        optional_text_at(j, "scope"@),
        j.get("payload"@),
    ) {
        (Some(id), Some(event_type), Some(timestamp), Some(source), Some(
            correlation_id,
        ), Some(scope), Some(payload)) => Some(
            EventEnvelopeView { id, event_type, timestamp, source, correlation_id, scope, payload },
        ),
        _ => None,
    }
}

/// The document of a [`EventEnvelope`].
pub fn event_envelope_document(x: &EventEnvelope) -> (r: Json)
    ensures
        r@ == event_envelope_json(x@),
{
    Json::object()
        .put("id", Json::text(&x.id))
        .put("event_type", Json::text(&x.event_type))
        .put("timestamp", Json::text(&x.timestamp))
        .put("source", Json::text(&x.source))
        .put("correlation_id", Json::opt(&x.correlation_id))
        .put("scope", Json::opt(&x.scope))
        .put("payload", x.payload.copy())
}

/// The [`EventEnvelope`] that a document states.
pub fn read_event_envelope(j: &Json) -> (r: Option<EventEnvelope>)
    ensures
        view_opt(r) == event_envelope_of(j@),
{
    match (
        j.text_at("id"),
        j.text_at("event_type"),
        j.text_at("timestamp"),
        j.text_at("source"),
        read_optional_text_at(j, "correlation_id"),
        read_optional_text_at(j, "scope"),
        read_json_at(j, "payload"),
    ) {
        (Some(id), Some(event_type), Some(timestamp), Some(source), Some(
            correlation_id,
        ), Some(scope), Some(payload)) => Some(
            EventEnvelope { id, event_type, timestamp, source, correlation_id, scope, payload },
        ),
        _ => None,
    }
}

/// The names of the fields are different.
proof fn event_envelope_names_differ()
    ensures
        "correlation_id"@ != "event_type"@,
        "correlation_id"@ != "id"@,
        "correlation_id"@ != "payload"@,
        "correlation_id"@ != "scope"@,
        "correlation_id"@ != "source"@,
        "correlation_id"@ != "timestamp"@,
        "event_type"@ != "id"@,
        "event_type"@ != "payload"@,
        "event_type"@ != "scope"@,
        "event_type"@ != "source"@,
        "event_type"@ != "timestamp"@,
        "id"@ != "payload"@,
        "id"@ != "scope"@,
        "id"@ != "source"@,
        "id"@ != "timestamp"@,
        "payload"@ != "scope"@,
        "payload"@ != "source"@,
        "payload"@ != "timestamp"@,
        "scope"@ != "source"@,
        "scope"@ != "timestamp"@,
        "source"@ != "timestamp"@,
{
    reveal_strlit("correlation_id");
    assert("correlation_id"@.len() == 14);
    reveal_strlit("event_type");
    assert("event_type"@.len() == 10);
    reveal_strlit("id");
    assert("id"@.len() == 2);
    reveal_strlit("payload");
    assert("payload"@.len() == 7);
    reveal_strlit("scope");
    assert("scope"@.len() == 5);
    reveal_strlit("source");
    assert("source"@.len() == 6);
    reveal_strlit("timestamp");
    assert("timestamp"@.len() == 9);
}

/// A [`EventEnvelope`] is read back from its document.
pub proof fn event_envelope_round_trip(x: EventEnvelopeView)
    ensures
        event_envelope_of(event_envelope_json(x)) == Some(x),
{
    event_envelope_names_differ();
    let j = event_envelope_json(x);
}

impl EventEnvelope {
    /// Wraps a payload: under a new id, at the current time.
    pub fn new(
        event_type: &str,
        source: &str,
        correlation_id: Option<String>,
        scope: Option<String>,
        payload: Json,
    ) -> (r: EventEnvelope)
        ensures
            r@ == (EventEnvelopeView {
                id: r@.id,
                event_type: event_type@,
                timestamp: r@.timestamp,
                source: source@,
                correlation_id: view_opt(correlation_id),
                scope: view_opt(scope),
                payload: payload@,
            }),
            r@.id.len() == 26,
    {
        EventEnvelope {
            id: new_ulid(),
            event_type: own(event_type),
            timestamp: rfc3339_now(),
            source: own(source),
            correlation_id,
            scope,
            payload,
        }
    }

    /// Reads an envelope from bytes.
    pub fn decode(bytes: &[u8]) -> (r: Option<EventEnvelope>)
        ensures
            view_opt(r) == envelope_in(json_of_bytes(bytes@)),
    {
        match Json::parse_bytes(bytes) {
            Ok(j) => read_event_envelope(&j),
            Err(_) => None,
        }
    }
}

/// The envelope that a decoded message states.
pub open spec fn envelope_in(body: Result<JsonView, Seq<char>>) -> Option<EventEnvelopeView> {
    match body {
        Ok(j) => event_envelope_of(j),
        Err(_) => None,
    }
}

/// Each field of an inbound message stands under its own name.
pub proof fn inbound_is_written(x: ChannelInboundView)
    ensures
        channel_inbound_json(x).text_at("platform"@) == Some(x.platform),
        channel_inbound_json(x).text_at("user_id"@) == Some(x.user_id),
        channel_inbound_json(x).text_at("chat_id"@) == Some(x.chat_id),
        channel_inbound_json(x).text_at("text"@) == Some(x.text),
        optional_text_at(channel_inbound_json(x), "reply_to"@) == Some(x.reply_to),
        channel_inbound_json(x).array_at("attachments"@) == Some(x.attachments),
        default_text_map_at(channel_inbound_json(x), "metadata"@) == Some(x.metadata),
{
    reveal_strlit("platform");
    reveal_strlit("user_id");
    reveal_strlit("chat_id");
    reveal_strlit("text");
    reveal_strlit("reply_to");
    reveal_strlit("attachments");
    reveal_strlit("metadata");
    assert("platform"@.len() == 8);
    assert("user_id"@.len() == 7);
    assert("chat_id"@.len() == 7);
    assert("text"@.len() == 4);
    assert("reply_to"@.len() == 8);
    assert("attachments"@.len() == 11);
    assert("metadata"@.len() == 8);
    assert("platform"@[0] != "reply_to"@[0]);
    assert("platform"@[0] != "metadata"@[0]);
    assert("user_id"@[0] != "chat_id"@[0]);
    assert("reply_to"@[0] != "metadata"@[0]);
    text_map_read_back(channel_inbound_json(x), "metadata"@, x.metadata);
}

/// Each field of an outbound message stands under its own name.
pub proof fn outbound_is_written(x: ChannelOutboundView)
    ensures
        channel_outbound_json(x).text_at("platform"@) == Some(x.platform),
        channel_outbound_json(x).text_at("chat_id"@) == Some(x.chat_id),
        channel_outbound_json(x).text_at("text"@) == Some(x.text),
        channel_outbound_json(x).text_at("format"@) == Some(x.format),
        optional_text_at(channel_outbound_json(x), "reply_to"@) == Some(x.reply_to),
        channel_outbound_json(x).get("actions"@) == Some(channel_actions_json(x.actions)),
{
    reveal_strlit("platform");
    reveal_strlit("chat_id");
    reveal_strlit("text");
    reveal_strlit("format");
    reveal_strlit("reply_to");
    reveal_strlit("actions");
    assert("platform"@.len() == 8);
    assert("chat_id"@.len() == 7);
    assert("text"@.len() == 4);
    assert("format"@.len() == 6);
    assert("reply_to"@.len() == 8);
    assert("actions"@.len() == 7);
    assert("platform"@[0] != "reply_to"@[0]);
    assert("chat_id"@[0] != "actions"@[0]);

}

/// Each field of an action stands under its own name.
pub proof fn action_is_written(x: ChannelActionView)
    ensures
        channel_action_json(x).text_at("label"@) == Some(x.label),
        channel_action_json(x).text_at("action_type"@) == Some(x.action_type),
        channel_action_json(x).text_at("value"@) == Some(x.value),
{
    reveal_strlit("label");
    reveal_strlit("action_type");
    reveal_strlit("value");
    assert("label"@.len() == 5);
    assert("action_type"@.len() == 11);
    assert("value"@.len() == 5);
    assert("label"@[0] != "value"@[0]);

}

/// Each field of a registration stands under its own name.
pub proof fn plugin_is_written(x: PluginRegisterView)
    ensures
        plugin_register_json(x).text_at("id"@) == Some(x.id),
        plugin_register_json(x).text_at("name"@) == Some(x.name),
        plugin_register_json(x).text_at("version"@) == Some(x.version),
        plugin_register_json(x).text_at("description"@) == Some(x.description),
        texts_at(plugin_register_json(x), "consumes"@) == Some(x.consumes),
        texts_at(plugin_register_json(x), "produces"@) == Some(x.produces),
        plugin_register_json(x).text_at("health_subject"@) == Some(x.health_subject),
        texts_at(plugin_register_json(x), "consumed_event_types"@) == Some(x.consumed_event_types),
        texts_at(plugin_register_json(x), "produced_event_types"@) == Some(x.produced_event_types),
        plugin_register_json(x).get("config_schema"@) == Some(json_or_null(x.config_schema)),
{
    reveal_strlit("id");
    reveal_strlit("name");
    reveal_strlit("version");
    reveal_strlit("description");
    reveal_strlit("consumes");
    reveal_strlit("produces");
    reveal_strlit("health_subject");
    reveal_strlit("consumed_event_types");
    reveal_strlit("produced_event_types");
    reveal_strlit("config_schema");
    assert("id"@.len() == 2);
    assert("name"@.len() == 4);
    assert("version"@.len() == 7);
    assert("description"@.len() == 11);
    assert("consumes"@.len() == 8);
    assert("produces"@.len() == 8);
    assert("health_subject"@.len() == 14);
    assert("consumed_event_types"@.len() == 20);
    assert("produced_event_types"@.len() == 20);
    assert("config_schema"@.len() == 13);
    assert("consumes"@[0] != "produces"@[0]);
    assert("consumed_event_types"@[0] != "produced_event_types"@[0]);
    text_array_read_back(plugin_register_json(x), "consumes"@, x.consumes);
    text_array_read_back(plugin_register_json(x), "produces"@, x.produces);
    text_array_read_back(plugin_register_json(x), "consumed_event_types"@, x.consumed_event_types);
    text_array_read_back(plugin_register_json(x), "produced_event_types"@, x.produced_event_types);
}

/// Each field of a tool stands under its own name.
pub proof fn tool_is_written(x: ToolRegisterView)
    ensures
        tool_register_json(x).text_at("tool_id"@) == Some(x.tool_id),
        tool_register_json(x).text_at("plugin_id"@) == Some(x.plugin_id),
        tool_register_json(x).text_at("name"@) == Some(x.name),
        tool_register_json(x).text_at("summary_md"@) == Some(x.summary_md),
        tool_register_json(x).text_at("manual_md"@) == Some(x.manual_md),
        tool_register_json(x).get("parameters"@) == Some(x.parameters),
        tool_register_json(x).text_at("call_subject"@) == Some(x.call_subject),
        tool_register_json(x).text_at("kind"@) == Some(x.kind),
{
    reveal_strlit("tool_id");
    reveal_strlit("plugin_id");
    reveal_strlit("name");
    reveal_strlit("summary_md");
    reveal_strlit("manual_md");
    reveal_strlit("parameters");
    reveal_strlit("call_subject");
    reveal_strlit("kind");
    assert("tool_id"@.len() == 7);
    assert("plugin_id"@.len() == 9);
    assert("name"@.len() == 4);
    assert("summary_md"@.len() == 10);
    assert("manual_md"@.len() == 9);
    assert("parameters"@.len() == 10);
    assert("call_subject"@.len() == 12);
    assert("kind"@.len() == 4);
    assert("plugin_id"@[0] != "manual_md"@[0]);
    assert("name"@[0] != "kind"@[0]);
    assert("summary_md"@[0] != "parameters"@[0]);

}

/// Each field of an event stands under its own name.
pub proof fn envelope_is_written(x: EventEnvelopeView)
    ensures
        event_envelope_json(x).text_at("id"@) == Some(x.id),
        event_envelope_json(x).text_at("event_type"@) == Some(x.event_type),
        event_envelope_json(x).text_at("timestamp"@) == Some(x.timestamp),
        event_envelope_json(x).text_at("source"@) == Some(x.source),
        optional_text_at(event_envelope_json(x), "correlation_id"@) == Some(x.correlation_id),
        optional_text_at(event_envelope_json(x), "scope"@) == Some(x.scope),
        event_envelope_json(x).get("payload"@) == Some(x.payload),
{
    reveal_strlit("id");
    reveal_strlit("event_type");
    reveal_strlit("timestamp");
    reveal_strlit("source");
    reveal_strlit("correlation_id");
    reveal_strlit("scope");
    reveal_strlit("payload");
    assert("id"@.len() == 2);
    assert("event_type"@.len() == 10);
    assert("timestamp"@.len() == 9);
    assert("source"@.len() == 6);
    assert("correlation_id"@.len() == 14);
    assert("scope"@.len() == 5);
    assert("payload"@.len() == 7);

}

/// Each field of a fact to store stands under its own name.
pub proof fn fact_is_written(x: FactUpsertRequestView)
    ensures
        fact_upsert_json(x).text_at("subject"@) == Some(x.subject),
        fact_upsert_json(x).text_at("predicate"@) == Some(x.predicate),
        optional_text_at(fact_upsert_json(x), "object"@) == Some(x.object),
        optional_text_at(fact_upsert_json(x), "value"@) == Some(x.value),
        fact_upsert_json(x).get("confidence"@) == Some(x.confidence),
        fact_upsert_json(x).text_at("source_content"@) == Some(x.source_content),
        fact_upsert_json(x).get("valid_from"@) == Some(JsonView::Null),
{
    reveal_strlit("subject");
    reveal_strlit("predicate");
    reveal_strlit("object");
    reveal_strlit("value");
    reveal_strlit("confidence");
    reveal_strlit("source_content");
    reveal_strlit("valid_from");
    assert("subject"@.len() == 7);
    assert("predicate"@.len() == 9);
    assert("object"@.len() == 6);
    assert("value"@.len() == 5);
    assert("confidence"@.len() == 10);
    assert("source_content"@.len() == 14);
    assert("valid_from"@.len() == 10);
    assert("confidence"@[0] != "valid_from"@[0]);

}

/// A record may be stated by an array with its fields in their order; an array of another length
/// states nothing, and an object states itself.
pub proof fn arrays_state_records(
    a: Seq<JsonView>,
    names: Seq<Seq<char>>,
    least: int,
    i: int,
    j: JsonView,
)
    requires
        forall|m: int, n: int|
            0 <= m < n < names.len() ==> #[trigger] names[m] != #[trigger] names[n],
    ensures
        least <= a.len() <= names.len() && 0 <= i < a.len() ==> record(
            JsonView::Array(a),
            names,
            least,
        ).get(names[i]) == Some(a[i]),
        a.len() < least || a.len() > names.len() ==> record(JsonView::Array(a), names, least)
            == JsonView::Null,
        !(j is Array) ==> record(j, names, least) == j,
{
    if least <= a.len() <= names.len() && 0 <= i < a.len() {
        listed_field(a, names, a.len(), i);
    }
}

/// A field among the first ones stands under its name.
proof fn listed_field(a: Seq<JsonView>, names: Seq<Seq<char>>, n: nat, i: int)
    requires
        n <= a.len(),
        n <= names.len(),
        forall|m: int, k: int|
            0 <= m < k < names.len() ==> #[trigger] names[m] != #[trigger] names[k],
    ensures
        0 <= i < n ==> listed(a, names, n).get(names[i]) == Some(a[i]),
        listed(a, names, n) is Object,
    decreases n,
{
    if n > 0 {
        listed_field(a, names, (n - 1) as nat, i);
        if 0 <= i < n - 1 {
            assert(names[i] != names[n - 1]);
        }
    }
}

/// A field is read as what it holds, and as nothing where it holds something else.
pub proof fn fields_are_read(j: JsonView, key: Seq<char>, n: int, b: bool, t: Seq<char>)
    ensures
        j.get(key) == Some(JsonView::Bool(b)) ==> bool_at(j, key) == Some(b),
        j.get(key) == Some(JsonView::Text(t)) ==> default_text_at(j, key, Seq::empty()) == Some(t)
            && optional_text_at(j, key) == Some(Some(t)),
        j.get(key) == Some(JsonView::Null) ==> optional_text_at(j, key) == Some(
            None::<Seq<char>>,
        ),
        j.get(key) == Some(JsonView::Int(n)) && i32::MIN <= n <= i32::MAX ==> i32_at(j, key)
            == Some(n),
        j.get(key) == Some(JsonView::Int(n)) && i64::MIN <= n <= i64::MAX ==> i64_at(j, key)
            == Some(n),
        j.get(key) == Some(JsonView::Int(n)) && 0 <= n <= u64::MAX ==> default_u64_at(j, key, 0)
            == Some(n),
        j.get(key) is None ==> bool_at(j, key) is None && default_text_at(j, key, t) == Some(t)
            && default_u64_at(j, key, n) == Some(n) && i32_at(j, key) is None && i64_at(
            j,
            key,
        ) is None,
        j.get(key) == Some(JsonView::Bool(b)) ==> i32_at(j, key) is None && default_text_at(
            j,
            key,
            t,
        ) is None && default_u64_at(j, key, n) is None && optional_text_at(j, key) is None,
{
}

/// An event is what its document states; what is no document states none.
pub proof fn envelopes_are_decoded(x: EventEnvelopeView, e: Seq<char>)
    ensures
        envelope_in(Ok(event_envelope_json(x))) == Some(x),
        envelope_in(Err(e)) is None,
{
    event_envelope_round_trip(x);
}

/// A number is read as it is written, whatever its kind; nothing else is a number.
pub proof fn numbers_are_read(j: JsonView, key: Seq<char>, v: JsonView, d: Seq<char>)
    ensures
        j.get(key) == Some(v) && (v is Int || v is Float) ==> number_at(j, key) == Some(v)
            && default_number_at(j, key, d) == Some(v),
        j.get(key) == Some(v) && !(v is Int) && !(v is Float) ==> number_at(j, key) is None
            && default_number_at(j, key, d) is None,
        j.get(key) is None ==> number_at(j, key) is None && default_number_at(j, key, d) == Some(
            JsonView::Float(d),
        ),
{
}

/// An array names its kind in its first place.
pub proof fn kind_comes_first(a: Seq<JsonView>, kind: Seq<char>)
    ensures
        a.len() > 0 && a[0] == JsonView::Text(kind) ==> first_kind(JsonView::Array(a)) == kind,
        a.len() == 0 ==> first_kind(JsonView::Array(a)).len() == 0,
        first_kind(JsonView::object()).len() == 0,
{
}

} // verus!
