//! JSON documents as plain values.
//!
//! A [`Json`] owns its parts; its view is a [`JsonView`], where an object is a
//! map, so that neither the order of fields nor a repeated key can be observed:
//! of two fields with one key the later one counts.
use crate::text::{own, same, view_opt, views};
use vstd::prelude::*;

verus! {

/// A JSON document.
#[derive(Debug)]
pub enum Json {
    Null,
    Bool(bool),
    /// An integer from zero up.
    Unsigned(u64),
    /// An integer written with a sign.
    Signed(i64),
    /// Any other number, as its numeral.
    Float(String),
    Text(String),
    Array(Vec<Json>),
    Object(Vec<(String, Json)>),
}

/// What a JSON document says.
pub enum JsonView {
    Null,
    Bool(bool),
    Int(int),
    Float(Seq<char>),
    Text(Seq<char>),
    Array(Seq<JsonView>),
    Object(Map<Seq<char>, JsonView>),
}

/// The view of a document.
pub open spec fn json_view(j: Json) -> JsonView
    decreases j,
{
    match j {
        Json::Null => JsonView::Null,
        Json::Bool(b) => JsonView::Bool(b),
        Json::Unsigned(n) => JsonView::Int(n as int),
        Json::Signed(n) => JsonView::Int(n as int),
        Json::Float(s) => JsonView::Float(s@),
        Json::Text(s) => JsonView::Text(s@),
        Json::Array(v) => JsonView::Array(items_view(v@)),
        Json::Object(v) => JsonView::Object(fields_view(v@)),
    }
}

/// The views of a list of documents.
pub open spec fn items_view(s: Seq<Json>) -> Seq<JsonView>
    decreases s,
{
    if s.len() == 0 {
        Seq::empty()
    } else {
        items_view(s.drop_last()).push(json_view(s.last()))
    }
}

/// The map that a list of fields makes, later fields over earlier ones.
pub open spec fn fields_view(s: Seq<(String, Json)>) -> Map<Seq<char>, JsonView>
    decreases s,
{
    if s.len() == 0 {
        Map::empty()
    } else {
        fields_view(s.drop_last()).insert(s.last().0@, json_view(s.last().1))
    }
}

impl View for Json {
    type V = JsonView;

    open spec fn view(&self) -> JsonView {
        json_view(*self)
    }
}

impl JsonView {
    /// The object without fields.
    pub open spec fn object() -> JsonView {
        JsonView::Object(Map::empty())
    }

    /// An object with one more field.
    pub open spec fn put(self, key: Seq<char>, value: JsonView) -> JsonView {
        match self {
            JsonView::Object(m) => JsonView::Object(m.insert(key, value)),
            _ => self,
        }
    }

    /// The field of an object.
    pub open spec fn get(self, key: Seq<char>) -> Option<JsonView> {
        match self {
            JsonView::Object(m) => if m.contains_key(key) {
                Some(m[key])
            } else {
                None
            },
            _ => None,
        }
    }

    /// The string that the document is.
    pub open spec fn as_text(self) -> Option<Seq<char>> {
        match self {
            JsonView::Text(s) => Some(s),
            _ => None,
        }
    }

    /// The string in a field of an object.
    pub open spec fn text_at(self, key: Seq<char>) -> Option<Seq<char>> {
        match self.get(key) {
            Some(v) => v.as_text(),
            None => None,
        }
    }

    /// The string in a field of an object, or `d`.
    pub open spec fn text_or(self, key: Seq<char>, d: Seq<char>) -> Seq<char> {
        match self.text_at(key) {
            Some(s) => s,
            None => d,
        }
    }

    /// The unsigned 64-bit integer that the document is.
    pub open spec fn as_u64(self) -> Option<int> {
        match self {
            JsonView::Int(n) => if 0 <= n <= u64::MAX {
                Some(n)
            } else {
                None
            },
            _ => None,
        }
    }

    /// The unsigned integer in a field of an object.
    pub open spec fn u64_at(self, key: Seq<char>) -> Option<int> {
        match self.get(key) {
            Some(v) => v.as_u64(),
            None => None,
        }
    }

    /// The signed 64-bit integer that the document is.
    pub open spec fn as_i64(self) -> Option<int> {
        match self {
            JsonView::Int(n) => if i64::MIN <= n <= i64::MAX {
                Some(n)
            } else {
                None
            },
            _ => None,
        }
    }

    /// The truth value that the document is.
    pub open spec fn as_bool(self) -> Option<bool> {
        match self {
            JsonView::Bool(b) => Some(b),
            _ => None,
        }
    }

    /// The elements of the array that the document is.
    pub open spec fn as_array(self) -> Option<Seq<JsonView>> {
        match self {
            JsonView::Array(s) => Some(s),
            _ => None,
        }
    }

    /// The elements of the array in a field of an object.
    pub open spec fn array_at(self, key: Seq<char>) -> Option<Seq<JsonView>> {
        match self.get(key) {
            Some(v) => v.as_array(),
            None => None,
        }
    }

    /// The document holds no number but integers.
    pub open spec fn float_free(self) -> bool
        decreases self,
    {
        match self {
            JsonView::Float(_) => false,
            JsonView::Array(s) => forall|i: int| 0 <= i < s.len() ==> s[i].float_free(),
            JsonView::Object(m) => forall|k: Seq<char>| m.contains_key(k) ==> m[k].float_free(),
            _ => true,
        }
    }

    /// The document can be printed and read back as it is: it holds no number but
    /// integers, no key that `serde_json` keeps for itself, and at most `depth`
    /// arrays and objects in one another.
    pub open spec fn portable(self, depth: nat) -> bool
        decreases self,
    {
        match self {
            JsonView::Float(_) => false,
            JsonView::Array(s) => depth > 0 && forall|i: int|
                0 <= i < s.len() ==> s[i].portable((depth - 1) as nat),
            JsonView::Object(m) => depth > 0 && forall|k: Seq<char>|
                m.contains_key(k) ==> k != "$serde_json::private::Number"@ && k
                    != "$serde_json::private::RawValue"@ && m[k].portable((depth - 1) as nat),
            _ => true,
        }
    }
}

/// A portable document holds no number but integers.
pub proof fn portable_is_float_free(j: JsonView, depth: nat)
    requires
        j.portable(depth),
    ensures
        j.float_free(),
    decreases j,
{
    match j {
        JsonView::Array(s) => {
            assert forall|i: int| 0 <= i < s.len() implies s[i].float_free() by {
                portable_is_float_free(s[i], (depth - 1) as nat);
            }
        },
        JsonView::Object(m) => {
            assert forall|k: Seq<char>| m.contains_key(k) implies m[k].float_free() by {
                portable_is_float_free(m[k], (depth - 1) as nat);
            }
        },
        _ => {},
    }
}

/// A string, or the null document when there is none.
pub open spec fn text_or_null(o: Option<Seq<char>>) -> JsonView {
    match o {
        Some(s) => JsonView::Text(s),
        None => JsonView::Null,
    }
}

/// An array of strings.
pub open spec fn text_array(s: Seq<Seq<char>>) -> JsonView {
    JsonView::Array(Seq::new(s.len(), |i: int| JsonView::Text(s[i])))
}

/// Position by position, the view of a list of documents.
pub proof fn items_view_index(s: Seq<Json>)
    ensures
        items_view(s) == views(s),
    decreases s.len(),
{
    if s.len() > 0 {
        items_view_index(s.drop_last());
        assert(items_view(s) =~= views(s));
    } else {
        assert(items_view(s) =~= views(s));
    }
}

/// The last field with a key decides what the key maps to.
pub proof fn fields_view_last(s: Seq<(String, Json)>, key: Seq<char>, i: int)
    requires
        -1 <= i < s.len(),
        i >= 0 ==> s[i].0@ == key,
        forall|k: int| i < k < s.len() ==> s[k].0@ != key,
    ensures
        fields_view(s).contains_key(key) == (i >= 0),
        i >= 0 ==> fields_view(s)[key] == s[i].1@,
    decreases s.len(),
{
    if s.len() > 0 {
        if i < s.len() - 1 {
            fields_view_last(s.drop_last(), key, i);
        }
    }
}

impl Json {
    /// The object without fields.
    pub fn object() -> (r: Json)
        ensures
            r@ == JsonView::object(),
            r is Object,
    {
        Json::Object(Vec::new())
    }

    /// An object with one more field.
    pub fn put(self, key: &str, value: Json) -> (r: Json)
        ensures
            r@ == self@.put(key@, value@),
            r is Object == self is Object,
    {
        match self {
            Json::Object(v) => {
                let mut v = v;
                let ghost before = v@;
                v.push((own(key), value));
                proof {
                    assert(v@.drop_last() =~= before);
                }
                Json::Object(v)
            },
            other => other,
        }
    }

    /// The document that is one string.
    pub fn text(s: &str) -> (r: Json)
        ensures
            r@ == JsonView::Text(s@),
    {
        Json::Text(own(s))
    }

    /// The document of an optional string.
    pub fn opt(o: &Option<String>) -> (r: Json)
        ensures
            r@ == text_or_null(view_opt(*o)),
    {
        match o {
            Some(s) => Json::text(s),
            None => Json::Null,
        }
    }

    /// An array of strings.
    pub fn texts(v: &Vec<String>) -> (r: Json)
        ensures
            r@ == text_array(views(v@)),
    {
        let mut out: Vec<Json> = Vec::new();
        let mut i: usize = 0;
        while i < v.len()
            invariant
                i <= v@.len(),
                out@.len() == i,
                forall|k: int| 0 <= k < i ==> (#[trigger] out@[k])@ == JsonView::Text(v@[k]@),
            decreases v@.len() - i,
        {
            out.push(Json::text(&v[i]));
            i = i + 1;
        }
        proof {
            items_view_index(out@);
            assert(items_view(out@) =~= Seq::new(
                v@.len(),
                |i: int| JsonView::Text(views(v@)[i]),
            ));
        }
        Json::Array(out)
    }

    /// The field of an object.
    pub fn get(&self, key: &str) -> (r: Option<&Json>)
        ensures
            match r {
                Some(j) => self@.get(key@) == Some(j@),
                None => self@.get(key@) is None,
            },
    {
        match self {
            Json::Object(v) => {
                let mut i: usize = v.len();
                while i > 0
                    invariant
                        i <= v@.len(),
                        *self == Json::Object(*v),
                        forall|k: int| i <= k < v@.len() ==> v@[k].0@ != key@,
                    decreases i,
                {
                    if same(&v[i - 1].0, key) {
                        proof {
                            fields_view_last(v@, key@, i - 1);
                        }
                        return Some(&v[i - 1].1);
                    }
                    i = i - 1;
                }
                proof {
                    fields_view_last(v@, key@, -1);
                }
                None
            },
            _ => None,
        }
    }

    /// The string that the document is.
    pub fn as_str(&self) -> (r: Option<&str>)
        ensures
            match r {
                Some(s) => self@.as_text() == Some(s@),
                None => self@.as_text() is None,
            },
    {
        match self {
            Json::Text(s) => Some(s.as_str()),
            _ => None,
        }
    }

    /// The string in a field of an object.
    pub fn text_at(&self, key: &str) -> (r: Option<String>)
        ensures
            view_opt(r) == self@.text_at(key@),
    {
        match self.get(key) {
            Some(j) => match j {
                Json::Text(s) => Some(s.clone()),
                _ => None,
            },
            None => None,
        }
    }

    /// The string in a field of an object, or `d`.
    pub fn text_or(&self, key: &str, d: &str) -> (r: String)
        ensures
            r@ == self@.text_or(key@, d@),
    {
        match self.text_at(key) {
            Some(s) => s,
            None => own(d),
        }
    }

    /// The unsigned integer that the document is.
    pub fn as_u64(&self) -> (r: Option<u64>)
        ensures
            match r {
                Some(n) => self@.as_u64() == Some(n as int),
                None => self@.as_u64() is None,
            },
    {
        match self {
            Json::Unsigned(n) => Some(*n),
            Json::Signed(n) => if *n >= 0 {
                Some(*n as u64)
            } else {
                None
            },
            _ => None,
        }
    }

    /// The unsigned integer in a field of an object.
    pub fn u64_at(&self, key: &str) -> (r: Option<u64>)
        ensures
            match r {
                Some(n) => self@.u64_at(key@) == Some(n as int),
                None => self@.u64_at(key@) is None,
            },
    {
        match self.get(key) {
            Some(j) => j.as_u64(),
            None => None,
        }
    }

    /// The signed integer that the document is.
    pub fn as_i64(&self) -> (r: Option<i64>)
        ensures
            match r {
                Some(n) => self@.as_i64() == Some(n as int),
                None => self@.as_i64() is None,
            },
    {
        match self {
            Json::Unsigned(n) => if *n <= 0x7fff_ffff_ffff_ffff {
                Some(*n as i64)
            } else {
                None
            },
            Json::Signed(n) => Some(*n),
            _ => None,
        }
    }

    /// The truth value that the document is.
    pub fn as_bool(&self) -> (r: Option<bool>)
        ensures
            r == self@.as_bool(),
    {
        match self {
            Json::Bool(b) => Some(*b),
            _ => None,
        }
    }

    /// Whether the document is the null document.
    pub fn is_null(&self) -> (r: bool)
        ensures
            r == (self@ is Null),
    {
        match self {
            Json::Null => true,
            _ => false,
        }
    }

    /// A copy of the document.
    #[verifier::loop_isolation(false)]
    pub fn copy(&self) -> (r: Json)
        ensures
            r@ == self@,
        decreases self,
    {
        match self {
            Json::Null => Json::Null,
            Json::Bool(b) => Json::Bool(*b),
            Json::Unsigned(n) => Json::Unsigned(*n),
            Json::Signed(n) => Json::Signed(*n),
            Json::Float(s) => Json::Float(s.clone()),
            Json::Text(s) => Json::Text(s.clone()),
            Json::Array(v) => {
                let mut out: Vec<Json> = Vec::new();
                let mut i: usize = 0;
                while i < v.len()
                    invariant
                        i <= v@.len(),
                        items_view(out@) == items_view(v@.subrange(0, i as int)),
                        *self == Json::Array(*v),
                    decreases v@.len() - i,
                {
                    let ghost before = out@;
                    assert(decreases_to!(*v => v[i as int]));
                    let x = v[i].copy();
                    out.push(x);
                    proof {
                        assert(out@.drop_last() =~= before);
                        assert(v@.subrange(0, i + 1).drop_last() =~= v@.subrange(0, i as int));
                    }
                    i = i + 1;
                }
                proof {
                    assert(v@.subrange(0, i as int) =~= v@);
                }
                Json::Array(out)
            },
            Json::Object(v) => {
                let mut out: Vec<(String, Json)> = Vec::new();
                let mut i: usize = 0;
                while i < v.len()
                    invariant
                        i <= v@.len(),
                        fields_view(out@) == fields_view(v@.subrange(0, i as int)),
                        *self == Json::Object(*v),
                    decreases v@.len() - i,
                {
                    let ghost before = out@;
                    assert(decreases_to!(*v => v[i as int]));
                    let x = v[i].1.copy();
                    out.push((v[i].0.clone(), x));
                    proof {
                        assert(out@.drop_last() =~= before);
                        assert(v@.subrange(0, i + 1).drop_last() =~= v@.subrange(0, i as int));
                    }
                    i = i + 1;
                }
                proof {
                    assert(v@.subrange(0, i as int) =~= v@);
                }
                Json::Object(out)
            },
        }
    }
}

/// A document is read as what it is, within the bounds of what it is read as.
pub proof fn documents_are_read(n: int, t: Seq<char>, b: bool, a: Seq<JsonView>)
    ensures
        0 <= n <= u64::MAX ==> JsonView::Int(n).as_u64() == Some(n),
        n < 0 || n > u64::MAX ==> JsonView::Int(n).as_u64() is None,
        i64::MIN <= n <= i64::MAX ==> JsonView::Int(n).as_i64() == Some(n),
        n < i64::MIN || n > i64::MAX ==> JsonView::Int(n).as_i64() is None,
        JsonView::Text(t).as_text() == Some(t),
        JsonView::Bool(b).as_bool() == Some(b),
        JsonView::Array(a).as_array() == Some(a),
        JsonView::Text(t).as_u64() is None,
        JsonView::Text(t).as_bool() is None,
        JsonView::Text(t).as_array() is None,
        JsonView::Bool(b).as_text() is None,
        JsonView::Null.as_text() is None,
        text_or_null(Some(t)) == JsonView::Text(t),
        text_or_null(None) == JsonView::Null,
{
}

/// What is put under a name is found under it, and what stands under another name stays.
pub proof fn put_is_found(j: JsonView, key: Seq<char>, v: JsonView, other: Seq<char>)
    requires
        j is Object,
    ensures
        j.put(key, v).get(key) == Some(v),
        other != key ==> j.put(key, v).get(other) == j.get(other),
        JsonView::object().get(key) is None,
{
}

} // verus!
