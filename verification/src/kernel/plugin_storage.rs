//! Plugin storage: a key-value store for each plugin, kept as documents of one
//! collection.
use crate::duplicate::Duplicate;
use crate::json::{items_view_index, text_array, Json, JsonView};
use crate::text::{cat2, cat3, cat5, own, starts_with, view_opt, views};
use crate::wire::{
    bool_at, optional_text_at, read_bool_at, read_optional_text_at, read_texts_at,
    text_array_read_back, texts_at,
};
use vstd::prelude::*;

verus! {

/// A value to read.
pub struct StorageGetRequest {
    pub plugin_id: String,
    pub namespace: String,
    pub key: String,
}

/// The mathematical content of a [`StorageGetRequest`].
pub struct StorageGetRequestView {
    pub plugin_id: Seq<char>,
    pub namespace: Seq<char>,
    pub key: Seq<char>,
}

impl View for StorageGetRequest {
    type V = StorageGetRequestView;

    open spec fn view(&self) -> StorageGetRequestView {
        StorageGetRequestView {
            plugin_id: self.plugin_id@,
            namespace: self.namespace@,
            key: self.key@,
        }
    }
}

/// A value that was read.
pub struct StorageGetResponse {
    pub found: bool,
    pub value: Option<Json>,
}

/// The mathematical content of a [`StorageGetResponse`].
pub struct StorageGetResponseView {
    pub found: bool,
    pub value: Option<JsonView>,
}

impl View for StorageGetResponse {
    type V = StorageGetResponseView;

    open spec fn view(&self) -> StorageGetResponseView {
        StorageGetResponseView {
            found: self.found,
            value: view_opt(self.value),
        }
    }
}

/// A value to write.
pub struct StorageSetRequest {
    pub plugin_id: String,
    pub namespace: String,
    pub key: String,
    pub value: Json,
}

/// The mathematical content of a [`StorageSetRequest`].
pub struct StorageSetRequestView {
    pub plugin_id: Seq<char>,
    pub namespace: Seq<char>,
    pub key: Seq<char>,
    pub value: JsonView,
}

impl View for StorageSetRequest {
    type V = StorageSetRequestView;

    open spec fn view(&self) -> StorageSetRequestView {
        StorageSetRequestView {
            plugin_id: self.plugin_id@,
            namespace: self.namespace@,
            key: self.key@,
            value: self.value@,
        }
    }
}

/// Whether a value was written.
pub struct StorageSetResponse {
    pub success: bool,
    pub error: Option<String>,
}

/// The mathematical content of a [`StorageSetResponse`].
pub struct StorageSetResponseView {
    pub success: bool,
    pub error: Option<Seq<char>>,
}

impl View for StorageSetResponse {
    type V = StorageSetResponseView;

    open spec fn view(&self) -> StorageSetResponseView {
        StorageSetResponseView {
            success: self.success,
            error: view_opt(self.error),
        }
    }
}

/// A value to delete.
pub struct StorageDeleteRequest {
    pub plugin_id: String,
    pub namespace: String,
    pub key: String,
}

/// The mathematical content of a [`StorageDeleteRequest`].
pub struct StorageDeleteRequestView {
    pub plugin_id: Seq<char>,
    pub namespace: Seq<char>,
    pub key: Seq<char>,
}

impl View for StorageDeleteRequest {
    type V = StorageDeleteRequestView;

    open spec fn view(&self) -> StorageDeleteRequestView {
        StorageDeleteRequestView {
            plugin_id: self.plugin_id@,
            namespace: self.namespace@,
            key: self.key@,
        }
    }
}

/// Whether a value was deleted.
#[derive(Clone, Copy)]
pub struct StorageDeleteResponse {
    pub success: bool,
    pub existed: bool,
}

/// A namespace to list.
pub struct StorageListRequest {
    pub plugin_id: String,
    pub namespace: String,
}

/// The mathematical content of a [`StorageListRequest`].
pub struct StorageListRequestView {
    pub plugin_id: Seq<char>,
    pub namespace: Seq<char>,
}

impl View for StorageListRequest {
    type V = StorageListRequestView;

    open spec fn view(&self) -> StorageListRequestView {
        StorageListRequestView {
            plugin_id: self.plugin_id@,
            namespace: self.namespace@,
        }
    }
}

/// The keys of a namespace.
pub struct StorageListResponse {
    pub keys: Vec<String>,
}

/// The mathematical content of a [`StorageListResponse`].
pub struct StorageListResponseView {
    pub keys: Seq<Seq<char>>,
}

impl View for StorageListResponse {
    type V = StorageListResponseView;

    open spec fn view(&self) -> StorageListResponseView {
        StorageListResponseView {
            keys: views(self.keys@),
        }
    }
}

/// What a storage request asks for.
#[derive(Clone, Copy)]
pub enum StorageKind {
    Read,
    Write,
    Delete,
    List,
}

/// A document states the answer to a storage request: whether a value was found, and the
/// value; whether it was written, and the error; whether it was deleted, and was there;
/// or the keys.
pub open spec fn answers_storage(kind: StorageKind, j: JsonView) -> bool {
    match kind {
        StorageKind::Read => bool_at(j, "found"@) is Some,
        StorageKind::Write => bool_at(j, "success"@) is Some && optional_text_at(
            j,
            "error"@,
        ) is Some,
        StorageKind::Delete => bool_at(j, "success"@) is Some && bool_at(j, "existed"@) is Some,
        StorageKind::List => texts_at(j, "keys"@) is Some,
    }
}

/// Whether a document states the answer to a storage request.
pub fn is_storage_answer(kind: StorageKind, j: &Json) -> (r: bool)
    ensures
        r == answers_storage(kind, j@),
{
    match kind {
        StorageKind::Read => read_bool_at(j, "found").is_some(),
        StorageKind::Write => read_bool_at(j, "success").is_some() && read_optional_text_at(
            j,
            "error",
        ).is_some(),
        StorageKind::Delete => read_bool_at(j, "success").is_some() && read_bool_at(
            j,
            "existed",
        ).is_some(),
        StorageKind::List => read_texts_at(j, "keys").is_some(),
    }
}

/// The query that deletes the document under a key and says so.
pub const DELETE_QUERY: &'static str =
    "LET existing = DOCUMENT(CONCAT(\"plugin_storage/\", @key)) FILTER existing != null REMOVE existing IN plugin_storage RETURN true";

/// The query that lists the keys under a prefix.
pub const LIST_QUERY: &'static str =
    "FOR doc IN plugin_storage FILTER STARTS_WITH(doc._key, @prefix) RETURN doc.key";

/// The key of a document.
pub open spec fn document_key(
    plugin_id: Seq<char>,
    namespace: Seq<char>,
    key: Seq<char>,
) -> Seq<char> {
    plugin_id + ":"@ + namespace + ":"@ + key
}

/// What the keys of a namespace begin with.
pub open spec fn namespace_prefix(plugin_id: Seq<char>, namespace: Seq<char>) -> Seq<char> {
    plugin_id + ":"@ + namespace + ":"@
}

/// The document that holds a value.
pub open spec fn stored_document(req: StorageSetRequestView, updated_at: Seq<char>) -> JsonView {
    JsonView::object().put("plugin_id"@, JsonView::Text(req.plugin_id)).put(
        "namespace"@,
        JsonView::Text(req.namespace),
    ).put("key"@, JsonView::Text(req.key)).put("value"@, req.value).put(
        "updated_at"@,
        JsonView::Text(updated_at),
    )
}

/// The answer to a read: the value of the document, if there is one.
pub open spec fn get_answer(doc: Option<JsonView>) -> StorageGetResponseView {
    let value = match doc {
        Some(d) => d.get("value"@),
        None => None,
    };
    StorageGetResponseView { found: value is Some, value }
}

/// The result list of a query answer.
pub open spec fn result_list(answer: JsonView) -> Seq<JsonView> {
    answer.array_at("result"@).unwrap_or(Seq::empty())
}

/// The strings among some documents, in order.
pub open spec fn strings_among(s: Seq<JsonView>) -> Seq<Seq<char>>
    decreases s.len(),
{
    if s.len() == 0 {
        Seq::empty()
    } else {
        match s.last() {
            JsonView::Text(t) => strings_among(s.drop_last()).push(t),
            _ => strings_among(s.drop_last()),
        }
    }
}

/// The store of all plugins.
pub struct PluginStorageService {
    collection: String,
}

impl PluginStorageService {
    /// The collection that holds the documents.
    pub closed spec fn documents(self) -> Seq<char> {
        self.collection@
    }

    /// A store over the collection `plugin_storage`.
    pub fn new() -> (r: PluginStorageService)
        ensures
            r.documents() == "plugin_storage"@,
    {
        PluginStorageService { collection: own("plugin_storage") }
    }

    /// The collection that holds the documents.
    pub fn collection(&self) -> (r: &str)
        ensures
            r@ == self.documents(),
    {
        self.collection.as_str()
    }

    /// The key of a document.
    pub fn doc_key(plugin_id: &str, namespace: &str, key: &str) -> (r: String)
        ensures
            r@ == document_key(plugin_id@, namespace@, key@),
    {
        cat5(plugin_id, ":", namespace, ":", key)
    }

    /// The answer to a read, from the document under its key. A failed read
    /// finds nothing.
    pub fn handle_get(&self, doc: Result<Option<Json>, String>) -> (r: StorageGetResponse)
        ensures
            r@ == get_answer(
                match doc {
                    Ok(d) => view_opt(d),
                    Err(_) => None,
                },
            ),
    {
        match doc {
            Ok(Some(d)) => {
                let value = match d.get("value") {
                    Some(v) => Some(v.copy()),
                    None => None,
                };
                StorageGetResponse { found: value.is_some(), value }
            },
            _ => StorageGetResponse { found: false, value: None },
        }
    }

    /// The document to write for a value, with its key.
    pub fn handle_set(&self, req: &StorageSetRequest, updated_at: &str) -> (r: (String, Json))
        ensures
            r.0@ == document_key(req@.plugin_id, req@.namespace, req@.key),
            r.1@ == stored_document(req@, updated_at@),
    {
        let doc = Json::object().put("plugin_id", Json::text(&req.plugin_id)).put(
            "namespace",
            Json::text(&req.namespace),
        ).put("key", Json::text(&req.key)).put("value", req.value.copy()).put(
            "updated_at",
            Json::text(updated_at),
        );
        (PluginStorageService::doc_key(&req.plugin_id, &req.namespace, &req.key), doc)
    }

    /// The answer to a write.
    pub fn set_response(&self, outcome: Result<(), String>) -> (r: StorageSetResponse)
        ensures
            r@ == (StorageSetResponseView {
                success: outcome is Ok,
                error: match outcome {
                    Ok(_) => None,
                    Err(e) => Some(e@),
                },
            }),
    {
        match outcome {
            Ok(_) => StorageSetResponse { success: true, error: None },
            Err(e) => StorageSetResponse { success: false, error: Some(e) },
        }
    }

    /// The variables of [`DELETE_QUERY`].
    pub fn handle_delete(&self, req: &StorageDeleteRequest) -> (r: Json)
        ensures
            r@ == JsonView::object().put(
                "key"@,
                JsonView::Text(document_key(req@.plugin_id, req@.namespace, req@.key)),
            ),
    {
        let key = PluginStorageService::doc_key(&req.plugin_id, &req.namespace, &req.key);
        Json::object().put("key", Json::text(&key))
    }

    /// The answer to a deletion: the value was there if the query says anything.
    pub fn delete_response(&self, answer: Result<Json, String>) -> (r: StorageDeleteResponse)
        ensures
            r.success == answer is Ok,
            r.existed == match answer {
                Ok(a) => result_list(a@).len() > 0,
                Err(_) => false,
            },
    {
        match answer {
            Ok(a) => {
                let existed = match a.get("result") {
                    Some(j) => match j {
                        Json::Array(v) => {
                            proof {
                                items_view_index(v@);
                            }
                            v.len() > 0
                        },
                        _ => false,
                    },
                    None => false,
                };
                StorageDeleteResponse { success: true, existed }
            },
            Err(_) => StorageDeleteResponse { success: false, existed: false },
        }
    }

    /// The variables of [`LIST_QUERY`].
    pub fn handle_list(&self, req: &StorageListRequest) -> (r: Json)
        ensures
            r@ == JsonView::object().put(
                "prefix"@,
                JsonView::Text(namespace_prefix(req@.plugin_id, req@.namespace)),
            ),
    {
        let prefix = cat2(&cat3(&req.plugin_id, ":", &req.namespace), ":");
        Json::object().put("prefix", Json::text(&prefix))
    }

    /// The answer to a listing: the strings that the query gives.
    pub fn list_response(&self, answer: Result<Json, String>) -> (r: StorageListResponse)
        ensures
            r@.keys == match answer {
                Ok(a) => strings_among(result_list(a@)),
                Err(_) => Seq::empty(),
            },
    {
        let mut keys: Vec<String> = Vec::new();
        assert(views(keys@) =~= Seq::<Seq<char>>::empty());
        match answer {
            Ok(a) => {
                match a.get("result") {
                    Some(j) => match j {
                        Json::Array(v) => {
                            proof {
                                items_view_index(v@);
                            }
                            let ghost s = views(v@);
                            let mut i: usize = 0;
                            while i < v.len()
                                invariant
                                    i <= v@.len(),
                                    s == views(v@),
                                    views(keys@) == strings_among(s.subrange(0, i as int)),
                                decreases v@.len() - i,
                            {
                                let ghost before = keys@;
                                proof {
                                    let t = s.subrange(0, i + 1);
                                    assert(t.drop_last() =~= s.subrange(0, i as int));
                                    assert(t.last() == v@[i as int]@);
                                }
                                match &v[i] {
                                    Json::Text(t) => {
                                        keys.push(t.clone());
                                        assert(views(keys@) =~= views(before).push(t@));
                                    },
                                    _ => {},
                                }
                                i = i + 1;
                            }
                            assert(s.subrange(0, i as int) =~= s);
                        },
                        _ => {},
                    },
                    None => {},
                }
            },
            Err(_) => {},
        }
        StorageListResponse { keys }
    }
}

/// What a write stores, a read gives back.
pub proof fn write_is_read_back(req: StorageSetRequestView, updated_at: Seq<char>)
    ensures
        get_answer(Some(stored_document(req, updated_at))) == (StorageGetResponseView {
            found: true,
            value: Some(req.value),
        }),
{
    reveal_strlit("value");
    reveal_strlit("updated_at");
    assert("value"@.len() != "updated_at"@.len());
}

/// Different entries are different documents, as long as neither plugin ids nor
/// namespaces hold a colon.
pub proof fn keys_are_distinct(
    p: Seq<char>,
    n: Seq<char>,
    k: Seq<char>,
    p2: Seq<char>,
    n2: Seq<char>,
    k2: Seq<char>,
)
    requires
        !p.contains(':'),
        !p2.contains(':'),
        !n.contains(':'),
        !n2.contains(':'),
        document_key(p, n, k) == document_key(p2, n2, k2),
    ensures
        p == p2,
        n == n2,
        k == k2,
{
    reveal_strlit(":");
    assert(document_key(p, n, k) =~= p + ":"@ + (n + ":"@ + k));
    assert(document_key(p2, n2, k2) =~= p2 + ":"@ + (n2 + ":"@ + k2));
    colon_splits(p, n + ":"@ + k, p2, n2 + ":"@ + k2);
    colon_splits(n, k, n2, k2);
}

/// A text splits in one way at its first colon.
proof fn colon_splits(a: Seq<char>, b: Seq<char>, a2: Seq<char>, b2: Seq<char>)
    requires
        !a.contains(':'),
        !a2.contains(':'),
        a + ":"@ + b == a2 + ":"@ + b2,
    ensures
        a == a2,
        b == b2,
{
    reveal_strlit(":");
    let x = a + ":"@ + b;
    let y = a2 + ":"@ + b2;
    assert(x.len() == a.len() + 1 + b.len());
    assert(y.len() == a2.len() + 1 + b2.len());
    assert(x[a.len() as int] == ':');
    assert(y[a2.len() as int] == ':');
    if a.len() < a2.len() {
        assert(a2[a.len() as int] == ':');
    }
    if a2.len() < a.len() {
        assert(a[a2.len() as int] == ':');
    }
    assert(a =~= a2) by {
        assert forall|i: int| 0 <= i < a.len() implies a[i] == a2[i] by {
            assert(x[i] == y[i]);
        }
    }
    assert(b =~= b2) by {
        assert forall|i: int| 0 <= i < b.len() implies b[i] == b2[i] by {
            assert(b[i] == x[a.len() + 1 + i]);
            assert(b2[i] == y[a2.len() + 1 + i]);
        }
    }
}

/// Every key of a namespace begins with the prefix that a listing asks for.
pub proof fn listing_covers_namespace(p: Seq<char>, n: Seq<char>, k: Seq<char>)
    ensures
        starts_with(document_key(p, n, k), namespace_prefix(p, n)),
{
    assert(document_key(p, n, k).subrange(0, namespace_prefix(p, n).len() as int)
        =~= namespace_prefix(p, n));
}

/// A key that begins with the prefix that a listing asks for belongs to that plugin
/// and to that namespace, as long as neither plugin ids nor namespaces hold a colon.
pub proof fn listing_is_own(
    p: Seq<char>,
    n: Seq<char>,
    p2: Seq<char>,
    n2: Seq<char>,
    k2: Seq<char>,
)
    requires
        !p.contains(':'),
        !p2.contains(':'),
        !n.contains(':'),
        !n2.contains(':'),
        starts_with(document_key(p2, n2, k2), namespace_prefix(p, n)),
    ensures
        p == p2,
        n == n2,
{
    let x = document_key(p2, n2, k2);
    let cut = namespace_prefix(p, n).len() as int;
    let k = x.subrange(cut, x.len() as int);
    assert(x =~= x.subrange(0, cut) + k);
    assert(document_key(p, n, k) =~= namespace_prefix(p, n) + k);
    keys_are_distinct(p, n, k, p2, n2, k2);
}

/// A stored document holds the value, and says whose it is and when it was stored.
pub proof fn document_tells(req: StorageSetRequestView, updated_at: Seq<char>)
    ensures
        stored_document(req, updated_at).get("value"@) == Some(req.value),
        stored_document(req, updated_at).text_at("plugin_id"@) == Some(req.plugin_id),
        stored_document(req, updated_at).text_at("namespace"@) == Some(req.namespace),
        stored_document(req, updated_at).text_at("key"@) == Some(req.key),
        stored_document(req, updated_at).text_at("updated_at"@) == Some(updated_at),
        get_answer(Some(stored_document(req, updated_at))).found,
        get_answer(Some(stored_document(req, updated_at))).value == Some(req.value),
        !get_answer(None).found,
{
    reveal_strlit("plugin_id");
    reveal_strlit("namespace");
    reveal_strlit("key");
    reveal_strlit("value");
    reveal_strlit("updated_at");
    assert("plugin_id"@.len() == 9);
    assert("namespace"@.len() == 9);
    assert("key"@.len() == 3);
    assert("value"@.len() == 5);
    assert("updated_at"@.len() == 10);
    assert("plugin_id"@[0] != "namespace"@[0]);
}

/// The strings among the results are taken over, in their order, and nothing else is.
pub proof fn strings_are_listed(s: Seq<JsonView>, x: JsonView)
    ensures
        match x {
            JsonView::Text(t) => strings_among(s.push(x)) == strings_among(s).push(t),
            _ => strings_among(s.push(x)) == strings_among(s),
        },
        strings_among(Seq::empty()).len() == 0,
{
    assert(s.push(x).drop_last() =~= s);
}

/// An answer fits a storage request if it says what that kind of request asks for.
pub proof fn fitting_answers(j: JsonView, keys: Seq<Seq<char>>, b: bool, c: bool)
    ensures
        j.get("found"@) == Some(JsonView::Bool(b)) ==> answers_storage(StorageKind::Read, j),
        j.get("success"@) == Some(JsonView::Bool(b)) && j.get("error"@) is None ==> answers_storage(
            StorageKind::Write,
            j,
        ),
        j.get("success"@) == Some(JsonView::Bool(b)) && j.get("existed"@) == Some(JsonView::Bool(c))
            ==> answers_storage(StorageKind::Delete, j),
        j.get("keys"@) == Some(text_array(keys)) ==> answers_storage(StorageKind::List, j),
        j.get("found"@) is None ==> !answers_storage(StorageKind::Read, j),
        j.get("success"@) is None ==> !answers_storage(StorageKind::Write, j) && !answers_storage(
            StorageKind::Delete,
            j,
        ),
        j.get("keys"@) is None ==> !answers_storage(StorageKind::List, j),
{
    if j.get("keys"@) == Some(text_array(keys)) {
        text_array_read_back(j, "keys"@, keys);
    }
}

} // verus!
