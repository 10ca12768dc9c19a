//! Loads what is known around a message.
use crate::duplicate::{duplicate_all, duplicate_opt, Duplicate};
use crate::events::ChannelInbound;
use crate::json::{items_view_index, Json, JsonView};
use crate::text::{own, view_opt, views};
use crate::wire::{EventEnvelope, EventEnvelopeView};
use vstd::prelude::*;

verus! {

/// The last messages of a chat.
pub const HISTORY_QUERY: &'static str =
    "FOR c IN content FILTER c.channel_id == @chat_id SORT c.timestamp DESC LIMIT @limit RETURN c";

/// The last messages of one user in a chat.
pub const USER_HISTORY_QUERY: &'static str =
    "FOR c IN content FILTER c.channel_id == @chat_id FILTER c.user_id == @user_id SORT c.timestamp DESC LIMIT @limit RETURN c";

/// The open tasks, the most urgent first.
pub const TASKS_QUERY: &'static str =
    "FOR t IN tasks FILTER t.status IN ['pending', 'in_progress'] SORT t.priority == 'high' ? 0 : t.priority == 'medium' ? 1 : 2 RETURN t";

/// The open tasks of one user, the most urgent first.
pub const USER_TASKS_QUERY: &'static str =
    "FOR t IN tasks FILTER t.status IN ['pending', 'in_progress'] FILTER t.user_id == @user_id SORT t.priority == 'high' ? 0 : t.priority == 'medium' ? 1 : 2 RETURN t";

/// The text of stored content.
pub const TEXT_QUERY: &'static str =
    "FOR doc IN content FILTER doc._key == @key RETURN doc.raw_text";

/// A question to the knowledge graph. The embedding is an array of numbers, the
/// confidence is a number.
pub struct BrainQueryRequest {
    pub query_type: String,
    pub aql: Option<String>,
    pub bind_vars: Option<Json>,
    pub embedding: Option<Json>,
    pub collection: Option<String>,
    pub limit: Option<u32>,
    pub query_text: Option<String>,
    pub max_facts: Option<u32>,
    pub graph_depth: Option<u32>,
    pub min_confidence: Option<Json>,
    pub user_id: Option<String>,
}

/// The mathematical content of a [`BrainQueryRequest`].
pub struct BrainQueryRequestView {
    pub query_type: Seq<char>,
    pub aql: Option<Seq<char>>,
    pub bind_vars: Option<JsonView>,
    pub embedding: Option<JsonView>,
    pub collection: Option<Seq<char>>,
    pub limit: Option<u32>,
    pub query_text: Option<Seq<char>>,
    pub max_facts: Option<u32>,
    pub graph_depth: Option<u32>,
    pub min_confidence: Option<JsonView>,
    pub user_id: Option<Seq<char>>,
}

impl View for BrainQueryRequest {
    type V = BrainQueryRequestView;

    open spec fn view(&self) -> BrainQueryRequestView {
        BrainQueryRequestView {
            query_type: self.query_type@,
            aql: view_opt(self.aql),
            bind_vars: view_opt(self.bind_vars),
            embedding: view_opt(self.embedding),
            collection: view_opt(self.collection),
            limit: self.limit,
            query_text: view_opt(self.query_text),
            max_facts: self.max_facts,
            graph_depth: self.graph_depth,
            min_confidence: view_opt(self.min_confidence),
            user_id: view_opt(self.user_id),
        }
    }
}

impl Duplicate for BrainQueryRequest {
    fn copy(&self) -> (r: BrainQueryRequest) {
        BrainQueryRequest {
            query_type: self.query_type.clone(),
            aql: duplicate_opt(&self.aql),
            bind_vars: duplicate_opt(&self.bind_vars),
            embedding: duplicate_opt(&self.embedding),
            collection: duplicate_opt(&self.collection),
            limit: self.limit,
            query_text: duplicate_opt(&self.query_text),
            max_facts: self.max_facts,
            graph_depth: self.graph_depth,
            min_confidence: duplicate_opt(&self.min_confidence),
            user_id: duplicate_opt(&self.user_id),
        }
    }
}

/// A search for skills.
pub struct SkillSearchRequest {
    pub query: String,
    pub limit: Option<u32>,
    pub scope: Option<String>,
}

/// The mathematical content of a [`SkillSearchRequest`].
pub struct SkillSearchRequestView {
    pub query: Seq<char>,
    pub limit: Option<u32>,
    pub scope: Option<Seq<char>>,
}

impl View for SkillSearchRequest {
    type V = SkillSearchRequestView;

    open spec fn view(&self) -> SkillSearchRequestView {
        SkillSearchRequestView {
            query: self.query@,
            limit: self.limit,
            scope: view_opt(self.scope),
        }
    }
}

impl Duplicate for SkillSearchRequest {
    fn copy(&self) -> (r: SkillSearchRequest) {
        SkillSearchRequest {
            query: self.query.clone(),
            limit: self.limit,
            scope: duplicate_opt(&self.scope),
        }
    }
}

/// What is known around a message.
pub struct AgentContextLoaded {
    pub original_event: EventEnvelope,
    pub entities: Vec<Json>,
    pub facts: Vec<Json>,
    pub similar_content: Vec<Json>,
    pub active_tasks: Vec<Json>,
    pub conversation_history: Vec<Json>,
    pub skill_snippets: Vec<Json>,
}

/// The mathematical content of a [`AgentContextLoaded`].
pub struct AgentContextLoadedView {
    pub original_event: EventEnvelopeView,
    pub entities: Seq<JsonView>,
    pub facts: Seq<JsonView>,
    pub similar_content: Seq<JsonView>,
    pub active_tasks: Seq<JsonView>,
    pub conversation_history: Seq<JsonView>,
    pub skill_snippets: Seq<JsonView>,
}

impl View for AgentContextLoaded {
    type V = AgentContextLoadedView;

    open spec fn view(&self) -> AgentContextLoadedView {
        AgentContextLoadedView {
            original_event: self.original_event@,
            entities: views(self.entities@),
            facts: views(self.facts@),
            similar_content: views(self.similar_content@),
            active_tasks: views(self.active_tasks@),
            conversation_history: views(self.conversation_history@),
            skill_snippets: views(self.skill_snippets@),
        }
    }
}

impl Duplicate for AgentContextLoaded {
    fn copy(&self) -> (r: AgentContextLoaded) {
        AgentContextLoaded {
            original_event: self.original_event.copy(),
            entities: duplicate_all(&self.entities),
            facts: duplicate_all(&self.facts),
            similar_content: duplicate_all(&self.similar_content),
            active_tasks: duplicate_all(&self.active_tasks),
            conversation_history: duplicate_all(&self.conversation_history),
            skill_snippets: duplicate_all(&self.skill_snippets),
        }
    }
}

impl BrainQueryRequestView {
    /// A question of a type that says nothing else.
    pub open spec fn bare(query_type: Seq<char>, user_id: Option<Seq<char>>) -> BrainQueryRequestView {
        BrainQueryRequestView {
            query_type,
            aql: None,
            bind_vars: None,
            embedding: None,
            collection: None,
            limit: None,
            query_text: None,
            max_facts: None,
            graph_depth: None,
            min_confidence: None,
            user_id,
        }
    }
}

impl BrainQueryRequest {
    /// A question of a type that says nothing else.
    pub fn bare(query_type: &str, user_id: &Option<String>) -> (r: BrainQueryRequest)
        ensures
            r@ == BrainQueryRequestView::bare(query_type@, view_opt(*user_id)),
    {
        BrainQueryRequest {
            query_type: own(query_type),
            aql: None,
            bind_vars: None,
            embedding: None,
            collection: None,
            limit: None,
            query_text: None,
            max_facts: None,
            graph_depth: None,
            min_confidence: None,
            user_id: duplicate_opt(user_id),
        }
    }
}

/// The question for the content that is closest to an embedding.
pub fn query_vector_search(embedding: &Json, limit: u32, user_id: &Option<String>) -> (r:
    BrainQueryRequest)
    ensures
        r@ == (BrainQueryRequestView {
            embedding: Some(embedding@),
            collection: Some("content"@),
            limit: Some(limit),
            ..BrainQueryRequestView::bare("vector_search"@, view_opt(*user_id))
        }),
{
    let mut r = BrainQueryRequest::bare("vector_search", user_id);
    r.embedding = Some(embedding.copy());
    r.collection = Some(own("content"));
    r.limit = Some(limit);
    r
}

/// The question for the entities and the facts around a text.
pub fn query_get_context(
    text: &str,
    graph_depth: u32,
    max_facts: u32,
    min_confidence: &Json,
    user_id: &Option<String>,
) -> (r: BrainQueryRequest)
    ensures
        r@ == (BrainQueryRequestView {
            query_text: Some(text@),
            max_facts: Some(max_facts),
            graph_depth: Some(graph_depth),
            min_confidence: Some(min_confidence@),
            ..BrainQueryRequestView::bare("get_context"@, view_opt(*user_id))
        }),
{
    let mut r = BrainQueryRequest::bare("get_context", user_id);
    r.query_text = Some(own(text));
    r.max_facts = Some(max_facts);
    r.graph_depth = Some(graph_depth);
    r.min_confidence = Some(min_confidence.copy());
    r
}

/// The question for the last messages of a chat.
pub open spec fn history_query(chat_id: Seq<char>, limit: u32, user_id: Option<Seq<char>>) -> BrainQueryRequestView {
    let vars = JsonView::object().put("chat_id"@, JsonView::Text(chat_id)).put(
        "limit"@,
        JsonView::Int(limit as int),
    );
    BrainQueryRequestView {
        aql: Some(
            if user_id is Some {
                USER_HISTORY_QUERY@
            } else {
                HISTORY_QUERY@
            },
        ),
        bind_vars: Some(
            match user_id {
                Some(u) => vars.put("user_id"@, JsonView::Text(u)),
                None => vars,
            },
        ),
        limit: Some(limit),
        ..BrainQueryRequestView::bare("aql"@, user_id)
    }
}

/// The question for the last messages of a chat, of one user where that is known.
pub fn query_conversation_history(chat_id: &str, limit: u32, user_id: &Option<String>) -> (r:
    BrainQueryRequest)
    ensures
        r@ == history_query(chat_id@, limit, view_opt(*user_id)),
{
    let mut r = BrainQueryRequest::bare("aql", user_id);
    let vars = Json::object().put("chat_id", Json::text(chat_id)).put(
        "limit",
        Json::Unsigned(limit as u64),
    );
    match user_id {
        Some(u) => {
            r.aql = Some(own(USER_HISTORY_QUERY));
            r.bind_vars = Some(vars.put("user_id", Json::text(u)));
        },
        None => {
            r.aql = Some(own(HISTORY_QUERY));
            r.bind_vars = Some(vars);
        },
    }
    r.limit = Some(limit);
    r
}

/// The question for the open tasks.
pub open spec fn tasks_query(user_id: Option<Seq<char>>) -> BrainQueryRequestView {
    BrainQueryRequestView {
        aql: Some(
            if user_id is Some {
                USER_TASKS_QUERY@
            } else {
                TASKS_QUERY@
            },
        ),
        bind_vars: match user_id {
            Some(u) => Some(JsonView::object().put("user_id"@, JsonView::Text(u))),
            None => None,
        },
        ..BrainQueryRequestView::bare("aql"@, user_id)
    }
}

/// The question for the open tasks, of one user where that is known.
pub fn query_active_tasks(user_id: &Option<String>) -> (r: BrainQueryRequest)
    ensures
        r@ == tasks_query(view_opt(*user_id)),
{
    let mut r = BrainQueryRequest::bare("aql", user_id);
    match user_id {
        Some(u) => {
            r.aql = Some(own(USER_TASKS_QUERY));
            r.bind_vars = Some(Json::object().put("user_id", Json::text(u)));
        },
        None => {
            r.aql = Some(own(TASKS_QUERY));
        },
    }
    r
}

/// The question for the text of stored content.
pub fn query_content_text(key: &str) -> (r: BrainQueryRequest)
    ensures
        r@ == (BrainQueryRequestView {
            aql: Some(TEXT_QUERY@),
            bind_vars: Some(JsonView::object().put("key"@, JsonView::Text(key@))),
            ..BrainQueryRequestView::bare("aql"@, None)
        }),
{
    let mut r = BrainQueryRequest::bare("aql", &None);
    r.aql = Some(own(TEXT_QUERY));
    r.bind_vars = Some(Json::object().put("key", Json::text(key)));
    r
}

/// The search for skills that suit a text.
pub fn query_skill_search(query: &str, scope: &Option<String>) -> (r: SkillSearchRequest)
    ensures
        r@ == (SkillSearchRequestView {
            query: query@,
            limit: Some(5),
            scope: view_opt(*scope),
        }),
{
    SkillSearchRequest { query: own(query), limit: Some(5), scope: duplicate_opt(scope) }
}

/// Who sent a message, where that is said.
pub fn user_of(inbound: &ChannelInbound) -> (r: Option<String>)
    ensures
        view_opt(r) == if inbound@.user_id.len() == 0 {
            None
        } else {
            Some(inbound@.user_id)
        },
{
    if inbound.user_id.as_str().is_empty() {
        None
    } else {
        Some(inbound.user_id.clone())
    }
}

/// The elements of the array that an answer holds; no array has none.
pub open spec fn elements(answer: Option<JsonView>) -> Seq<JsonView> {
    match answer {
        Some(JsonView::Array(a)) => a,
        _ => Seq::empty(),
    }
}

/// The elements of the array in a field of an answer.
pub open spec fn elements_at(answer: Option<JsonView>, key: Seq<char>) -> Seq<JsonView> {
    match answer {
        Some(j) => elements(j.get(key)),
        None => Seq::empty(),
    }
}

/// The elements of the array that an answer holds.
fn elements_of(answer: Option<&Json>) -> (r: Vec<Json>)
    ensures
        views(r@) == elements(
            match answer {
                Some(j) => Some(j@),
                None => None,
            },
        ),
{
    match answer {
        Some(j) => match j {
            Json::Array(v) => {
                proof {
                    items_view_index(v@);
                }
                duplicate_all(v)
            },
            _ => {
                let v: Vec<Json> = Vec::new();
                assert(views(v@) =~= Seq::empty());
                v
            },
        },
        None => {
            let v: Vec<Json> = Vec::new();
            assert(views(v@) =~= Seq::empty());
            v
        },
    }
}

/// The elements of the array in a field of an answer.
fn field_elements(answer: &Option<Json>, key: &str) -> (r: Vec<Json>)
    ensures
        views(r@) == elements_at(view_opt(*answer), key@),
{
    match answer {
        Some(j) => elements_of(j.get(key)),
        None => elements_of(None),
    }
}

/// What is known around a message, from the answers that came.
pub open spec fn context_of(
    original_event: EventEnvelopeView,
    context: Option<JsonView>,
    similar: Option<JsonView>,
    tasks: Option<JsonView>,
    history: Option<JsonView>,
    skill_snippets: Seq<JsonView>,
) -> AgentContextLoadedView {
    AgentContextLoadedView {
        original_event,
        entities: elements_at(context, "entities"@),
        facts: elements_at(context, "facts"@),
        similar_content: elements(similar),
        active_tasks: elements(tasks),
        conversation_history: elements(history),
        skill_snippets,
    }
}

/// What is known around a message, from the results that came. A missing one
/// leaves its part empty.
pub fn assemble_context(
    original_event: EventEnvelope,
    context: &Option<Json>,
    similar: &Option<Json>,
    tasks: &Option<Json>,
    history: &Option<Json>,
    skill_snippets: Vec<Json>,
) -> (r: AgentContextLoaded)
    ensures
        r@ == context_of(
            original_event@,
            view_opt(*context),
            view_opt(*similar),
            view_opt(*tasks),
            view_opt(*history),
            views(skill_snippets@),
        ),
{
    AgentContextLoaded {
        original_event,
        entities: field_elements(context, "entities"),
        facts: field_elements(context, "facts"),
        similar_content: elements_of(similar.as_ref()),
        active_tasks: elements_of(tasks.as_ref()),
        conversation_history: elements_of(history.as_ref()),
        skill_snippets,
    }
}

/// A question that is scoped to a user names the user in its filter's variables.
pub proof fn queries_name_their_user(chat_id: Seq<char>, limit: u32, user: Seq<char>)
    ensures
        history_query(chat_id, limit, Some(user)).bind_vars matches Some(v) && v.text_at("user_id"@)
            == Some(user),
        tasks_query(Some(user)).bind_vars matches Some(v) && v.text_at("user_id"@) == Some(user),
{
}

/// The context holds what each question was answered, each in its place.
pub proof fn answers_are_assembled(
    original_event: EventEnvelopeView,
    context: JsonView,
    entities: Seq<JsonView>,
    facts: Seq<JsonView>,
    similar: Seq<JsonView>,
    tasks: Seq<JsonView>,
    history: Seq<JsonView>,
    skill_snippets: Seq<JsonView>,
)
    requires
        context.get("entities"@) == Some(JsonView::Array(entities)),
        context.get("facts"@) == Some(JsonView::Array(facts)),
    ensures
        ({
            let r = context_of(
                original_event,
                Some(context),
                Some(JsonView::Array(similar)),
                Some(JsonView::Array(tasks)),
                Some(JsonView::Array(history)),
                skill_snippets,
            );
            &&& r.original_event == original_event
            &&& r.entities == entities
            &&& r.facts == facts
            &&& r.similar_content == similar
            &&& r.active_tasks == tasks
            &&& r.conversation_history == history
            &&& r.skill_snippets == skill_snippets
        }),
        elements(None).len() == 0,
        elements_at(None, "facts"@).len() == 0,
{
}

/// The history is asked for one chat, and so many messages of it.
pub proof fn history_is_of_the_chat(chat_id: Seq<char>, limit: u32, user_id: Option<Seq<char>>)
    ensures
        ({
            let q = history_query(chat_id, limit, user_id);
            &&& q.bind_vars is Some
            &&& q.bind_vars->0.text_at("chat_id"@) == Some(chat_id)
            &&& q.bind_vars->0.get("limit"@) == Some(JsonView::Int(limit as int))
            &&& q.limit == Some(limit)
            &&& q.user_id == user_id
            &&& q.query_type == "aql"@
            &&& q.aql is Some
        }),
{
    reveal_strlit("chat_id");
    reveal_strlit("limit");
    reveal_strlit("user_id");
    assert("chat_id"@.len() == 7);
    assert("limit"@.len() == 5);
    assert("user_id"@.len() == 7);
    assert("chat_id"@[0] != "user_id"@[0]);
}

/// The tasks are asked for by the query for one user or, without a user, by the one for all.
pub proof fn tasks_are_of_the_user(user_id: Option<Seq<char>>)
    ensures
        ({
            let q = tasks_query(user_id);
            &&& q.query_type == "aql"@
            &&& q.user_id == user_id
            &&& user_id is Some ==> q.aql == Some(USER_TASKS_QUERY@) && q.bind_vars is Some
                && q.bind_vars->0.text_at("user_id"@) == user_id
            &&& user_id is None ==> q.aql == Some(TASKS_QUERY@) && q.bind_vars is None
        }),
{
}

/// The history is asked for by the query for one user or, without a user, by the one for all.
pub proof fn history_is_of_the_user(chat_id: Seq<char>, limit: u32, user_id: Option<Seq<char>>)
    ensures
        user_id is Some ==> history_query(chat_id, limit, user_id).aql == Some(USER_HISTORY_QUERY@)
            && history_query(chat_id, limit, user_id).bind_vars->0.text_at("user_id"@) == user_id,
        user_id is None ==> history_query(chat_id, limit, user_id).aql == Some(HISTORY_QUERY@)
            && history_query(chat_id, limit, user_id).bind_vars->0.get("user_id"@) is None,
{
    reveal_strlit("chat_id");
    reveal_strlit("limit");
    reveal_strlit("user_id");
    assert("chat_id"@.len() == 7);
    assert("limit"@.len() == 5);
    assert("user_id"@.len() == 7);
    assert("chat_id"@[0] != "user_id"@[0]);
}

} // verus!
