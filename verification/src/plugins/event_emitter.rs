//! Finds structured actions in the answers of language models and turns them into
//! events.
use crate::duplicate::{duplicate_all, duplicate_opt, Duplicate, TextMap};
use crate::events::{
    FactUpsertRequest, FactUpsertRequestView, LlmResponse, LlmResponseView, Publication,
    PublicationView,
};
use crate::json::{items_view_index, text_or_null, Json, JsonView};
use crate::outside::json_of_text;
use crate::text::{
    cat2, cat3, chars_of, find, find_from, find_from_complete, index_of, occurs_at, own, pack, seek, trim,
    trim_bounds, view_opt, views,
};
use crate::wire::{
    as_record, default_items_at, default_number_at, default_text_at, default_text_map_at,
    fact_upsert_document, fact_upsert_json, is_number, optional_text_at, read_default_items_at,
    read_default_number_at, read_default_text_at, read_default_text_map_at, read_optional_text_at,
    record, text_map_document, text_map_json, text_map_read_back,
};
use vstd::prelude::*;

verus! {

/// The plugin's id, which its events name as their source.
pub const PLUGIN_ID: &'static str = "event-emitter";

/// A task that an answer asks for.
pub struct TaskBlock {
    pub title: String,
    pub description: Option<String>,
    pub priority: String,
    pub assigned_agent: Option<String>,
    pub due_date: Option<String>,
    pub scope: Option<String>,
}

/// The mathematical content of a [`TaskBlock`].
pub struct TaskBlockView {
    pub title: Seq<char>,
    pub description: Option<Seq<char>>,
    pub priority: Seq<char>,
    pub assigned_agent: Option<Seq<char>>,
    pub due_date: Option<Seq<char>>,
    pub scope: Option<Seq<char>>,
}

impl View for TaskBlock {
    type V = TaskBlockView;

    open spec fn view(&self) -> TaskBlockView {
        TaskBlockView {
            title: self.title@,
            description: view_opt(self.description),
            priority: self.priority@,
            assigned_agent: view_opt(self.assigned_agent),
            due_date: view_opt(self.due_date),
            scope: view_opt(self.scope),
        }
    }
}

impl Duplicate for TaskBlock {
    fn copy(&self) -> (r: TaskBlock) {
        TaskBlock {
            title: self.title.clone(),
            description: duplicate_opt(&self.description),
            priority: self.priority.clone(),
            assigned_agent: duplicate_opt(&self.assigned_agent),
            due_date: duplicate_opt(&self.due_date),
            scope: duplicate_opt(&self.scope),
        }
    }
}

/// A fact that an answer states.
pub struct FactBlock {
    pub subject: String,
    pub predicate: String,
    pub object: Option<String>,
    pub value: Option<String>,
    pub confidence: Json,
}

/// The mathematical content of a [`FactBlock`].
pub struct FactBlockView {
    pub subject: Seq<char>,
    pub predicate: Seq<char>,
    pub object: Option<Seq<char>>,
    pub value: Option<Seq<char>>,
    pub confidence: JsonView,
}

impl View for FactBlock {
    type V = FactBlockView;

    open spec fn view(&self) -> FactBlockView {
        FactBlockView {
            subject: self.subject@,
            predicate: self.predicate@,
            object: view_opt(self.object),
            value: view_opt(self.value),
            confidence: self.confidence@,
        }
    }
}

impl Duplicate for FactBlock {
    fn copy(&self) -> (r: FactBlock) {
        FactBlock {
            subject: self.subject.clone(),
            predicate: self.predicate.clone(),
            object: duplicate_opt(&self.object),
            value: duplicate_opt(&self.value),
            confidence: self.confidence.copy(),
        }
    }
}

/// An agent that an answer wakes.
pub struct WakeBlock {
    pub agent_id: String,
    pub reason: String,
    pub context: TextMap,
}

/// The mathematical content of a [`WakeBlock`].
pub struct WakeBlockView {
    pub agent_id: Seq<char>,
    pub reason: Seq<char>,
    pub context: Map<Seq<char>, Seq<char>>,
}

impl View for WakeBlock {
    type V = WakeBlockView;

    open spec fn view(&self) -> WakeBlockView {
        WakeBlockView {
            agent_id: self.agent_id@,
            reason: self.reason@,
            context: self.context@,
        }
    }
}

impl Duplicate for WakeBlock {
    fn copy(&self) -> (r: WakeBlock) {
        WakeBlock {
            agent_id: self.agent_id.clone(),
            reason: self.reason.clone(),
            context: self.context.copy(),
        }
    }
}

/// All the actions in an answer.
pub struct StructuredActions {
    pub tasks: Vec<TaskBlock>,
    pub facts: Vec<FactBlock>,
    pub wake: Vec<WakeBlock>,
}

/// The mathematical content of a [`StructuredActions`].
pub struct StructuredActionsView {
    pub tasks: Seq<TaskBlockView>,
    pub facts: Seq<FactBlockView>,
    pub wake: Seq<WakeBlockView>,
}

impl View for StructuredActions {
    type V = StructuredActionsView;

    open spec fn view(&self) -> StructuredActionsView {
        StructuredActionsView {
            tasks: views(self.tasks@),
            facts: views(self.facts@),
            wake: views(self.wake@),
        }
    }
}

impl Duplicate for StructuredActions {
    fn copy(&self) -> (r: StructuredActions) {
        StructuredActions {
            tasks: duplicate_all(&self.tasks),
            facts: duplicate_all(&self.facts),
            wake: duplicate_all(&self.wake),
        }
    }
}

/// The [`TaskBlock`] that a document states.
pub open spec fn task_block_of(j: JsonView) -> Option<TaskBlockView> {
    let j = record(
        j,
        seq!["title"@, "description"@, "priority"@, "assigned_agent"@, "due_date"@, "scope"@],
        1,
    );
    match (
        j.text_at("title"@),
        optional_text_at(j, "description"@),
        default_text_at(j, "priority"@, "medium"@),
        optional_text_at(j, "assigned_agent"@),
        optional_text_at(j, "due_date"@),
        optional_text_at(j, "scope"@),
    ) {
        (Some(title), Some(description), Some(priority), Some(
            assigned_agent,
        ), Some(due_date), Some(scope)) => Some(
            TaskBlockView { title, description, priority, assigned_agent, due_date, scope },
        ),
        _ => None,
    }
}

/// Reads the [`TaskBlock`] that a document states.
pub fn read_task_block(j: &Json) -> (r: Option<TaskBlock>)
    ensures
        view_opt(r) == task_block_of(j@),
{
    let names: Vec<&'static str> = vec![
        "title",
        "description",
        "priority",
        "assigned_agent",
        "due_date",
        "scope",
    ];
    assert(
        views(names@) =~= seq![
            "title"@,
            "description"@,
            "priority"@,
            "assigned_agent"@,
            "due_date"@,
            "scope"@,
        ]
    );
    let spread = as_record(j, &names, 1);
    let j = match &spread {
        Some(x) => x,
        None => j,
    };
    match (
        j.text_at("title"),
        read_optional_text_at(j, "description"),
        read_default_text_at(j, "priority", "medium"),
        read_optional_text_at(j, "assigned_agent"),
        read_optional_text_at(j, "due_date"),
        read_optional_text_at(j, "scope"),
    ) {
        (Some(title), Some(description), Some(priority), Some(
            assigned_agent,
        ), Some(due_date), Some(scope)) => Some(
            TaskBlock { title, description, priority, assigned_agent, due_date, scope },
        ),
        _ => None,
    }
}

/// The values that an array states, if every element states one.
pub open spec fn task_blocks_of(a: Seq<JsonView>) -> Option<Seq<TaskBlockView>> {
    if forall|i: int| 0 <= i < a.len() ==> task_block_of(#[trigger] a[i]) is Some {
        Some(Seq::new(a.len(), |i: int| task_block_of(a[i])->Some_0))
    } else {
        None
    }
}

/// Reads the values that an array states.
pub fn read_task_blocks(v: &Vec<Json>) -> (r: Option<Vec<TaskBlock>>)
    ensures
        match r {
            Some(x) => task_blocks_of(views(v@)) == Some(views(x@)),
            None => task_blocks_of(views(v@)) is None,
        },
{
    let ghost a = views(v@);
    let mut out: Vec<TaskBlock> = Vec::new();
    let mut i: usize = 0;
    while i < v.len()
        invariant
            i <= v@.len(),
            a == views(v@),
            out@.len() == i,
            forall|k: int| 0 <= k < i ==> task_block_of(a[k]) == Some((#[trigger] out@[k])@),
        decreases v@.len() - i,
    {
        match read_task_block(&v[i]) {
            Some(x) => {
                out.push(x);
            },
            None => {
                assert(task_block_of(a[i as int]) is None);
                return None;
            },
        }
        i = i + 1;
    }
    proof {
        assert forall|k: int| 0 <= k < a.len() implies task_block_of(#[trigger] a[k]) is Some by {
            assert(task_block_of(a[k]) == Some(out@[k]@));
        }
        assert(views(out@) =~= task_blocks_of(a)->Some_0);
    }
    Some(out)
}

/// The values in a field; a missing field has none.
pub open spec fn default_task_blocks_at(j: JsonView, key: Seq<char>) -> Option<Seq<TaskBlockView>> {
    match default_items_at(j, key) {
        Some(a) => task_blocks_of(a),
        None => None,
    }
}

/// Reads the values in a field; a missing field has none.
pub fn read_default_task_blocks_at(j: &Json, key: &str) -> (r: Option<Vec<TaskBlock>>)
    ensures
        match r {
            Some(x) => default_task_blocks_at(j@, key@) == Some(views(x@)),
            None => default_task_blocks_at(j@, key@) is None,
        },
{
    match read_default_items_at(j, key) {
        Some(v) => read_task_blocks(&v),
        None => None,
    }
}

/// The [`FactBlock`] that a document states.
pub open spec fn fact_block_of(j: JsonView) -> Option<FactBlockView> {
    let j = record(j, seq!["subject"@, "predicate"@, "object"@, "value"@, "confidence"@], 2);
    match (
        j.text_at("subject"@),
        j.text_at("predicate"@),
        optional_text_at(j, "object"@),
        optional_text_at(j, "value"@),
        default_number_at(j, "confidence"@, "0.8"@),
    ) {
        (Some(subject), Some(predicate), Some(object), Some(value), Some(confidence)) => Some(
            FactBlockView { subject, predicate, object, value, confidence },
        ),
        _ => None,
    }
}

/// Reads the [`FactBlock`] that a document states.
pub fn read_fact_block(j: &Json) -> (r: Option<FactBlock>)
    ensures
        view_opt(r) == fact_block_of(j@),
{
    let names: Vec<&'static str> = vec!["subject", "predicate", "object", "value", "confidence"];
    assert(views(names@) =~= seq!["subject"@, "predicate"@, "object"@, "value"@, "confidence"@]);
    let spread = as_record(j, &names, 2);
    let j = match &spread {
        Some(x) => x,
        None => j,
    };
    match (
        j.text_at("subject"),
        j.text_at("predicate"),
        read_optional_text_at(j, "object"),
        read_optional_text_at(j, "value"),
        read_default_number_at(j, "confidence", "0.8"),
    ) {
        (Some(subject), Some(predicate), Some(object), Some(value), Some(confidence)) => Some(
            FactBlock { subject, predicate, object, value, confidence },
        ),
        _ => None,
    }
}

/// The values that an array states, if every element states one.
pub open spec fn fact_blocks_of(a: Seq<JsonView>) -> Option<Seq<FactBlockView>> {
    if forall|i: int| 0 <= i < a.len() ==> fact_block_of(#[trigger] a[i]) is Some {
        Some(Seq::new(a.len(), |i: int| fact_block_of(a[i])->Some_0))
    } else {
        None
    }
}

/// Reads the values that an array states.
pub fn read_fact_blocks(v: &Vec<Json>) -> (r: Option<Vec<FactBlock>>)
    ensures
        match r {
            Some(x) => fact_blocks_of(views(v@)) == Some(views(x@)),
            None => fact_blocks_of(views(v@)) is None,
        },
{
    let ghost a = views(v@);
    let mut out: Vec<FactBlock> = Vec::new();
    let mut i: usize = 0;
    while i < v.len()
        invariant
            i <= v@.len(),
            a == views(v@),
            out@.len() == i,
            forall|k: int| 0 <= k < i ==> fact_block_of(a[k]) == Some((#[trigger] out@[k])@),
        decreases v@.len() - i,
    {
        match read_fact_block(&v[i]) {
            Some(x) => {
                out.push(x);
            },
            None => {
                assert(fact_block_of(a[i as int]) is None);
                return None;
            },
        }
        i = i + 1;
    }
    proof {
        assert forall|k: int| 0 <= k < a.len() implies fact_block_of(#[trigger] a[k]) is Some by {
            assert(fact_block_of(a[k]) == Some(out@[k]@));
        }
        assert(views(out@) =~= fact_blocks_of(a)->Some_0);
    }
    Some(out)
}

/// The values in a field; a missing field has none.
pub open spec fn default_fact_blocks_at(j: JsonView, key: Seq<char>) -> Option<Seq<FactBlockView>> {
    match default_items_at(j, key) {
        Some(a) => fact_blocks_of(a),
        None => None,
    }
}

/// Reads the values in a field; a missing field has none.
pub fn read_default_fact_blocks_at(j: &Json, key: &str) -> (r: Option<Vec<FactBlock>>)
    ensures
        match r {
            Some(x) => default_fact_blocks_at(j@, key@) == Some(views(x@)),
            None => default_fact_blocks_at(j@, key@) is None,
        },
{
    match read_default_items_at(j, key) {
        Some(v) => read_fact_blocks(&v),
        None => None,
    }
}

/// The [`WakeBlock`] that a document states.
pub open spec fn wake_block_of(j: JsonView) -> Option<WakeBlockView> {
    let j = record(j, seq!["agent_id"@, "reason"@, "context"@], 2);
    match (
        j.text_at("agent_id"@),
        j.text_at("reason"@),
        default_text_map_at(j, "context"@),
    ) {
        (Some(agent_id), Some(reason), Some(context)) => Some(
            WakeBlockView { agent_id, reason, context },
        ),
        _ => None,
    }
}

/// Reads the [`WakeBlock`] that a document states.
pub fn read_wake_block(j: &Json) -> (r: Option<WakeBlock>)
    ensures
        view_opt(r) == wake_block_of(j@),
{
    let names: Vec<&'static str> = vec!["agent_id", "reason", "context"];
    assert(views(names@) =~= seq!["agent_id"@, "reason"@, "context"@]);
    let spread = as_record(j, &names, 2);
    let j = match &spread {
        Some(x) => x,
        None => j,
    };
    match (
        j.text_at("agent_id"),
        j.text_at("reason"),
        read_default_text_map_at(j, "context"),
    ) {
        (Some(agent_id), Some(reason), Some(context)) => Some(
            WakeBlock { agent_id, reason, context },
        ),
        _ => None,
    }
}

/// The values that an array states, if every element states one.
pub open spec fn wake_blocks_of(a: Seq<JsonView>) -> Option<Seq<WakeBlockView>> {
    if forall|i: int| 0 <= i < a.len() ==> wake_block_of(#[trigger] a[i]) is Some {
        Some(Seq::new(a.len(), |i: int| wake_block_of(a[i])->Some_0))
    } else {
        None
    }
}

/// Reads the values that an array states.
pub fn read_wake_blocks(v: &Vec<Json>) -> (r: Option<Vec<WakeBlock>>)
    ensures
        match r {
            Some(x) => wake_blocks_of(views(v@)) == Some(views(x@)),
            None => wake_blocks_of(views(v@)) is None,
        },
{
    let ghost a = views(v@);
    let mut out: Vec<WakeBlock> = Vec::new();
    let mut i: usize = 0;
    while i < v.len()
        invariant
            i <= v@.len(),
            a == views(v@),
            out@.len() == i,
            forall|k: int| 0 <= k < i ==> wake_block_of(a[k]) == Some((#[trigger] out@[k])@),
        decreases v@.len() - i,
    {
        match read_wake_block(&v[i]) {
            Some(x) => {
                out.push(x);
            },
            None => {
                assert(wake_block_of(a[i as int]) is None);
                return None;
            },
        }
        i = i + 1;
    }
    proof {
        assert forall|k: int| 0 <= k < a.len() implies wake_block_of(#[trigger] a[k]) is Some by {
            assert(wake_block_of(a[k]) == Some(out@[k]@));
        }
        assert(views(out@) =~= wake_blocks_of(a)->Some_0);
    }
    Some(out)
}

/// The values in a field; a missing field has none.
pub open spec fn default_wake_blocks_at(j: JsonView, key: Seq<char>) -> Option<Seq<WakeBlockView>> {
    match default_items_at(j, key) {
        Some(a) => wake_blocks_of(a),
        None => None,
    }
}

/// Reads the values in a field; a missing field has none.
pub fn read_default_wake_blocks_at(j: &Json, key: &str) -> (r: Option<Vec<WakeBlock>>)
    ensures
        match r {
            Some(x) => default_wake_blocks_at(j@, key@) == Some(views(x@)),
            None => default_wake_blocks_at(j@, key@) is None,
        },
{
    match read_default_items_at(j, key) {
        Some(v) => read_wake_blocks(&v),
        None => None,
    }
}

/// The [`StructuredActions`] that a document states.
pub open spec fn structured_actions_of(j: JsonView) -> Option<StructuredActionsView> {
    let j = record(j, seq!["tasks"@, "facts"@, "wake"@], 0);
    if j is Object {
        match (
            default_task_blocks_at(j, "tasks"@),
            default_fact_blocks_at(j, "facts"@),
            default_wake_blocks_at(j, "wake"@),
        ) {
            (Some(tasks), Some(facts), Some(wake)) => Some(
                StructuredActionsView { tasks, facts, wake },
            ),
            _ => None,
        }
    } else {
        None
    }
}

/// Reads the [`StructuredActions`] that a document states.
pub fn read_structured_actions(j: &Json) -> (r: Option<StructuredActions>)
    ensures
        view_opt(r) == structured_actions_of(j@),
{
    let names: Vec<&'static str> = vec!["tasks", "facts", "wake"];
    assert(views(names@) =~= seq!["tasks"@, "facts"@, "wake"@]);
    let spread = as_record(j, &names, 0);
    let j = match &spread {
        Some(x) => x,
        None => j,
    };
    match j {
        Json::Object(_) => match (
            read_default_task_blocks_at(j, "tasks"),
            read_default_fact_blocks_at(j, "facts"),
            read_default_wake_blocks_at(j, "wake"),
        ) {
            (Some(tasks), Some(facts), Some(wake)) => Some(
                StructuredActions { tasks, facts, wake },
            ),
            _ => None,
        },
        _ => None,
    }
}

impl StructuredActionsView {
    /// No actions.
    pub open spec fn none() -> StructuredActionsView {
        StructuredActionsView { tasks: Seq::empty(), facts: Seq::empty(), wake: Seq::empty() }
    }

    /// There are no actions.
    pub open spec fn is_none(self) -> bool {
        self.tasks.len() == 0 && self.facts.len() == 0 && self.wake.len() == 0
    }

    /// These actions and then others.
    pub open spec fn then_also(self, other: StructuredActionsView) -> StructuredActionsView {
        StructuredActionsView {
            tasks: self.tasks + other.tasks,
            facts: self.facts + other.facts,
            wake: self.wake + other.wake,
        }
    }
}

/// Puts copies of the elements of `b` behind those of `a`.
fn extend<T: Duplicate>(a: &mut Vec<T>, b: &Vec<T>)
    ensures
        views(final(a)@) == views(old(a)@) + views(b@),
{
    let mut more = duplicate_all(b);
    let ghost before = a@;
    let ghost added = more@;
    a.append(&mut more);
    assert(views(a@) =~= views(before) + views(added));
}

impl StructuredActions {
    /// No actions.
    pub fn new() -> (r: StructuredActions)
        ensures
            r@ == StructuredActionsView::none(),
    {
        let r = StructuredActions { tasks: Vec::new(), facts: Vec::new(), wake: Vec::new() };
        assert(r@.tasks =~= Seq::empty());
        assert(r@.facts =~= Seq::empty());
        assert(r@.wake =~= Seq::empty());
        r
    }

    /// Whether there are no actions.
    pub fn is_empty(&self) -> (r: bool)
        ensures
            r == self@.is_none(),
    {
        self.tasks.len() == 0 && self.facts.len() == 0 && self.wake.len() == 0
    }

    /// Adds the actions of another set.
    pub fn extend(&mut self, other: &StructuredActions)
        ensures
            final(self)@ == old(self)@.then_also(other@),
    {
        extend(&mut self.tasks, &other.tasks);
        extend(&mut self.facts, &other.facts);
        extend(&mut self.wake, &other.wake);
    }
}

/// The text between the first occurrence of a marker and the fence that closes it,
/// without white space around it.
pub open spec fn fenced(c: Seq<char>, marker: Seq<char>) -> Option<Seq<char>> {
    match find_from(c, marker, 0) {
        Some(i) => match find_from(c, "```"@, i + marker.len()) {
            Some(e) => Some(trim(c.subrange(i + marker.len(), e))),
            None => None,
        },
        None => None,
    }
}

/// The elements of the array that a text writes.
pub open spec fn array_in(text: Option<Seq<char>>) -> Option<Seq<JsonView>> {
    match text {
        Some(t) => match json_of_text(t) {
            Ok(JsonView::Array(a)) => Some(a),
            _ => None,
        },
        None => None,
    }
}

/// The actions of the blocks that are marked by what they hold.
pub open spec fn typed_actions(c: Seq<char>) -> StructuredActionsView {
    StructuredActionsView {
        tasks: match array_in(fenced(c, "```json:tasks"@)) {
            Some(a) => task_blocks_of(a).unwrap_or(Seq::empty()),
            None => Seq::empty(),
        },
        facts: match array_in(fenced(c, "```json:facts"@)) {
            Some(a) => fact_blocks_of(a).unwrap_or(Seq::empty()),
            None => Seq::empty(),
        },
        wake: match array_in(fenced(c, "```json:wake"@)) {
            Some(a) => wake_blocks_of(a).unwrap_or(Seq::empty()),
            None => Seq::empty(),
        },
    }
}

/// The actions that a text writes as one document; none where it does not.
pub open spec fn actions_in(text: Seq<char>) -> StructuredActionsView {
    match json_of_text(text) {
        Ok(j) => structured_actions_of(j).unwrap_or(StructuredActionsView::none()),
        Err(_) => StructuredActionsView::none(),
    }
}

/// The actions of the block that is marked to hold all of them.
pub open spec fn unified_actions(c: Seq<char>) -> StructuredActionsView {
    match fenced(c, "```json:actions"@) {
        Some(t) => actions_in(t),
        None => StructuredActionsView::none(),
    }
}

/// Where the content of a block begins whose opening fence ends at `at`: on the
/// next line, or right there if no line follows.
pub open spec fn content_start(c: Seq<char>, at: int) -> int {
    let n = index_of(c.subrange(at, c.len() as int), '\n');
    if at + n < c.len() {
        at + n + 1
    } else {
        at
    }
}

/// The bounds of the content of the first block at or after an index whose opening
/// fence is tagged as JSON.
pub open spec fn tagged_block(c: Seq<char>, from: int) -> Option<(int, int)> {
    match find_from(c, "```json"@, from) {
        Some(i) => {
            let start = content_start(c, i + 7);
            match find_from(c, "```"@, start) {
                Some(e) => Some((start, e)),
                None => None,
            }
        },
        None => None,
    }
}

/// The bounds of what stands between the first two fences at or after an index.
pub open spec fn plain_block(c: Seq<char>, from: int) -> Option<(int, int)> {
    match find_from(c, "```"@, from) {
        Some(i) => match find_from(c, "```"@, i + 3) {
            Some(e) => Some((i + 3, e)),
            None => None,
        },
        None => None,
    }
}

/// The bounds of the content of the first block at or after an index. Two fences make
/// a block of their own where both stand before the next one that is tagged as JSON.
pub open spec fn next_block(c: Seq<char>, from: int) -> Option<(int, int)> {
    match (plain_block(c, from), find_from(c, "```json"@, from)) {
        (Some((s, e)), None) => Some((s, e)),
        (Some((s, e)), Some(i)) => if e + 3 <= i {
            Some((s, e))
        } else {
            tagged_block(c, from)
        },
        (None, _) => None,
    }
}

/// A block ends behind the index from which it was sought.
proof fn next_block_ahead(c: Seq<char>, from: int)
    requires
        0 <= from,
    ensures
        next_block(c, from) matches Some((s, e)) ==> from < s <= e && e + 3 <= c.len(),
{
    reveal_strlit("```json");
    reveal_strlit("```");
    find_from_complete(c, "```json"@, from);
    match find_from(c, "```json"@, from) {
        Some(i) => {
            index_in_bounds(c.subrange(i + 7, c.len() as int), '\n');
            find_from_complete(c, "```"@, content_start(c, i + 7));
        },
        None => {},
    }
    find_from_complete(c, "```"@, from);
    match find_from(c, "```"@, from) {
        Some(i) => {
            find_from_complete(c, "```"@, i + 3);
        },
        None => {},
    }
}

/// An index of a character is no more than the length.
proof fn index_in_bounds(s: Seq<char>, c: char)
    ensures
        0 <= index_of(s, c) <= s.len(),
    decreases s.len(),
{
    if s.len() > 0 && s[0] != c {
        index_in_bounds(s.drop_first(), c);
    }
}

/// The actions of all blocks at or after an index.
pub open spec fn generic_actions(c: Seq<char>, from: int) -> StructuredActionsView
    decreases c.len() - from,
    when 0 <= from
    via generic_actions_end
{
    match next_block(c, from) {
        Some((s, e)) => actions_in(trim(c.subrange(s, e))).then_also(generic_actions(c, e + 3)),
        None => StructuredActionsView::none(),
    }
}

#[via_fn]
proof fn generic_actions_end(c: Seq<char>, from: int) {
    next_block_ahead(c, from);
}

/// The actions in an answer: those of the marked blocks, or else those of any
/// block of JSON, be it tagged or not.
pub open spec fn actions_of(c: Seq<char>) -> StructuredActionsView {
    let marked = typed_actions(c).then_also(unified_actions(c));
    if marked.is_none() {
        generic_actions(c, 0)
    } else {
        marked
    }
}

/// The text between a marker and the fence that closes it.
fn fenced_text(c: &Vec<char>, marker: &str) -> (r: Option<String>)
    ensures
        view_opt(r) == fenced(c@, marker@),
{
    let m = chars_of(marker);
    let fence = chars_of("```");
    let len: usize = c.len();
    match find(c, &m, 0) {
        Some(i) => match find(c, &fence, i + m.len()) {
            Some(e) => {
                let (a, b) = trim_bounds(c, i + m.len(), e);
                Some(pack(c, a, b))
            },
            None => None,
        },
        None => None,
    }
}

/// The elements of the array that a text writes.
fn array_text(text: &Option<String>) -> (r: Option<Vec<Json>>)
    ensures
        match r {
            Some(v) => array_in(view_opt(*text)) == Some(views(v@)),
            None => array_in(view_opt(*text)) is None,
        },
{
    match text {
        Some(t) => match Json::parse(t) {
            Ok(j) => match j {
                Json::Array(v) => {
                    proof {
                        items_view_index(v@);
                    }
                    Some(v)
                },
                _ => None,
            },
            Err(_) => None,
        },
        None => None,
    }
}

/// The actions that a text writes as one document.
fn actions_text(text: &str) -> (r: StructuredActions)
    ensures
        r@ == actions_in(text@),
{
    match Json::parse(text) {
        Ok(j) => match read_structured_actions(&j) {
            Some(a) => a,
            None => StructuredActions::new(),
        },
        Err(_) => StructuredActions::new(),
    }
}

/// The actions of the blocks that are marked by what they hold.
fn read_typed_actions(c: &Vec<char>) -> (r: StructuredActions)
    ensures
        r@ == typed_actions(c@),
{
    let mut r = StructuredActions::new();
    match array_text(&fenced_text(c, "```json:tasks")) {
        Some(v) => match read_task_blocks(&v) {
            Some(x) => {
                r.tasks = x;
            },
            None => {},
        },
        None => {},
    }
    match array_text(&fenced_text(c, "```json:facts")) {
        Some(v) => match read_fact_blocks(&v) {
            Some(x) => {
                r.facts = x;
            },
            None => {},
        },
        None => {},
    }
    match array_text(&fenced_text(c, "```json:wake")) {
        Some(v) => match read_wake_blocks(&v) {
            Some(x) => {
                r.wake = x;
            },
            None => {},
        },
        None => {},
    }
    r
}

/// The bounds of the content of the first block at or after an index.
fn find_block(c: &Vec<char>, from: usize) -> (r: Option<(usize, usize)>)
    requires
        from <= c@.len(),
    ensures
        match r {
            Some((s, e)) => next_block(c@, from as int) == Some((s as int, e as int)) && from < s
                <= e && e + 3 <= c@.len(),
            None => next_block(c@, from as int) is None,
        },
{
    let opening = chars_of("```json");
    let fence = chars_of("```");
    let len: usize = c.len();
    proof {
        reveal_strlit("```json");
        reveal_strlit("```");
        next_block_ahead(c@, from as int);
    }
    let tag = find(c, &opening, from);
    let first = match find(c, &fence, from) {
        Some(i) => i,
        None => {
            return None;
        },
    };
    let last = match find(c, &fence, first + 3) {
        Some(e) => e,
        None => {
            return None;
        },
    };
    let i: usize = match tag {
        Some(i) => i,
        None => {
            return Some((first + 3, last));
        },
    };
    if last + 3 <= i {
        return Some((first + 3, last));
    }
    let at: usize = i + 7;
    let n: usize = seek(c, '\n', at);
    let start: usize = if n < len {
        n + 1
    } else {
        at
    };
    match find(c, &fence, start) {
        Some(e) => Some((start, e)),
        None => None,
    }
}

/// The actions of all blocks.
fn read_generic_actions(c: &Vec<char>) -> (r: StructuredActions)
    ensures
        r@ == generic_actions(c@, 0),
{
    let mut r = StructuredActions::new();
    let mut from: usize = 0;
    let len: usize = c.len();
    proof {
        assert(StructuredActionsView::none().then_also(generic_actions(c@, 0)).tasks
            =~= generic_actions(c@, 0).tasks);
        assert(StructuredActionsView::none().then_also(generic_actions(c@, 0)).facts
            =~= generic_actions(c@, 0).facts);
        assert(StructuredActionsView::none().then_also(generic_actions(c@, 0)).wake
            =~= generic_actions(c@, 0).wake);
    }
    loop
        invariant
            from <= len == c@.len(),
            r@.then_also(generic_actions(c@, from as int)) == generic_actions(c@, 0),
        ensures
            r@ == generic_actions(c@, 0),
        decreases c@.len() - from,
    {
        let ghost before = r@;
        let ghost rest = generic_actions(c@, from as int);
        match find_block(c, from) {
            Some((s, e)) => {
                let (a, b) = trim_bounds(c, s, e);
                let found = actions_text(&pack(c, a, b));
                r.extend(&found);
                proof {
                    let next = generic_actions(c@, e + 3);
                    assert(rest == found@.then_also(next));
                    assert(r@.then_also(next).tasks =~= before.then_also(rest).tasks);
                    assert(r@.then_also(next).facts =~= before.then_also(rest).facts);
                    assert(r@.then_also(next).wake =~= before.then_also(rest).wake);
                }
                from = e + 3;
            },
            None => {
                proof {
                    assert(rest == StructuredActionsView::none());
                    assert(r@.tasks =~= before.then_also(rest).tasks);
                    assert(r@.facts =~= before.then_also(rest).facts);
                    assert(r@.wake =~= before.then_also(rest).wake);
                }
                break ;
            },
        }
    }
    r
}

/// The actions in an answer.
pub fn extract_actions(content: &str) -> (r: StructuredActions)
    ensures
        r@ == actions_of(content@),
{
    let c = chars_of(content);
    let mut r = read_typed_actions(&c);
    let unified = match fenced_text(&c, "```json:actions") {
        Some(t) => actions_text(&t),
        None => StructuredActions::new(),
    };
    r.extend(&unified);
    if r.is_empty() {
        read_generic_actions(&c)
    } else {
        r
    }
}

/// An answer without a fence holds no actions.
pub proof fn no_fence_no_actions(c: Seq<char>)
    requires
        forall|i: int| !occurs_at(c, "```"@, i),
    ensures
        actions_of(c) == StructuredActionsView::none(),
{
    find_from_complete(c, "```json:tasks"@, 0);
    find_from_complete(c, "```json:facts"@, 0);
    find_from_complete(c, "```json:wake"@, 0);
    find_from_complete(c, "```json:actions"@, 0);
    find_from_complete(c, "```json"@, 0);
    assert forall|i: int| 0 <= i implies (#[trigger] find_from(c, "```"@, i)) is None by {
        find_from_complete(c, "```"@, i);
    }
    next_block_ahead(c, 0);
    let marked = typed_actions(c).then_also(unified_actions(c));
    assert(generic_actions(c, 0) == StructuredActionsView::none());
}

/// Between two plain fences no marker of a tagged block occurs.
proof fn no_marker_between(t: Seq<char>, p: Seq<char>, j: int)
    requires
        !t.contains('`'),
        !occurs_at(t, "json"@, 0),
        p.len() >= 7,
        p.subrange(0, 7) == "```json"@,
    ensures
        !occurs_at("```"@ + t + "```"@, p, j),
{
    let c = "```"@ + t + "```"@;
    let n = t.len() as int;
    reveal_strlit("```");
    reveal_strlit("json");
    reveal_strlit("```json");
    if occurs_at(c, p, j) {
        assert forall|k: int| 0 <= k < 7 implies #[trigger] c[j + k] == p.subrange(0, 7)[k] by {
            assert(c.subrange(j, j + p.len())[k] == p[k]);
        }
        assert(c[j + 0] == '`' && c[j + 1] == '`' && c[j + 2] == '`');
        assert(c[j + 3] == 'j' && c[j + 4] == 's' && c[j + 5] == 'o' && c[j + 6] == 'n');
        assert forall|i: int| 3 <= i < 3 + n implies #[trigger] c[i] != '`' by {
            assert(t.contains(t[i - 3]));
        }
        assert(j == 0);
        assert(c[3 + n] == '`');
        assert(n >= 4);
        assert(t[0] == c[3] && t[1] == c[4] && t[2] == c[5] && t[3] == c[6]);
        assert(t.subrange(0, 4) =~= "json"@);
    }
}

/// Where the two fences around a text stand.
proof fn fences_around(t: Seq<char>)
    requires
        !t.contains('`'),
    ensures
        find_from("```"@ + t + "```"@, "```"@, 0) == Some(0int),
        find_from("```"@ + t + "```"@, "```"@, 3) == Some(3 + t.len() as int),
        find_from("```"@ + t + "```"@, "```"@, 6 + t.len() as int) is None,
{
    let c = "```"@ + t + "```"@;
    let n = t.len() as int;
    reveal_strlit("```");
    assert(c.subrange(0, 3) =~= "```"@);
    assert(c.subrange(3 + n, 6 + n) =~= "```"@);
    assert forall|j: int| 3 <= j < 3 + n implies !occurs_at(c, "```"@, j) by {
        if occurs_at(c, "```"@, j) {
            assert(c.subrange(j, j + 3)[0] == c[j]);
            assert(t.contains(t[j - 3]));
        }
    }
    find_from_complete(c, "```"@, 0);
    assert(occurs_at(c, "```"@, 0));
    find_from_complete(c, "```"@, 3);
    assert(occurs_at(c, "```"@, 3 + n));
}

/// What stands alone between two plain fences is read as JSON.
pub proof fn plain_fences_are_read(t: Seq<char>)
    requires
        !t.contains('`'),
        !occurs_at(t, "json"@, 0),
    ensures
        actions_of("```"@ + t + "```"@) == actions_in(trim(t)),
{
    let c = "```"@ + t + "```"@;
    let n = t.len() as int;
    fences_around(t);
    assert forall|p: Seq<char>|
        p.len() >= 7 && p.subrange(0, 7) == "```json"@ implies #[trigger] find_from(c, p, 0)
        is None by {
        find_from_complete(c, p, 0);
        if find_from(c, p, 0) is Some {
            no_marker_between(t, p, find_from(c, p, 0)->0);
        }
    }
    assert(find_from(c, "```json"@, 0) is None) by {
        reveal_strlit("```json");
        assert("```json"@.subrange(0, 7) =~= "```json"@);
    }
    assert(fenced(c, "```json:tasks"@) is None) by {
        reveal_strlit("```json");
        reveal_strlit("```json:tasks");
        assert("```json:tasks"@.subrange(0, 7) =~= "```json"@);
    }
    assert(fenced(c, "```json:facts"@) is None) by {
        reveal_strlit("```json");
        reveal_strlit("```json:facts");
        assert("```json:facts"@.subrange(0, 7) =~= "```json"@);
    }
    assert(fenced(c, "```json:wake"@) is None) by {
        reveal_strlit("```json");
        reveal_strlit("```json:wake");
        assert("```json:wake"@.subrange(0, 7) =~= "```json"@);
    }
    assert(fenced(c, "```json:actions"@) is None) by {
        reveal_strlit("```json");
        reveal_strlit("```json:actions");
        assert("```json:actions"@.subrange(0, 7) =~= "```json"@);
    }
    let marked = typed_actions(c).then_also(unified_actions(c));
    assert(marked.is_none());
    assert(next_block(c, 0) == Some((3int, 3 + n)));
    assert(c.subrange(3, 3 + n) =~= t) by {
        reveal_strlit("```");
    }
    assert(next_block(c, 6 + n) is None);
    let found = actions_in(trim(t));
    assert(generic_actions(c, 6 + n) == StructuredActionsView::none());
    assert(generic_actions(c, 0) == found.then_also(StructuredActionsView::none()));
    assert(found.then_also(StructuredActionsView::none()).tasks =~= found.tasks);
    assert(found.then_also(StructuredActionsView::none()).facts =~= found.facts);
    assert(found.then_also(StructuredActionsView::none()).wake =~= found.wake);
}

// ---------------------------------------------------------------------------
// Events
// ---------------------------------------------------------------------------

/// The event that stores a task.
pub open spec fn task_payload(t: TaskBlockView, l: LlmResponseView) -> JsonView {
    JsonView::object().put("title"@, JsonView::Text(t.title)).put(
        "description"@,
        text_or_null(t.description),
    ).put("priority"@, JsonView::Text(t.priority)).put("status"@, JsonView::Text("open"@)).put(
        "assigned_agent"@,
        JsonView::Text(t.assigned_agent.unwrap_or(l.agent_id)),
    ).put("due_date"@, text_or_null(t.due_date)).put(
        "context"@,
        JsonView::object().put("source_agent"@, JsonView::Text(l.agent_id)).put(
            "source_model"@,
            JsonView::Text(l.model_used),
        ),
    )
}

/// The fact that a block states, with the answer as its source.
pub open spec fn fact_request(f: FactBlockView, l: LlmResponseView) -> FactUpsertRequestView {
    FactUpsertRequestView {
        subject: f.subject,
        predicate: f.predicate,
        object: f.object,
        value: f.value,
        confidence: f.confidence,
        source_content: "llm-response:"@ + l.agent_id,
    }
}

/// The event that wakes an agent.
pub open spec fn wake_payload(w: WakeBlockView) -> JsonView {
    JsonView::object().put("agent_id"@, JsonView::Text(w.agent_id)).put(
        "reason"@,
        JsonView::Text(w.reason),
    ).put("context"@, text_map_json(w.context))
}

/// An event of this plugin.
pub open spec fn emitted(
    subject: Seq<char>,
    payload: JsonView,
    correlation_id: Option<Seq<char>>,
    scope: Option<Seq<char>>,
) -> PublicationView {
    PublicationView { subject, source: PLUGIN_ID@, correlation_id, scope, payload }
}

/// The events of some actions: first the tasks, then the facts, then the agents to
/// wake.
pub open spec fn action_events(
    a: StructuredActionsView,
    l: LlmResponseView,
    correlation_id: Option<Seq<char>>,
    scope: Option<Seq<char>>,
) -> Seq<PublicationView> {
    Seq::new(
        a.tasks.len(),
        |i: int|
            emitted("brain.task.upsert"@, task_payload(a.tasks[i], l), correlation_id, scope),
    ) + Seq::new(
        a.facts.len(),
        |i: int|
            emitted(
                "brain.fact.upsert"@,
                fact_upsert_json(fact_request(a.facts[i], l)),
                correlation_id,
                scope,
            ),
    ) + Seq::new(
        a.wake.len(),
        |i: int|
            emitted(
                "agent."@ + a.wake[i].agent_id + ".wake"@,
                wake_payload(a.wake[i]),
                correlation_id,
                scope,
            ),
    )
}

/// An event of this plugin.
fn emit(
    subject: String,
    payload: Json,
    correlation_id: &Option<String>,
    scope: &Option<String>,
) -> (r: Publication)
    ensures
        r@ == emitted(subject@, payload@, view_opt(*correlation_id), view_opt(*scope)),
{
    Publication {
        subject,
        source: own(PLUGIN_ID),
        correlation_id: duplicate_opt(correlation_id),
        scope: duplicate_opt(scope),
        payload,
    }
}

/// The event that stores a task.
fn task_document(t: &TaskBlock, l: &LlmResponse) -> (r: Json)
    ensures
        r@ == task_payload(t@, l@),
{
    let agent = match &t.assigned_agent {
        Some(a) => a.clone(),
        None => l.agent_id.clone(),
    };
    Json::object().put("title", Json::text(&t.title)).put(
        "description",
        Json::opt(&t.description),
    ).put("priority", Json::text(&t.priority)).put("status", Json::text("open")).put(
        "assigned_agent",
        Json::text(&agent),
    ).put("due_date", Json::opt(&t.due_date)).put(
        "context",
        Json::object().put("source_agent", Json::text(&l.agent_id)).put(
            "source_model",
            Json::text(&l.model_used),
        ),
    )
}

/// The events of an answer, in the order in which they are published.
pub fn process_response(
    l: &LlmResponse,
    correlation_id: &Option<String>,
    scope: &Option<String>,
) -> (r: Vec<Publication>)
    ensures
        views(r@) == match l@.content {
            Some(c) => action_events(
                actions_of(c),
                l@,
                view_opt(*correlation_id),
                view_opt(*scope),
            ),
            None => Seq::empty(),
        },
{
    let mut out: Vec<Publication> = Vec::new();
    let content = match &l.content {
        Some(c) => c,
        None => {
            assert(views(out@) =~= Seq::empty());
            return out;
        },
    };
    let a = extract_actions(content);
    let ghost all = action_events(a@, l@, view_opt(*correlation_id), view_opt(*scope));
    let mut i: usize = 0;
    while i < a.tasks.len()
        invariant
            i <= a.tasks@.len(),
            all == action_events(a@, l@, view_opt(*correlation_id), view_opt(*scope)),
            out@.len() == i,
            forall|k: int| 0 <= k < out@.len() ==> (#[trigger] out@[k])@ == all[k],
        decreases a.tasks@.len() - i,
    {
        let p = task_document(&a.tasks[i], l);
        out.push(emit(own("brain.task.upsert"), p, correlation_id, scope));
        i = i + 1;
    }
    let mut i: usize = 0;
    while i < a.facts.len()
        invariant
            i <= a.facts@.len(),
            all == action_events(a@, l@, view_opt(*correlation_id), view_opt(*scope)),
            out@.len() == a.tasks@.len() + i,
            forall|k: int| 0 <= k < out@.len() ==> (#[trigger] out@[k])@ == all[k],
        decreases a.facts@.len() - i,
    {
        let f = &a.facts[i];
        let request = FactUpsertRequest {
            subject: f.subject.clone(),
            predicate: f.predicate.clone(),
            object: duplicate_opt(&f.object),
            value: duplicate_opt(&f.value),
            confidence: f.confidence.copy(),
            source_content: cat2("llm-response:", &l.agent_id),
        };
        out.push(
            emit(
                own("brain.fact.upsert"),
                fact_upsert_document(&request),
                correlation_id,
                scope,
            ),
        );
        i = i + 1;
    }
    let mut i: usize = 0;
    while i < a.wake.len()
        invariant
            i <= a.wake@.len(),
            all == action_events(a@, l@, view_opt(*correlation_id), view_opt(*scope)),
            out@.len() == a.tasks@.len() + a.facts@.len() + i,
            forall|k: int| 0 <= k < out@.len() ==> (#[trigger] out@[k])@ == all[k],
        decreases a.wake@.len() - i,
    {
        let w = &a.wake[i];
        let p = Json::object().put("agent_id", Json::text(&w.agent_id)).put(
            "reason",
            Json::text(&w.reason),
        ).put("context", text_map_document(&w.context));
        out.push(emit(cat3("agent.", &w.agent_id, ".wake"), p, correlation_id, scope));
        i = i + 1;
    }
    assert(views(out@) =~= all);
    out
}

/// What goes out for a fact reads back as that fact.
proof fn fact_reads_back(f: FactBlockView, l: LlmResponseView)
    requires
        is_number(f.confidence),
    ensures
        fact_block_of(fact_upsert_json(fact_request(f, l))) == Some(f),
        fact_upsert_json(fact_request(f, l)).text_at("source_content"@) == Some(
            "llm-response:"@ + l.agent_id,
        ),
{
    reveal_strlit("subject");
    reveal_strlit("predicate");
    reveal_strlit("object");
    reveal_strlit("value");
    reveal_strlit("confidence");
    reveal_strlit("source_content");
    reveal_strlit("valid_from");
    assert("subject"@.len() == 7);
    assert("predicate"@.len() == 9);
    assert("object"@.len() == 6);
    assert("value"@.len() == 5);
    assert("confidence"@.len() == 10);
    assert("source_content"@.len() == 14);
    assert("valid_from"@.len() == 10);
    assert("confidence"@[0] != "valid_from"@[0]);
}

/// What goes out for a task says what the task says. A task without an agent goes to the one
/// that named it.
proof fn task_reads_back(t: TaskBlockView, l: LlmResponseView)
    ensures
        ({
            let j = task_payload(t, l);
            &&& j.text_at("title"@) == Some(t.title)
            &&& optional_text_at(j, "description"@) == Some(t.description)
            &&& j.text_at("priority"@) == Some(t.priority)
            &&& j.text_at("status"@) == Some("open"@)
            &&& optional_text_at(j, "due_date"@) == Some(t.due_date)
            &&& t.assigned_agent is Some ==> j.text_at("assigned_agent"@) == t.assigned_agent
            &&& t.assigned_agent is None ==> j.text_at("assigned_agent"@) == Some(l.agent_id)
            &&& j.get("context"@) is Some
            &&& j.get("context"@)->0.text_at("source_agent"@) == Some(l.agent_id)
            &&& j.get("context"@)->0.text_at("source_model"@) == Some(l.model_used)
        }),
{
    reveal_strlit("title");
    reveal_strlit("description");
    reveal_strlit("priority");
    reveal_strlit("status");
    reveal_strlit("assigned_agent");
    reveal_strlit("due_date");
    reveal_strlit("scope");
    reveal_strlit("context");
    reveal_strlit("source_agent");
    reveal_strlit("source_model");
    assert("title"@.len() == 5);
    assert("description"@.len() == 11);
    assert("priority"@.len() == 8);
    assert("status"@.len() == 6);
    assert("assigned_agent"@.len() == 14);
    assert("due_date"@.len() == 8);
    assert("scope"@.len() == 5);
    assert("context"@.len() == 7);
    assert("source_agent"@.len() == 12);
    assert("source_model"@.len() == 12);
    assert("title"@[0] != "scope"@[0]);
    assert("priority"@[0] != "due_date"@[0]);
    assert("source_agent"@[7] != "source_model"@[7]);
}

/// What goes out for an agent to wake reads back as what was asked.
proof fn wake_reads_back(w: WakeBlockView)
    ensures
        wake_block_of(wake_payload(w)) == Some(w),
{
    reveal_strlit("agent_id");
    reveal_strlit("reason");
    reveal_strlit("context");
    assert("agent_id"@.len() == 8);
    assert("reason"@.len() == 6);
    assert("context"@.len() == 7);
    text_map_read_back(wake_payload(w), "context"@, w.context);
}

/// Every task, fact and wake that a response states goes out once, in the order in which they
/// stand, and says what was stated.
pub proof fn actions_go_out(
    a: StructuredActionsView,
    l: LlmResponseView,
    correlation_id: Option<Seq<char>>,
    scope: Option<Seq<char>>,
    i: int,
)
    ensures
        ({
            let r = action_events(a, l, correlation_id, scope);
            let t = a.tasks.len() as int;
            let f = t + a.facts.len();
            &&& r.len() == a.tasks.len() + a.facts.len() + a.wake.len()
            &&& 0 <= i < r.len() ==> r[i].correlation_id == correlation_id && r[i].scope == scope
                && r[i].source == PLUGIN_ID@
            &&& 0 <= i < a.tasks.len() ==> r[i].subject == "brain.task.upsert"@
                && r[i].payload.text_at("title"@) == Some(a.tasks[i].title) && optional_text_at(
                r[i].payload,
                "description"@,
            ) == Some(a.tasks[i].description) && r[i].payload.text_at("priority"@) == Some(
                a.tasks[i].priority,
            ) && optional_text_at(r[i].payload, "due_date"@) == Some(a.tasks[i].due_date)
                && r[i].payload.text_at("status"@) == Some("open"@)
            &&& 0 <= i < a.tasks.len() && a.tasks[i].assigned_agent is Some
                ==> r[i].payload.text_at("assigned_agent"@) == a.tasks[i].assigned_agent
            &&& 0 <= i < a.tasks.len() && a.tasks[i].assigned_agent is None
                ==> r[i].payload.text_at("assigned_agent"@) == Some(l.agent_id)
            &&& 0 <= i < a.facts.len() ==> r[t + i].subject == "brain.fact.upsert"@
                && r[t + i].payload.text_at("subject"@) == Some(a.facts[i].subject)
                && r[t + i].payload.text_at("predicate"@) == Some(a.facts[i].predicate)
                && optional_text_at(r[t + i].payload, "object"@) == Some(a.facts[i].object)
                && optional_text_at(r[t + i].payload, "value"@) == Some(a.facts[i].value)
                && r[t + i].payload.get("confidence"@) == Some(a.facts[i].confidence)
            &&& 0 <= i < a.facts.len() && is_number(a.facts[i].confidence) ==> fact_block_of(
                r[t + i].payload,
            ) == Some(a.facts[i])
            &&& 0 <= i < a.wake.len() ==> r[f + i].subject == "agent."@ + a.wake[i].agent_id
                + ".wake"@ && wake_block_of(r[f + i].payload) == Some(a.wake[i])
        }),
{
    reveal_strlit("subject");
    reveal_strlit("predicate");
    reveal_strlit("object");
    reveal_strlit("value");
    reveal_strlit("confidence");
    reveal_strlit("source_content");
    reveal_strlit("valid_from");
    assert("subject"@.len() == 7);
    assert("predicate"@.len() == 9);
    assert("object"@.len() == 6);
    assert("value"@.len() == 5);
    assert("confidence"@.len() == 10);
    assert("source_content"@.len() == 14);
    assert("valid_from"@.len() == 10);
    assert("confidence"@[0] != "valid_from"@[0]);
    let r = action_events(a, l, correlation_id, scope);
    let t = a.tasks.len() as int;
    let f = t + a.facts.len();
    if 0 <= i < a.tasks.len() {
        task_reads_back(a.tasks[i], l);
    }
    if 0 <= i < a.facts.len() {
        assert(r[t + i].payload == fact_upsert_json(fact_request(a.facts[i], l)));
        if is_number(a.facts[i].confidence) {
            fact_reads_back(a.facts[i], l);
        }
    }
    if 0 <= i < a.wake.len() {
        assert(r[f + i].payload == wake_payload(a.wake[i]));
        wake_reads_back(a.wake[i]);
    }
}

/// A task is what its document says; a task without a priority has the middle one.
pub proof fn task_is_read(j: JsonView)
    requires
        j is Object,
    ensures
        match task_block_of(j) {
            Some(x) => {
            &&& j.text_at("title"@) == Some(x.title)
            &&& optional_text_at(j, "description"@) == Some(x.description)
            &&& default_text_at(j, "priority"@, "medium"@) == Some(x.priority)
            &&& optional_text_at(j, "assigned_agent"@) == Some(x.assigned_agent)
            &&& optional_text_at(j, "due_date"@) == Some(x.due_date)
            &&& optional_text_at(j, "scope"@) == Some(x.scope)
            },
            None => j.text_at("title"@) is None || optional_text_at(j, "description"@) is None || default_text_at(j, "priority"@, "medium"@) is None || optional_text_at(j, "assigned_agent"@) is None || optional_text_at(j, "due_date"@) is None || optional_text_at(j, "scope"@) is None,
        },
{
}

/// A fact is what its document says.
pub proof fn fact_is_read(j: JsonView)
    requires
        j is Object,
    ensures
        match fact_block_of(j) {
            Some(x) => {
            &&& j.text_at("subject"@) == Some(x.subject)
            &&& j.text_at("predicate"@) == Some(x.predicate)
            &&& optional_text_at(j, "object"@) == Some(x.object)
            &&& optional_text_at(j, "value"@) == Some(x.value)
            &&& default_number_at(j, "confidence"@, "0.8"@) == Some(x.confidence)
            },
            None => j.text_at("subject"@) is None || j.text_at("predicate"@) is None || optional_text_at(j, "object"@) is None || optional_text_at(j, "value"@) is None || default_number_at(j, "confidence"@, "0.8"@) is None,
        },
{
}

/// An agent is woken as its document says.
pub proof fn wake_is_read(j: JsonView)
    requires
        j is Object,
    ensures
        match wake_block_of(j) {
            Some(x) => {
            &&& j.text_at("agent_id"@) == Some(x.agent_id)
            &&& j.text_at("reason"@) == Some(x.reason)
            &&& default_text_map_at(j, "context"@) == Some(x.context)
            },
            None => j.text_at("agent_id"@) is None || j.text_at("reason"@) is None || default_text_map_at(j, "context"@) is None,
        },
{
}

/// A document of actions states its tasks, its facts and the agents to wake.
pub proof fn actions_are_read(j: JsonView)
    requires
        j is Object,
    ensures
        match structured_actions_of(j) {
            Some(x) => {
            &&& default_task_blocks_at(j, "tasks"@) == Some(x.tasks)
            &&& default_fact_blocks_at(j, "facts"@) == Some(x.facts)
            &&& default_wake_blocks_at(j, "wake"@) == Some(x.wake)
            },
            None => default_task_blocks_at(j, "tasks"@) is None || default_fact_blocks_at(j, "facts"@) is None || default_wake_blocks_at(j, "wake"@) is None,
        },
{
}

/// A list of blocks is read block by block, in order, or not at all.
pub proof fn lists_are_read(a: Seq<JsonView>, i: int)
    requires
        0 <= i < a.len(),
    ensures
        task_blocks_of(a) is Some ==> task_blocks_of(a)->0.len() == a.len() && task_block_of(a[i])
            == Some(task_blocks_of(a)->0[i]),
        fact_blocks_of(a) is Some ==> fact_blocks_of(a)->0.len() == a.len() && fact_block_of(a[i])
            == Some(fact_blocks_of(a)->0[i]),
        wake_blocks_of(a) is Some ==> wake_blocks_of(a)->0.len() == a.len() && wake_block_of(a[i])
            == Some(wake_blocks_of(a)->0[i]),
        task_block_of(a[i]) is None ==> task_blocks_of(a) is None,
        fact_block_of(a[i]) is None ==> fact_blocks_of(a) is None,
        wake_block_of(a[i]) is None ==> wake_blocks_of(a) is None,
{
}

/// The blocks that are marked for what they hold are all read: first those marked for one
/// thing, then those of the block for all things.
pub proof fn marked_blocks_are_read(
    c: Seq<char>,
    tasks: Seq<JsonView>,
    facts: Seq<JsonView>,
    wake: Seq<JsonView>,
)
    ensures
        ({
            let a = actions_of(c);
            let u = unified_actions(c);
            &&& array_in(fenced(c, "```json:tasks"@)) == Some(tasks) && task_blocks_of(
                tasks,
            ) is Some && tasks.len() > 0 ==> a.tasks == task_blocks_of(tasks)->0 + u.tasks
            &&& array_in(fenced(c, "```json:facts"@)) == Some(facts) && fact_blocks_of(
                facts,
            ) is Some && facts.len() > 0 ==> a.facts == fact_blocks_of(facts)->0 + u.facts
            &&& array_in(fenced(c, "```json:wake"@)) == Some(wake) && wake_blocks_of(wake) is Some
                && wake.len() > 0 ==> a.wake == wake_blocks_of(wake)->0 + u.wake
        }),
{
    let t = typed_actions(c);
    let m = t.then_also(unified_actions(c));
    if array_in(fenced(c, "```json:tasks"@)) == Some(tasks) && task_blocks_of(tasks) is Some
        && tasks.len() > 0 {
        assert(m.tasks.len() > 0);
    }
    if array_in(fenced(c, "```json:facts"@)) == Some(facts) && fact_blocks_of(facts) is Some
        && facts.len() > 0 {
        assert(m.facts.len() > 0);
    }
    if array_in(fenced(c, "```json:wake"@)) == Some(wake) && wake_blocks_of(wake) is Some
        && wake.len() > 0 {
        assert(m.wake.len() > 0);
    }
}

/// The block for all things is read where it stands alone.
pub proof fn block_for_all_is_read(c: Seq<char>, text: Seq<char>, j: JsonView)
    requires
        fenced(c, "```json:actions"@) == Some(text),
        json_of_text(text) == Ok::<JsonView, Seq<char>>(j),
        structured_actions_of(j) is Some,
    ensures
        unified_actions(c) == structured_actions_of(j)->0,
        typed_actions(c).is_none() && !structured_actions_of(j)->0.is_none() ==> actions_of(c).tasks
            == structured_actions_of(j)->0.tasks && actions_of(c).facts == structured_actions_of(
            j,
        )->0.facts && actions_of(c).wake == structured_actions_of(j)->0.wake,
{
    let x = structured_actions_of(j)->0;
    if typed_actions(c).is_none() {
        assert(typed_actions(c).then_also(x).tasks =~= x.tasks);
        assert(typed_actions(c).then_also(x).facts =~= x.facts);
        assert(typed_actions(c).then_also(x).wake =~= x.wake);
    }
}

/// A block that is tagged as JSON is read.
pub proof fn tagged_fences_are_read(t: Seq<char>)
    requires
        !t.contains('`'),
    ensures
        actions_of("```json\n"@ + t + "```"@) == actions_in(trim(t)),
{
    reveal_strlit("```");
    reveal_strlit("```json");
    reveal_strlit("json\n");
    reveal_strlit("```json\n");
    let u = "json\n"@ + t;
    let c = "```"@ + u + "```"@;
    let n = t.len() as int;
    assert("```json\n"@ + t + "```"@ =~= c);
    assert(!u.contains('`')) by {
        if u.contains('`') {
            let i = choose|i: int| 0 <= i < u.len() && u[i] == '`';
            assert(i >= 5);
            assert(t[i - 5] == '`');
        }
    }
    fences_around(u);
    assert(c.subrange(0, 7) =~= "```json"@);
    assert(find_from(c, "```json"@, 0) == Some(0int));
    assert forall|p: Seq<char>|
        p.len() >= 8 && p.subrange(0, 7) == "```json"@ && p[7] == ':' implies #[trigger] find_from(
        c,
        p,
        0,
    ) is None by {
        find_from_complete(c, p, 0);
        if find_from(c, p, 0) is Some {
            no_mark_behind_the_tag(t, p, find_from(c, p, 0)->0);
        }
    }
    assert(fenced(c, "```json:tasks"@) is None) by {
        reveal_strlit("```json:tasks");
        reveal_strlit("```json");
        assert("```json:tasks"@.subrange(0, 7) =~= "```json"@);
        assert("```json:tasks"@[7] == ':');
    }
    assert(fenced(c, "```json:facts"@) is None) by {
        reveal_strlit("```json:facts");
        reveal_strlit("```json");
        assert("```json:facts"@.subrange(0, 7) =~= "```json"@);
        assert("```json:facts"@[7] == ':');
    }
    assert(fenced(c, "```json:wake"@) is None) by {
        reveal_strlit("```json:wake");
        reveal_strlit("```json");
        assert("```json:wake"@.subrange(0, 7) =~= "```json"@);
        assert("```json:wake"@[7] == ':');
    }
    assert(fenced(c, "```json:actions"@) is None) by {
        reveal_strlit("```json:actions");
        reveal_strlit("```json");
        assert("```json:actions"@.subrange(0, 7) =~= "```json"@);
        assert("```json:actions"@[7] == ':');
    }
    let marked = typed_actions(c).then_also(unified_actions(c));
    assert(marked.is_none());
    let line = c.subrange(7, c.len() as int);
    assert(line[0] == '\n');
    assert(content_start(c, 7) == 8);
    find_from_complete(c, "```"@, 3);
    find_from_complete(c, "```"@, 8);
    assert(c.subrange(8 + n, 11 + n) =~= "```"@);
    assert(occurs_at(c, "```"@, 8 + n));
    assert(find_from(c, "```"@, 8) == Some(8 + n));
    assert(tagged_block(c, 0) == Some((8int, 8 + n)));
    assert(next_block(c, 0) == Some((8int, 8 + n)));
    assert(c.subrange(8, 8 + n) =~= t);
    assert(next_block(c, 11 + n) is None);
    let found = actions_in(trim(t));
    assert(generic_actions(c, 11 + n) == StructuredActionsView::none());
    assert(generic_actions(c, 0) == found.then_also(StructuredActionsView::none()));
    assert(found.then_also(StructuredActionsView::none()).tasks =~= found.tasks);
    assert(found.then_also(StructuredActionsView::none()).facts =~= found.facts);
    assert(found.then_also(StructuredActionsView::none()).wake =~= found.wake);
}

/// Behind the tag of a plain JSON block no marker stands.
proof fn no_mark_behind_the_tag(t: Seq<char>, p: Seq<char>, j: int)
    requires
        !t.contains('`'),
        p.len() >= 8,
        p.subrange(0, 7) == "```json"@,
        p[7] == ':',
    ensures
        !occurs_at("```"@ + ("json\n"@ + t) + "```"@, p, j),
{
    reveal_strlit("```");
    reveal_strlit("```json");
    reveal_strlit("json\n");
    let u = "json\n"@ + t;
    let c = "```"@ + u + "```"@;
    let n = t.len() as int;
    if occurs_at(c, p, j) {
        assert forall|k: int| 0 <= k < 7 implies #[trigger] c[j + k] == p.subrange(0, 7)[k] by {
            assert(c.subrange(j, j + p.len())[k] == p[k]);
        }
        assert(c[j + 0] == '`' && c[j + 1] == '`' && c[j + 2] == '`');
        assert(c[j + 3] == 'j');
        assert(c.subrange(j, j + p.len())[7] == p[7]);
        assert(c[j + 7] == ':');
        assert forall|i: int| 3 <= i < 8 + n implies #[trigger] c[i] != '`' by {
            assert(c[i] == u[i - 3]);
            if i >= 8 {
                assert(u[i - 3] == t[i - 8]);
                assert(t.contains(t[i - 8]));
            }
        }
        assert(j == 0);
        assert(c[7] == '\n');
    }
}

/// What stands between a marker and the next fence is read, without the blanks round it.
pub proof fn marked_text_is_read(marker: Seq<char>, t: Seq<char>)
    requires
        !t.contains('`'),
    ensures
        fenced(marker + t + "```"@, marker) == Some(trim(t)),
{
    reveal_strlit("```");
    let c = marker + t + "```"@;
    let m = marker.len() as int;
    let n = t.len() as int;
    assert(c.subrange(0, m) =~= marker);
    assert(find_from(c, marker, 0) == Some(0int));
    find_from_complete(c, "```"@, m);
    assert(c.subrange(m + n, m + n + 3) =~= "```"@);
    assert(occurs_at(c, "```"@, m + n));
    assert forall|j: int| m <= j < m + n implies !occurs_at(c, "```"@, j) by {
        if occurs_at(c, "```"@, j) {
            assert(c.subrange(j, j + 3)[0] == c[j]);
            assert(t.contains(t[j - m]));
        }
    }
    assert(c.subrange(m, m + n) =~= t);
}

} // verus!
