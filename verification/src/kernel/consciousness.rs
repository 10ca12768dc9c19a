//! The agent runtime: which events reach an agent, how a built-in capability
//! call is routed, and what happens to an event from its arrival to the reply.
use crate::duplicate::{duplicate_all, duplicate_opt, Duplicate, TextMap};
use crate::events::{
    AgentFeedback, BusReply, ChannelOutbound, ChannelOutboundView, ConsciousnessEvent,
    ConsciousnessEventView, EventOriginView, FactUpsertRequest, FactUpsertRequestView, Publication,
    PublicationView, ToolCallRequest, ToolCallRequestView, ToolCallResponse, ToolCallResponseView,
    ToolRegister, ToolRegisterView, ToolSchema, ToolSchemaView, UnifiedMessage, UnifiedMessageView,
    UnifiedToolCall, UnifiedToolCallView, UnifiedToolResult, UnifiedToolResultView,
};
use crate::json::{text_array, Json, JsonView};
use crate::kernel::agent::{is_yaml, yaml_extension, AgentDefinition, GuardrailOverrides};
use crate::kernel::arguments::{
    check_shape, check_surplus, earlier, earlier_of, element_texts, is_array, opt_json_argument,
    opt_text_argument, opt_texts_argument, opt_u32_argument, opt_u64_argument, problem, problem_of,
    read_opt_json, read_opt_text, read_opt_texts, read_opt_u32, read_opt_u64, read_text, read_texts,
    read_u64, shape_problem, surplus_problem, text_argument, texts_argument, u64_argument,
};
use crate::outside::{all_texts, json_of_bytes, json_to_text, settle};
use crate::table::Table;
use crate::text::{
    cat2, cat3, cat4, cat5, contains, contains_is_transitive, decimal, decimal_of, ends_with,
    has_prefix, has_suffix, has_text, is_blank, join, joined, own, part_stands_in_whole,
    pieces_stand_in_join, same, starts_with, trim, view_opt, views,
};
use vstd::prelude::*;

verus! {

/// The limits that an agent works under.
#[derive(Clone, Copy)]
pub struct GuardrailConfig {
    pub turn_limit: u32,
    pub time_limit_seconds: u64,
    pub hitl_after_turns: Option<u32>,
}

/// A limit that was overstepped.
pub enum GuardrailViolation {
    TurnLimitReached(u32),
    TimeLimitReached(u64),
    LoopDetected { tool_name: String, count: u32 },
    HitlRequired(u32),
}

/// A preference learned from a user. The confidence is a whole percentage, as text.
pub struct UserPreference {
    pub key: String,
    pub value: String,
    pub percent: String,
}

/// The mathematical content of a [`UserPreference`].
pub struct UserPreferenceView {
    pub key: Seq<char>,
    pub value: Seq<char>,
    pub percent: Seq<char>,
}

impl View for UserPreference {
    type V = UserPreferenceView;

    open spec fn view(&self) -> UserPreferenceView {
        UserPreferenceView {
            key: self.key@,
            value: self.value@,
            percent: self.percent@,
        }
    }
}

/// A message as conversations keep it.
pub struct ConversationMessage {
    pub role: String,
    pub content: Option<String>,
    pub tool_calls: Vec<UnifiedToolCall>,
    pub tool_results: Vec<UnifiedToolResult>,
}

/// The mathematical content of a [`ConversationMessage`].
pub struct ConversationMessageView {
    pub role: Seq<char>,
    pub content: Option<Seq<char>>,
    pub tool_calls: Seq<UnifiedToolCallView>,
    pub tool_results: Seq<UnifiedToolResultView>,
}

impl View for ConversationMessage {
    type V = ConversationMessageView;

    open spec fn view(&self) -> ConversationMessageView {
        ConversationMessageView {
            role: self.role@,
            content: view_opt(self.content),
            tool_calls: views(self.tool_calls@),
            tool_results: views(self.tool_results@),
        }
    }
}

/// A search for a conversation.
pub struct ConversationFindRequest {
    pub agent_id: String,
    pub platform: String,
    pub metadata_key: String,
    pub metadata_value: String,
}

/// The mathematical content of a [`ConversationFindRequest`].
pub struct ConversationFindRequestView {
    pub agent_id: Seq<char>,
    pub platform: Seq<char>,
    pub metadata_key: Seq<char>,
    pub metadata_value: Seq<char>,
}

impl View for ConversationFindRequest {
    type V = ConversationFindRequestView;

    open spec fn view(&self) -> ConversationFindRequestView {
        ConversationFindRequestView {
            agent_id: self.agent_id@,
            platform: self.platform@,
            metadata_key: self.metadata_key@,
            metadata_value: self.metadata_value@,
        }
    }
}

/// A conversation to be opened.
pub struct ConversationCreateRequest {
    pub platform: String,
    pub participants: Vec<String>,
    pub agent_id: String,
    pub scope: String,
    pub metadata: TextMap,
}

/// The mathematical content of a [`ConversationCreateRequest`].
pub struct ConversationCreateRequestView {
    pub platform: Seq<char>,
    pub participants: Seq<Seq<char>>,
    pub agent_id: Seq<char>,
    pub scope: Seq<char>,
    pub metadata: Map<Seq<char>, Seq<char>>,
}

impl View for ConversationCreateRequest {
    type V = ConversationCreateRequestView;

    open spec fn view(&self) -> ConversationCreateRequestView {
        ConversationCreateRequestView {
            platform: self.platform@,
            participants: views(self.participants@),
            agent_id: self.agent_id@,
            scope: self.scope@,
            metadata: self.metadata@,
        }
    }
}

/// A request to a model provider. Temperature is given in hundredths.
pub struct UnifiedLlmRequest {
    pub agent_id: String,
    pub messages: Vec<UnifiedMessage>,
    pub system_prompt: Option<String>,
    pub tools: Vec<ToolSchema>,
    pub temperature_hundredths: Option<u32>,
    pub max_tokens: Option<u32>,
    pub routing_strategy: String,
    pub model_preferences: Vec<String>,
    pub correlation_id: Option<String>,
    pub scope: Option<String>,
    pub user_id: Option<String>,
}

/// The mathematical content of a [`UnifiedLlmRequest`].
pub struct UnifiedLlmRequestView {
    pub agent_id: Seq<char>,
    pub messages: Seq<UnifiedMessageView>,
    pub system_prompt: Option<Seq<char>>,
    pub tools: Seq<ToolSchemaView>,
    pub temperature_hundredths: Option<u32>,
    pub max_tokens: Option<u32>,
    pub routing_strategy: Seq<char>,
    pub model_preferences: Seq<Seq<char>>,
    pub correlation_id: Option<Seq<char>>,
    pub scope: Option<Seq<char>>,
    pub user_id: Option<Seq<char>>,
}

impl View for UnifiedLlmRequest {
    type V = UnifiedLlmRequestView;

    open spec fn view(&self) -> UnifiedLlmRequestView {
        UnifiedLlmRequestView {
            agent_id: self.agent_id@,
            messages: views(self.messages@),
            system_prompt: view_opt(self.system_prompt),
            tools: views(self.tools@),
            temperature_hundredths: self.temperature_hundredths,
            max_tokens: self.max_tokens,
            routing_strategy: self.routing_strategy@,
            model_preferences: views(self.model_preferences@),
            correlation_id: view_opt(self.correlation_id),
            scope: view_opt(self.scope),
            user_id: view_opt(self.user_id),
        }
    }
}


// ---------------------------------------------------------------------------
// Subscriptions
// ---------------------------------------------------------------------------

/// A pattern of incoming channel messages. The workflow engine handles these,
/// so no agent subscribes to them.
pub open spec fn channel_inbound(pattern: Seq<char>) -> bool {
    starts_with(pattern, "channel."@) && ends_with(pattern, ".inbound"@)
}

/// The patterns that an agent subscribes to, in order.
pub open spec fn subscribed(patterns: Seq<Seq<char>>) -> Seq<Seq<char>>
    decreases patterns.len(),
{
    if patterns.len() == 0 {
        Seq::empty()
    } else if channel_inbound(patterns.last()) {
        subscribed(patterns.drop_last())
    } else {
        subscribed(patterns.drop_last()).push(patterns.last())
    }
}

/// The patterns that an agent subscribes to.
pub fn subscriptions(patterns: &Vec<String>) -> (r: Vec<String>)
    ensures
        views(r@) == subscribed(views(patterns@)),
{
    let mut out: Vec<String> = Vec::new();
    let mut i: usize = 0;
    proof {
        assert(views(out@) =~= subscribed(views(patterns@).subrange(0, 0)));
    }
    while i < patterns.len()
        invariant
            i <= patterns@.len(),
            views(out@) == subscribed(views(patterns@).subrange(0, i as int)),
        decreases patterns@.len() - i,
    {
        let ghost before = out@;
        let p = &patterns[i];
        proof {
            let t = views(patterns@).subrange(0, i + 1);
            assert(t.drop_last() =~= views(patterns@).subrange(0, i as int));
            assert(t.last() == p@);
        }
        if !(has_prefix(p, "channel.") && has_suffix(p, ".inbound")) {
            out.push(p.clone());
            proof {
                assert(views(out@) =~= views(before).push(p@));
            }
        }
        i = i + 1;
    }
    proof {
        assert(views(patterns@).subrange(0, i as int) =~= views(patterns@));
    }
    out
}

/// The subject under which an agent's events are published.
pub open spec fn consciousness_subject(agent_id: Seq<char>) -> Seq<char> {
    "agent."@ + agent_id + ".consciousness"@
}

/// The event that a message on a subscribed subject becomes.
pub open spec fn forwarded(
    agent_id: Seq<char>,
    subject: Seq<char>,
    payload: Result<JsonView, Seq<char>>,
) -> Option<ConsciousnessEventView> {
    match payload {
        Ok(v) => if v is Null {
            None
        } else {
            Some(
                ConsciousnessEventView {
                    agent_id,
                    event_type: "subscribed_event"@,
                    source_subject: Some(subject),
                    conversation_id: None,
                    payload: v,
                    origin: None,
                },
            )
        },
        Err(_) => None,
    }
}

/// Turns a decoded message into an event; a null or malformed one is dropped.
pub fn forward_decoded(agent_id: &str, subject: &str, payload: Result<Json, String>) -> (r: Option<
    ConsciousnessEvent,
>)
    ensures
        view_opt(r) == forwarded(
            agent_id@,
            subject@,
            match payload {
                Ok(v) => Ok(v@),
                Err(e) => Err(e@),
            },
        ),
{
    match payload {
        Ok(v) => {
            if v.is_null() {
                None
            } else {
                Some(
                    ConsciousnessEvent {
                        agent_id: own(agent_id),
                        event_type: own("subscribed_event"),
                        source_subject: Some(own(subject)),
                        conversation_id: None,
                        payload: v,
                        origin: None,
                    },
                )
            }
        },
        Err(_) => None,
    }
}

/// Turns the bytes of a message into an event for the agent.
pub fn forward_message(agent_id: &str, subject: &str, bytes: &[u8]) -> (r: Option<
    ConsciousnessEvent,
>)
    ensures
        view_opt(r) == forwarded(agent_id@, subject@, json_of_bytes(bytes@)),
{
    forward_decoded(agent_id, subject, Json::parse_bytes(bytes))
}

/// The subject of an agent's event stream.
pub fn consciousness_subject_of(agent_id: &str) -> (r: String)
    ensures
        r@ == consciousness_subject(agent_id@),
{
    cat3("agent.", agent_id, ".consciousness")
}

// ---------------------------------------------------------------------------
// The service loop
// ---------------------------------------------------------------------------

/// What arrives at the service.
pub enum ServiceEvent {
    /// A request to read the agent definitions again.
    Reload,
    /// A capability call, with the subject to reply to and the decoded request.
    Call { reply: Option<String>, request: Option<ToolCallRequest> },
    /// Feedback on an agent, where it could be decoded.
    Feedback(Option<AgentFeedback>),
}

/// What the service does about it.
pub enum ServiceAction {
    /// Read the agent definitions again.
    Reload,
    /// Run the next step of a capability call and answer under the subject.
    Run { step: BuiltinStep, reply: String },
    /// Store a fact.
    Store(FactUpsertRequest),
    /// Nothing.
    Ignore,
}

/// The fact that records a preference.
pub open spec fn preference_fact_view(
    agent_id: Seq<char>,
    key: Seq<char>,
    value: Seq<char>,
    confidence: JsonView,
) -> FactUpsertRequestView {
    FactUpsertRequestView {
        subject: agent_id,
        predicate: "user_prefers_"@ + key,
        object: None,
        value: Some(value),
        confidence,
        source_content: "User preference: "@ + key + " = "@ + value,
    }
}

/// The fact that records a preference.
pub fn preference_fact(agent_id: &str, key: &str, value: &str, confidence: &Json) -> (r:
    FactUpsertRequest)
    ensures
        r@ == preference_fact_view(agent_id@, key@, value@, confidence@),
{
    FactUpsertRequest {
        subject: own(agent_id),
        predicate: cat2("user_prefers_", key),
        object: None,
        value: Some(own(value)),
        confidence: confidence.copy(),
        source_content: cat4("User preference: ", key, " = ", value),
    }
}

/// How the service reacts to an event.
pub open spec fn reaction(event: ServiceEvent, action: ServiceAction) -> bool {
    match event {
        ServiceEvent::Reload => action is Reload,
        ServiceEvent::Call { reply: Some(subject), request: Some(request) } => match action {
            ServiceAction::Run { step, reply } => reply@ == subject@ && step@ == builtin_step(
                request@,
            ),
            _ => false,
        },
        ServiceEvent::Call { .. } => action is Ignore,
        ServiceEvent::Feedback(Some(f)) => match (f.preference_key, f.preference_value) {
            (Some(k), Some(v)) => match action {
                ServiceAction::Store(fact) => fact@ == preference_fact_view(
                    f.agent_id@,
                    k@,
                    v@,
                    f.confidence@,
                ),
                _ => false,
            },
            _ => action is Ignore,
        },
        ServiceEvent::Feedback(None) => action is Ignore,
    }
}

/// Decides what to do about an event: a call without a reply subject and
/// anything that could not be decoded are ignored, and so is feedback that does
/// not name both a preference and its value.
pub fn react(event: ServiceEvent) -> (r: ServiceAction)
    ensures
        reaction(event, r),
{
    match event {
        ServiceEvent::Reload => ServiceAction::Reload,
        ServiceEvent::Call { reply, request } => match (reply, request) {
            (Some(reply), Some(request)) => ServiceAction::Run {
                step: handle_builtin_call(&request),
                reply,
            },
            _ => ServiceAction::Ignore,
        },
        ServiceEvent::Feedback(feedback) => match feedback {
            Some(f) => match (&f.preference_key, &f.preference_value) {
                (Some(k), Some(v)) => ServiceAction::Store(
                    preference_fact(&f.agent_id, k, v, &f.confidence),
                ),
                _ => ServiceAction::Ignore,
            },
            None => ServiceAction::Ignore,
        },
    }
}

// ---------------------------------------------------------------------------
// Built-in capabilities
// ---------------------------------------------------------------------------

/// The next step of a built-in capability call.
#[allow(inconsistent_fields)]
pub enum BuiltinStep {
    /// Answer at once.
    Reply(ToolCallResponse),
    /// Publish a brain query and answer with its outcome.
    BrainQuery(Publication),
    Subscribe { agent_id: String, subjects: Vec<String>, duration_seconds: Option<u64> },
    Unsubscribe { agent_id: String, subjects: Vec<String> },
    Delegate { agent_id: String, to_agent_id: String, message: String, context: Option<Json> },
    ScheduleWake { agent_id: String, delay_seconds: u64, reason: String, context: Option<Json> },
    SendNotification { channel: String, chat_id: String, text: String },
    GetConversation { conversation_id: String, max_messages: u32 },
    ListConversations { agent_id: String, platform: Option<String>, limit: u32 },
    SearchSkills { query: String, limit: Option<u32> },
    LoadSkill { skill_id: String },
    SaveSkill { description: String, snippet: String, tags: Vec<String>, embed_text: String },
}

/// The mathematical content of a [`BuiltinStep`].
#[allow(inconsistent_fields)]
pub enum BuiltinStepView {
    Reply(ToolCallResponseView),
    BrainQuery(PublicationView),
    Subscribe { agent_id: Seq<char>, subjects: Seq<Seq<char>>, duration_seconds: Option<u64> },
    Unsubscribe { agent_id: Seq<char>, subjects: Seq<Seq<char>> },
    Delegate {
        agent_id: Seq<char>,
        to_agent_id: Seq<char>,
        message: Seq<char>,
        context: Option<JsonView>,
    },
    ScheduleWake {
        agent_id: Seq<char>,
        delay_seconds: u64,
        reason: Seq<char>,
        context: Option<JsonView>,
    },
    SendNotification { channel: Seq<char>, chat_id: Seq<char>, text: Seq<char> },
    GetConversation { conversation_id: Seq<char>, max_messages: u32 },
    ListConversations { agent_id: Seq<char>, platform: Option<Seq<char>>, limit: u32 },
    SearchSkills { query: Seq<char>, limit: Option<u32> },
    LoadSkill { skill_id: Seq<char> },
    SaveSkill {
        description: Seq<char>,
        snippet: Seq<char>,
        tags: Seq<Seq<char>>,
        embed_text: Seq<char>,
    },
}

impl View for BuiltinStep {
    type V = BuiltinStepView;

    open spec fn view(&self) -> BuiltinStepView {
        match *self {
            BuiltinStep::Reply(x) => BuiltinStepView::Reply(x@),
            BuiltinStep::BrainQuery(x) => BuiltinStepView::BrainQuery(x@),
            BuiltinStep::Subscribe { agent_id, subjects, duration_seconds } =>
                BuiltinStepView::Subscribe {
                agent_id: agent_id@,
                subjects: views(subjects@),
                duration_seconds,
            },
            BuiltinStep::Unsubscribe { agent_id, subjects } => BuiltinStepView::Unsubscribe {
                agent_id: agent_id@,
                subjects: views(subjects@),
            },
            BuiltinStep::Delegate { agent_id, to_agent_id, message, context } =>
                BuiltinStepView::Delegate {
                agent_id: agent_id@,
                to_agent_id: to_agent_id@,
                message: message@,
                context: view_opt(context),
            },
            BuiltinStep::ScheduleWake { agent_id, delay_seconds, reason, context } =>
                BuiltinStepView::ScheduleWake {
                agent_id: agent_id@,
                delay_seconds,
                reason: reason@,
                context: view_opt(context),
            },
            BuiltinStep::SendNotification { channel, chat_id, text } =>
                BuiltinStepView::SendNotification {
                channel: channel@,
                chat_id: chat_id@,
                text: text@,
            },
            BuiltinStep::GetConversation { conversation_id, max_messages } =>
                BuiltinStepView::GetConversation {
                conversation_id: conversation_id@,
                max_messages,
            },
            BuiltinStep::ListConversations { agent_id, platform, limit } =>
                BuiltinStepView::ListConversations {
                agent_id: agent_id@,
                platform: view_opt(platform),
                limit,
            },
            BuiltinStep::SearchSkills { query, limit } => BuiltinStepView::SearchSkills {
                query: query@,
                limit,
            },
            BuiltinStep::LoadSkill { skill_id } => BuiltinStepView::LoadSkill {
                skill_id: skill_id@,
            },
            BuiltinStep::SaveSkill { description, snippet, tags, embed_text } =>
                BuiltinStepView::SaveSkill {
                description: description@,
                snippet: snippet@,
                tags: views(tags@),
                embed_text: embed_text@,
            },
        }
    }
}

/// An error reply of a capability.
pub open spec fn error_reply(tool_id: Seq<char>, message: Seq<char>) -> ToolCallResponseView {
    ToolCallResponseView {
        tool_id,
        result: JsonView::object().put("error"@, JsonView::Text(message)),
        is_error: true,
    }
}

/// The refusal of a call whose arguments do not fit.
pub open spec fn refusal(tool_id: Seq<char>, detail: Seq<char>) -> BuiltinStepView {
    BuiltinStepView::Reply(error_reply(tool_id, "Invalid arguments: "@ + detail))
}

/// An error reply of a capability.
pub fn error_response(tool_id: &str, message: &str) -> (r: ToolCallResponse)
    ensures
        r@ == error_reply(tool_id@, message@),
{
    ToolCallResponse {
        tool_id: own(tool_id),
        result: Json::object().put("error", Json::text(message)),
        is_error: true,
    }
}

/// The refusal of a call whose arguments do not fit.
pub fn refuse(tool_id: &str, detail: &str) -> (r: BuiltinStep)
    ensures
        r@ == refusal(tool_id@, detail@),
{
    BuiltinStep::Reply(error_response(tool_id, &cat2("Invalid arguments: ", detail)))
}

/// Watching subjects for an agent.
pub open spec fn subscribe_events_step(agent_id: Seq<char>, a: JsonView) -> BuiltinStepView {
    let subjects = texts_argument(a, "subjects"@, 0);
    let duration = opt_u64_argument(
        a,
        "duration_seconds"@,
        1,
        "struct SubscribeEventsArgs with 2 elements"@,
    );
    let fault = if a is Array {
        earlier(problem(subjects), earlier(problem(duration), surplus_problem(a, 2)))
    } else {
        earlier(problem(duration), problem(subjects))
    };
    match earlier(shape_problem(a, "SubscribeEventsArgs"@), fault) {
        Some(e) => refusal("subscribe-events"@, e),
        None => BuiltinStepView::Subscribe {
            agent_id,
            subjects: subjects->Ok_0,
            duration_seconds: duration->Ok_0,
        },
    }
}

/// Watching subjects for an agent.
pub fn subscribe_events(agent_id: &str, a: &Json) -> (r: BuiltinStep)
    ensures
        r@ == subscribe_events_step(agent_id@, a@),
{
    let subjects = read_texts(a, "subjects", 0);
    let duration = read_opt_u64(
        a,
        "duration_seconds",
        1,
        "struct SubscribeEventsArgs with 2 elements",
    );
    let fault = if is_array(a) {
        earlier_of(problem_of(&subjects), earlier_of(problem_of(&duration), check_surplus(a, 2)))
    } else {
        earlier_of(problem_of(&duration), problem_of(&subjects))
    };
    match earlier_of(check_shape(a, "SubscribeEventsArgs"), fault) {
        Some(e) => {
            return refuse("subscribe-events", &e);
        },
        None => {},
    }
    match (subjects, duration) {
        (Ok(subjects), Ok(duration)) => {
            BuiltinStep::Subscribe { agent_id: own(agent_id), subjects, duration_seconds: duration }
        },
        _ => refuse("subscribe-events", ""),
    }
}

/// No longer watching subjects for an agent.
pub open spec fn unsubscribe_events_step(agent_id: Seq<char>, a: JsonView) -> BuiltinStepView {
    let subjects = texts_argument(a, "subjects"@, 0);
    let fault = if a is Array {
        earlier(problem(subjects), surplus_problem(a, 1))
    } else {
        problem(subjects)
    };
    match earlier(shape_problem(a, "UnsubscribeEventsArgs"@), fault) {
        Some(e) => refusal("unsubscribe-events"@, e),
        None => BuiltinStepView::Unsubscribe { agent_id, subjects: subjects->Ok_0 },
    }
}

/// No longer watching subjects for an agent.
pub fn unsubscribe_events(agent_id: &str, a: &Json) -> (r: BuiltinStep)
    ensures
        r@ == unsubscribe_events_step(agent_id@, a@),
{
    let subjects = read_texts(a, "subjects", 0);
    let fault = if is_array(a) {
        earlier_of(problem_of(&subjects), check_surplus(a, 1))
    } else {
        problem_of(&subjects)
    };
    match earlier_of(check_shape(a, "UnsubscribeEventsArgs"), fault) {
        Some(e) => {
            return refuse("unsubscribe-events", &e);
        },
        None => {},
    }
    match subjects {
        Ok(subjects) => {
            BuiltinStep::Unsubscribe { agent_id: own(agent_id), subjects }
        },
        _ => refuse("unsubscribe-events", ""),
    }
}

/// Handing a task to another agent.
pub open spec fn delegate_task_step(agent_id: Seq<char>, a: JsonView) -> BuiltinStepView {
    let to = text_argument(a, "to_agent_id"@, 0);
    let message = text_argument(a, "message"@, 1);
    let context = opt_json_argument(a, "context"@, 2, "struct DelegateTaskArgs with 3 elements"@);
    let fault = if a is Array {
        earlier(
            problem(to),
            earlier(problem(message), earlier(problem(context), surplus_problem(a, 3))),
        )
    } else {
        earlier(problem(context), earlier(problem(message), problem(to)))
    };
    match earlier(shape_problem(a, "DelegateTaskArgs"@), fault) {
        Some(e) => refusal("delegate-task"@, e),
        None => BuiltinStepView::Delegate {
            agent_id,
            to_agent_id: to->Ok_0,
            message: message->Ok_0,
            context: context->Ok_0,
        },
    }
}

/// Handing a task to another agent.
pub fn delegate_task(agent_id: &str, a: &Json) -> (r: BuiltinStep)
    ensures
        r@ == delegate_task_step(agent_id@, a@),
{
    let to = read_text(a, "to_agent_id", 0);
    let message = read_text(a, "message", 1);
    let context = read_opt_json(a, "context", 2, "struct DelegateTaskArgs with 3 elements");
    let fault = if is_array(a) {
        earlier_of(
            problem_of(&to),
            earlier_of(problem_of(&message), earlier_of(problem_of(&context), check_surplus(a, 3))),
        )
    } else {
        earlier_of(problem_of(&context), earlier_of(problem_of(&message), problem_of(&to)))
    };
    match earlier_of(check_shape(a, "DelegateTaskArgs"), fault) {
        Some(e) => {
            return refuse("delegate-task", &e);
        },
        None => {},
    }
    match (to, message, context) {
        (Ok(to), Ok(message), Ok(context)) => {
            BuiltinStep::Delegate { agent_id: own(agent_id), to_agent_id: to, message, context }
        },
        _ => refuse("delegate-task", ""),
    }
}

/// The shortest time after which an agent may have itself woken.
pub const MIN_WAKE_SECONDS: u64 = 1;

/// The longest time after which an agent may have itself woken: seven days.
pub const MAX_WAKE_SECONDS: u64 = 604800;

/// Waking an agent later: between one second and seven days from now.
pub open spec fn schedule_wake_step(agent_id: Seq<char>, a: JsonView) -> BuiltinStepView {
    let delay = u64_argument(a, "delay_seconds"@, 0);
    let reason = text_argument(a, "reason"@, 1);
    let context = opt_json_argument(a, "context"@, 2, "struct ScheduleWakeArgs with 3 elements"@);
    let fault = if a is Array {
        earlier(
            problem(delay),
            earlier(problem(reason), earlier(problem(context), surplus_problem(a, 3))),
        )
    } else {
        earlier(problem(context), earlier(problem(delay), problem(reason)))
    };
    match earlier(shape_problem(a, "ScheduleWakeArgs"@), fault) {
        Some(e) => refusal("schedule-wake"@, e),
        None => if delay->Ok_0 < MIN_WAKE_SECONDS || delay->Ok_0 > MAX_WAKE_SECONDS {
            BuiltinStepView::Reply(
                error_reply(
                    "schedule-wake"@,
                    "delay_seconds must be between 1 and 604800 (7 days)"@,
                ),
            )
        } else {
            BuiltinStepView::ScheduleWake {
                agent_id,
                delay_seconds: delay->Ok_0,
                reason: reason->Ok_0,
                context: context->Ok_0,
            }
        },
    }
}

/// Waking an agent later: between one second and seven days from now.
pub fn schedule_wake(agent_id: &str, a: &Json) -> (r: BuiltinStep)
    ensures
        r@ == schedule_wake_step(agent_id@, a@),
{
    let delay = read_u64(a, "delay_seconds", 0);
    let reason = read_text(a, "reason", 1);
    let context = read_opt_json(a, "context", 2, "struct ScheduleWakeArgs with 3 elements");
    let fault = if is_array(a) {
        earlier_of(
            problem_of(&delay),
            earlier_of(problem_of(&reason), earlier_of(problem_of(&context), check_surplus(a, 3))),
        )
    } else {
        earlier_of(problem_of(&context), earlier_of(problem_of(&delay), problem_of(&reason)))
    };
    match earlier_of(check_shape(a, "ScheduleWakeArgs"), fault) {
        Some(e) => {
            return refuse("schedule-wake", &e);
        },
        None => {},
    }
    match (delay, reason, context) {
        (Ok(delay), Ok(reason), Ok(context)) => {
            if delay < MIN_WAKE_SECONDS || delay > MAX_WAKE_SECONDS {
                return BuiltinStep::Reply(
                    error_response(
                        "schedule-wake",
                        "delay_seconds must be between 1 and 604800 (7 days)",
                    ),
                );
            }
            BuiltinStep::ScheduleWake {
                agent_id: own(agent_id),
                delay_seconds: delay,
                reason,
                context,
            }
        },
        _ => refuse("schedule-wake", ""),
    }
}

/// Sending a message to a user unasked.
pub open spec fn send_notification_step(a: JsonView) -> BuiltinStepView {
    let channel = text_argument(a, "channel"@, 0);
    let chat_id = text_argument(a, "chat_id"@, 1);
    let text = text_argument(a, "text"@, 2);
    let fault = if a is Array {
        earlier(
            problem(channel),
            earlier(problem(chat_id), earlier(problem(text), surplus_problem(a, 3))),
        )
    } else {
        earlier(problem(channel), earlier(problem(chat_id), problem(text)))
    };
    match earlier(shape_problem(a, "SendNotificationArgs"@), fault) {
        Some(e) => refusal("send-notification"@, e),
        None => BuiltinStepView::SendNotification {
            channel: channel->Ok_0,
            chat_id: chat_id->Ok_0,
            text: text->Ok_0,
        },
    }
}

/// Sending a message to a user unasked.
pub fn send_notification(a: &Json) -> (r: BuiltinStep)
    ensures
        r@ == send_notification_step(a@),
{
    let channel = read_text(a, "channel", 0);
    let chat_id = read_text(a, "chat_id", 1);
    let text = read_text(a, "text", 2);
    let fault = if is_array(a) {
        earlier_of(
            problem_of(&channel),
            earlier_of(problem_of(&chat_id), earlier_of(problem_of(&text), check_surplus(a, 3))),
        )
    } else {
        earlier_of(problem_of(&channel), earlier_of(problem_of(&chat_id), problem_of(&text)))
    };
    match earlier_of(check_shape(a, "SendNotificationArgs"), fault) {
        Some(e) => {
            return refuse("send-notification", &e);
        },
        None => {},
    }
    match (channel, chat_id, text) {
        (Ok(channel), Ok(chat_id), Ok(text)) => {
            BuiltinStep::SendNotification { channel, chat_id, text }
        },
        _ => refuse("send-notification", ""),
    }
}

/// Loading a conversation; without a limit, all of it.
pub open spec fn get_conversation_step(a: JsonView) -> BuiltinStepView {
    let id = text_argument(a, "conversation_id"@, 0);
    let max = opt_u32_argument(
        a,
        "max_messages"@,
        1,
        "struct GetConversationArgs with 2 elements"@,
    );
    let fault = if a is Array {
        earlier(problem(id), earlier(problem(max), surplus_problem(a, 2)))
    } else {
        earlier(problem(id), problem(max))
    };
    match earlier(shape_problem(a, "GetConversationArgs"@), fault) {
        Some(e) => refusal("get-conversation"@, e),
        None => BuiltinStepView::GetConversation {
            conversation_id: id->Ok_0,
            max_messages: max->Ok_0.unwrap_or(0),
        },
    }
}

/// Loading a conversation; without a limit, all of it.
pub fn get_conversation(a: &Json) -> (r: BuiltinStep)
    ensures
        r@ == get_conversation_step(a@),
{
    let id = read_text(a, "conversation_id", 0);
    let max = read_opt_u32(a, "max_messages", 1, "struct GetConversationArgs with 2 elements");
    let fault = if is_array(a) {
        earlier_of(problem_of(&id), earlier_of(problem_of(&max), check_surplus(a, 2)))
    } else {
        earlier_of(problem_of(&id), problem_of(&max))
    };
    match earlier_of(check_shape(a, "GetConversationArgs"), fault) {
        Some(e) => {
            return refuse("get-conversation", &e);
        },
        None => {},
    }
    match (id, max) {
        (Ok(id), Ok(max)) => {
            let max_messages: u32 = match max {
                Some(n) => n,
                None => 0,
            };
            BuiltinStep::GetConversation { conversation_id: id, max_messages }
        },
        _ => refuse("get-conversation", ""),
    }
}

/// Listing recent conversations, twenty unless told otherwise.
pub open spec fn list_conversations_step(agent_id: Seq<char>, a: JsonView) -> BuiltinStepView {
    let platform = opt_text_argument(
        a,
        "platform"@,
        0,
        "struct ListConversationsArgs with 2 elements"@,
    );
    let limit = opt_u32_argument(a, "limit"@, 1, "struct ListConversationsArgs with 2 elements"@);
    let fault = if a is Array {
        earlier(problem(platform), earlier(problem(limit), surplus_problem(a, 2)))
    } else {
        earlier(problem(limit), problem(platform))
    };
    match earlier(shape_problem(a, "ListConversationsArgs"@), fault) {
        Some(e) => refusal("list-conversations"@, e),
        None => BuiltinStepView::ListConversations {
            agent_id,
            platform: platform->Ok_0,
            limit: limit->Ok_0.unwrap_or(20),
        },
    }
}

/// Listing recent conversations, twenty unless told otherwise.
pub fn list_conversations(agent_id: &str, a: &Json) -> (r: BuiltinStep)
    ensures
        r@ == list_conversations_step(agent_id@, a@),
{
    let platform = read_opt_text(a, "platform", 0, "struct ListConversationsArgs with 2 elements");
    let limit = read_opt_u32(a, "limit", 1, "struct ListConversationsArgs with 2 elements");
    let fault = if is_array(a) {
        earlier_of(problem_of(&platform), earlier_of(problem_of(&limit), check_surplus(a, 2)))
    } else {
        earlier_of(problem_of(&limit), problem_of(&platform))
    };
    match earlier_of(check_shape(a, "ListConversationsArgs"), fault) {
        Some(e) => {
            return refuse("list-conversations", &e);
        },
        None => {},
    }
    match (platform, limit) {
        (Ok(platform), Ok(limit)) => {
            let limit: u32 = match limit {
                Some(n) => n,
                None => 20,
            };
            BuiltinStep::ListConversations { agent_id: own(agent_id), platform, limit }
        },
        _ => refuse("list-conversations", ""),
    }
}

/// Searching the skills.
pub open spec fn search_skills_step(a: JsonView) -> BuiltinStepView {
    let query = text_argument(a, "query"@, 0);
    let limit = opt_u32_argument(a, "limit"@, 1, "struct SearchSkillsArgs with 2 elements"@);
    let fault = if a is Array {
        earlier(problem(query), earlier(problem(limit), surplus_problem(a, 2)))
    } else {
        earlier(problem(limit), problem(query))
    };
    match earlier(shape_problem(a, "SearchSkillsArgs"@), fault) {
        Some(e) => refusal("search-skills"@, e),
        None => BuiltinStepView::SearchSkills { query: query->Ok_0, limit: limit->Ok_0 },
    }
}

/// Searching the skills.
pub fn search_skills(a: &Json) -> (r: BuiltinStep)
    ensures
        r@ == search_skills_step(a@),
{
    let query = read_text(a, "query", 0);
    let limit = read_opt_u32(a, "limit", 1, "struct SearchSkillsArgs with 2 elements");
    let fault = if is_array(a) {
        earlier_of(problem_of(&query), earlier_of(problem_of(&limit), check_surplus(a, 2)))
    } else {
        earlier_of(problem_of(&limit), problem_of(&query))
    };
    match earlier_of(check_shape(a, "SearchSkillsArgs"), fault) {
        Some(e) => {
            return refuse("search-skills", &e);
        },
        None => {},
    }
    match (query, limit) {
        (Ok(query), Ok(limit)) => {
            BuiltinStep::SearchSkills { query, limit }
        },
        _ => refuse("search-skills", ""),
    }
}

/// Loading a skill, which must be named.
pub open spec fn load_skill_step(a: JsonView) -> BuiltinStepView {
    let skill = text_argument(a, "skill_id"@, 0);
    let fault = if a is Array {
        earlier(problem(skill), surplus_problem(a, 1))
    } else {
        problem(skill)
    };
    match earlier(shape_problem(a, "LoadSkillArgs"@), fault) {
        Some(e) => refusal("load-skill"@, e),
        None => if trim(skill->Ok_0).len() == 0 {
            BuiltinStepView::Reply(error_reply("load-skill"@, "skill_id is required"@))
        } else {
            BuiltinStepView::LoadSkill { skill_id: skill->Ok_0 }
        },
    }
}

/// Loading a skill, which must be named.
pub fn load_skill(a: &Json) -> (r: BuiltinStep)
    ensures
        r@ == load_skill_step(a@),
{
    let skill = read_text(a, "skill_id", 0);
    let fault = if is_array(a) {
        earlier_of(problem_of(&skill), check_surplus(a, 1))
    } else {
        problem_of(&skill)
    };
    match earlier_of(check_shape(a, "LoadSkillArgs"), fault) {
        Some(e) => {
            return refuse("load-skill", &e);
        },
        None => {},
    }
    match skill {
        Ok(skill) => {
            if is_blank(&skill) {
                return BuiltinStep::Reply(error_response("load-skill", "skill_id is required"));
            }
            BuiltinStep::LoadSkill { skill_id: skill }
        },
        _ => refuse("load-skill", ""),
    }
}

/// Saving a skill, whose description and snippet must say something.
pub open spec fn save_skill_step(a: JsonView) -> BuiltinStepView {
    let description = text_argument(a, "description"@, 0);
    let snippet = text_argument(a, "snippet"@, 1);
    let tags = opt_texts_argument(a, "tags"@, 2, "struct SaveSkillArgs with 3 elements"@);
    let fault = if a is Array {
        earlier(
            problem(description),
            earlier(problem(snippet), earlier(problem(tags), surplus_problem(a, 3))),
        )
    } else {
        earlier(problem(description), earlier(problem(snippet), problem(tags)))
    };
    match earlier(shape_problem(a, "SaveSkillArgs"@), fault) {
        Some(e) => refusal("save-skill"@, e),
        None => if trim(description->Ok_0).len() == 0 || trim(snippet->Ok_0).len() == 0 {
            BuiltinStepView::Reply(
                error_reply("save-skill"@, "description and snippet are required"@),
            )
        } else {
            BuiltinStepView::SaveSkill {
                description: description->Ok_0,
                snippet: snippet->Ok_0,
                tags: tags->Ok_0.unwrap_or(Seq::empty()),
                embed_text: description->Ok_0 + "\n"@ + snippet->Ok_0,
            }
        },
    }
}

/// Saving a skill, whose description and snippet must say something.
pub fn save_skill(a: &Json) -> (r: BuiltinStep)
    ensures
        r@ == save_skill_step(a@),
{
    let description = read_text(a, "description", 0);
    let snippet = read_text(a, "snippet", 1);
    let tags = read_opt_texts(a, "tags", 2, "struct SaveSkillArgs with 3 elements");
    let fault = if is_array(a) {
        earlier_of(
            problem_of(&description),
            earlier_of(problem_of(&snippet), earlier_of(problem_of(&tags), check_surplus(a, 3))),
        )
    } else {
        earlier_of(problem_of(&description), earlier_of(problem_of(&snippet), problem_of(&tags)))
    };
    match earlier_of(check_shape(a, "SaveSkillArgs"), fault) {
        Some(e) => {
            return refuse("save-skill", &e);
        },
        None => {},
    }
    match (description, snippet, tags) {
        (Ok(description), Ok(snippet), Ok(tags)) => {
            if is_blank(&description) || is_blank(&snippet) {
                return BuiltinStep::Reply(
                    error_response("save-skill", "description and snippet are required"),
                );
            }
            let embed_text = cat3(&description, "\n", &snippet);
            let tags = match tags {
                Some(t) => t,
                None => {
                    let none: Vec<String> = Vec::new();
                    assert(views(none@) =~= Seq::<Seq<char>>::empty());
                    none
                },
            };
            BuiltinStep::SaveSkill { description, snippet, tags, embed_text }
        },
        _ => refuse("save-skill", ""),
    }
}

/// The brain query that a call asks for.
pub open spec fn brain_query_step(request: ToolCallRequestView) -> BuiltinStepView {
    BuiltinStepView::BrainQuery(
        PublicationView {
            subject: "brain.query.request"@,
            source: "consciousness"@,
            correlation_id: request.correlation_id,
            scope: None,
            payload: request.arguments,
        },
    )
}

/// The step that a call asks for. The caller's plugin id names the agent.
pub open spec fn builtin_step(request: ToolCallRequestView) -> BuiltinStepView {
    let tool = request.tool_id;
    let agent = request.plugin_id;
    let a = request.arguments;
    if tool == "brain-query"@ {
        brain_query_step(request)
    } else if tool == "subscribe-events"@ {
        subscribe_events_step(agent, a)
    } else if tool == "unsubscribe-events"@ {
        unsubscribe_events_step(agent, a)
    } else if tool == "delegate-task"@ {
        delegate_task_step(agent, a)
    } else if tool == "schedule-wake"@ {
        schedule_wake_step(agent, a)
    } else if tool == "send-notification"@ {
        send_notification_step(a)
    } else if tool == "get-conversation"@ {
        get_conversation_step(a)
    } else if tool == "list-conversations"@ {
        list_conversations_step(agent, a)
    } else if tool == "search-skills"@ {
        search_skills_step(a)
    } else if tool == "load-skill"@ {
        load_skill_step(a)
    } else if tool == "save-skill"@ {
        save_skill_step(a)
    } else {
        BuiltinStepView::Reply(error_reply(tool, "Unknown built-in capability: "@ + tool))
    }
}

/// Routes a call of a built-in capability.
pub fn handle_builtin_call(request: &ToolCallRequest) -> (r: BuiltinStep)
    ensures
        r@ == builtin_step(request@),
{
    let tool = request.tool_id.as_str();
    let agent = request.plugin_id.as_str();
    let a = &request.arguments;
    if same(tool, "brain-query") {
        BuiltinStep::BrainQuery(
            Publication {
                subject: own("brain.query.request"),
                source: own("consciousness"),
                correlation_id: duplicate_opt(&request.correlation_id),
                scope: None,
                payload: a.copy(),
            },
        )
    } else if same(tool, "subscribe-events") {
        subscribe_events(agent, a)
    } else if same(tool, "unsubscribe-events") {
        unsubscribe_events(agent, a)
    } else if same(tool, "delegate-task") {
        delegate_task(agent, a)
    } else if same(tool, "schedule-wake") {
        schedule_wake(agent, a)
    } else if same(tool, "send-notification") {
        send_notification(a)
    } else if same(tool, "get-conversation") {
        get_conversation(a)
    } else if same(tool, "list-conversations") {
        list_conversations(agent, a)
    } else if same(tool, "search-skills") {
        search_skills(a)
    } else if same(tool, "load-skill") {
        load_skill(a)
    } else if same(tool, "save-skill") {
        save_skill(a)
    } else {
        BuiltinStep::Reply(
            error_response(tool, &cat2("Unknown built-in capability: ", tool)),
        )
    }
}

/// The reply to a brain query.
pub open spec fn brain_query_reply(outcome: BusReply) -> ToolCallResponseView {
    match outcome {
        BusReply::Answer(v) => ToolCallResponseView {
            tool_id: "brain-query"@,
            result: v@,
            is_error: false,
        },
        BusReply::Failed(e) => error_reply("brain-query"@, e@),
        BusReply::TimedOut => error_reply("brain-query"@, "brain query timeout"@),
    }
}

/// Makes the reply to a brain query from its outcome.
pub fn brain_query_response(outcome: BusReply) -> (r: ToolCallResponse)
    ensures
        r@ == brain_query_reply(outcome),
{
    match outcome {
        BusReply::Answer(v) => ToolCallResponse {
            tool_id: own("brain-query"),
            result: v,
            is_error: false,
        },
        BusReply::Failed(e) => error_response("brain-query", &e),
        BusReply::TimedOut => error_response("brain-query", "brain query timeout"),
    }
}

/// The built-in capabilities with their summaries.
pub open spec fn builtin_list() -> Seq<(Seq<char>, Seq<char>)> {
    seq![
        ("brain-query"@, "Query the knowledge graph using AQL"@),
        ("subscribe-events"@, "Subscribe to NATS event patterns for consciousness"@),
        ("unsubscribe-events"@, "Stop watching for NATS events"@),
        ("delegate-task"@, "Delegate a task to another agent"@),
        ("schedule-wake"@, "Schedule a self-wake timer for future processing"@),
        ("send-notification"@, "Send a proactive message to the user"@),
        ("get-conversation"@, "Load a conversation thread by ID"@),
        ("list-conversations"@, "List recent conversations"@),
        ("search-skills"@, "Search for behavioral skills by semantic query"@),
        ("load-skill"@, "Load a specific skill into conversation context"@),
        ("save-skill"@, "Save learned behavior as a reusable skill"@),
    ]
}

/// The parameters of the first schema with a name, or an empty object.
pub open spec fn parameters_for(schemas: Seq<ToolSchemaView>, name: Seq<char>) -> JsonView
    decreases schemas.len(),
{
    if schemas.len() == 0 {
        JsonView::object()
    } else if schemas[0].name == name {
        schemas[0].parameters
    } else {
        parameters_for(schemas.drop_first(), name)
    }
}

/// The announcement of a built-in capability.
pub open spec fn registration(
    tool: (Seq<char>, Seq<char>),
    schemas: Seq<ToolSchemaView>,
) -> ToolRegisterView {
    ToolRegisterView {
        tool_id: tool.0,
        plugin_id: "consciousness"@,
        name: tool.0,
        summary_md: tool.1,
        manual_md: Seq::empty(),
        parameters: parameters_for(schemas, tool.0),
        call_subject: "capability.call.consciousness"@,
        kind: "tool"@,
    }
}

/// The parameters of the first schema with a name, or an empty object.
pub fn find_parameters(schemas: &Vec<ToolSchema>, name: &str) -> (r: Json)
    ensures
        r@ == parameters_for(views(schemas@), name@),
{
    let mut i: usize = 0;
    proof {
        assert(views(schemas@).subrange(0, schemas@.len() as int) =~= views(schemas@));
    }
    while i < schemas.len()
        invariant
            i <= schemas@.len(),
            parameters_for(views(schemas@), name@) == parameters_for(
                views(schemas@).subrange(i as int, schemas@.len() as int),
                name@,
            ),
        decreases schemas@.len() - i,
    {
        proof {
            let t = views(schemas@).subrange(i as int, schemas@.len() as int);
            assert(t[0] == schemas@[i as int]@);
            assert(t.drop_first() =~= views(schemas@).subrange(i + 1, schemas@.len() as int));
        }
        if same(&schemas[i].name, name) {
            return schemas[i].parameters.copy();
        }
        i = i + 1;
    }
    Json::object()
}

/// The announcement of one built-in capability.
fn register_one(tool: &str, summary: &str, schemas: &Vec<ToolSchema>) -> (r: ToolRegister)
    ensures
        r@ == registration((tool@, summary@), views(schemas@)),
{
    ToolRegister {
        tool_id: own(tool),
        plugin_id: own("consciousness"),
        name: own(tool),
        summary_md: own(summary),
        manual_md: String::new(),
        parameters: find_parameters(schemas, tool),
        call_subject: own("capability.call.consciousness"),
        kind: own("tool"),
    }
}

/// The announcements of all built-in capabilities, in order.
pub fn register_builtin_capabilities(schemas: &Vec<ToolSchema>) -> (r: Vec<ToolRegister>)
    ensures
        views(r@) == Seq::new(
            builtin_list().len(),
            |i: int| registration(builtin_list()[i], views(schemas@)),
        ),
{
    let r = vec![
        register_one("brain-query", "Query the knowledge graph using AQL", schemas),
        register_one(
            "subscribe-events",
            "Subscribe to NATS event patterns for consciousness",
            schemas,
        ),
        register_one("unsubscribe-events", "Stop watching for NATS events", schemas),
        register_one("delegate-task", "Delegate a task to another agent", schemas),
        register_one(
            "schedule-wake",
            "Schedule a self-wake timer for future processing",
            schemas,
        ),
        register_one("send-notification", "Send a proactive message to the user", schemas),
        register_one("get-conversation", "Load a conversation thread by ID", schemas),
        register_one("list-conversations", "List recent conversations", schemas),
        register_one("search-skills", "Search for behavioral skills by semantic query", schemas),
        register_one("load-skill", "Load a specific skill into conversation context", schemas),
        register_one("save-skill", "Save learned behavior as a reusable skill", schemas),
    ];
    assert(views(r@) =~= Seq::new(
        builtin_list().len(),
        |i: int| registration(builtin_list()[i], views(schemas@)),
    ));
    r
}

// ---------------------------------------------------------------------------
// Processing an event
// ---------------------------------------------------------------------------

/// The text that an event puts before the model: the payload's `text` or
/// `message`, else its `reason` under the event type, else the whole payload
/// under the event type.
pub open spec fn user_text(event: ConsciousnessEventView) -> Seq<char> {
    match event.payload.text_at("text"@) {
        Some(t) => t,
        None => match event.payload.text_at("message"@) {
            Some(m) => m,
            None => {
                let detail = match event.payload.text_at("reason"@) {
                    Some(x) => x,
                    None => json_to_text(settle(event.payload)),
                };
                "["@ + event.event_type + "] "@ + detail
            },
        },
    }
}

/// The text that an event puts before the model.
pub fn extract_user_text(event: &ConsciousnessEvent) -> (r: String)
    ensures
        r@ == user_text(event@),
{
    match event.payload.text_at("text") {
        Some(t) => {
            return t;
        },
        None => {},
    }
    match event.payload.text_at("message") {
        Some(m) => {
            return m;
        },
        None => {},
    }
    let detail = match event.payload.text_at("reason") {
        Some(x) => x,
        None => event.payload.print(),
    };
    cat4("[", &event.event_type, "] ", &detail)
}

/// What identifies the conversation that an event belongs to: a platform and
/// one entry of the conversation's metadata.
pub open spec fn conversation_key(event: ConsciousnessEventView) -> (Seq<char>, Seq<char>, Seq<
    char,
>) {
    match event.origin {
        Some(o) => (o.platform, "chat_id"@, o.chat_id),
        None => match event.source_subject {
            Some(s) => ("internal"@, "source_subject"@, s),
            None => ("internal"@, "event_type"@, event.event_type),
        },
    }
}

/// How the conversation of an event is found.
pub enum ConversationPlan {
    /// The event names it.
    Use(String),
    /// Ask for it.
    Find(ConversationFindRequest),
}

/// Where the conversation of an event comes from.
pub open spec fn conversation_plan(
    agent_id: Seq<char>,
    event: ConsciousnessEventView,
    plan: ConversationPlan,
) -> bool {
    let named = match event.conversation_id {
        Some(id) => id.len() > 0,
        None => false,
    };
    match plan {
        ConversationPlan::Use(id) => named && event.conversation_id == Some(id@),
        ConversationPlan::Find(req) => !named && req@ == (ConversationFindRequestView {
            agent_id,
            platform: conversation_key(event).0,
            metadata_key: conversation_key(event).1,
            metadata_value: conversation_key(event).2,
        }),
    }
}

/// The parts of the conversation key.
fn conversation_key_of(event: &ConsciousnessEvent) -> (r: (String, String, String))
    ensures
        (r.0@, r.1@, r.2@) == conversation_key(event@),
{
    match &event.origin {
        Some(o) => (o.platform.clone(), own("chat_id"), o.chat_id.clone()),
        None => match &event.source_subject {
            Some(s) => (own("internal"), own("source_subject"), s.clone()),
            None => (own("internal"), own("event_type"), event.event_type.clone()),
        },
    }
}

/// Decides where the conversation of an event comes from.
pub fn plan_conversation(agent_id: &str, event: &ConsciousnessEvent) -> (r: ConversationPlan)
    ensures
        conversation_plan(agent_id@, event@, r),
{
    match &event.conversation_id {
        Some(id) => {
            if !id.as_str().is_empty() {
                return ConversationPlan::Use(id.clone());
            }
        },
        None => {},
    }
    let (platform, metadata_key, metadata_value) = conversation_key_of(event);
    ConversationPlan::Find(
        ConversationFindRequest { agent_id: own(agent_id), platform, metadata_key, metadata_value },
    )
}

/// The conversation that a search found, if the answer names one.
pub open spec fn found_conversation(outcome: BusReply) -> Option<Seq<char>> {
    match outcome {
        BusReply::Answer(v) => v@.text_at("id"@),
        _ => None,
    }
}

/// The conversation that a search found. A failed search counts as none found.
pub fn conversation_found(outcome: &BusReply) -> (r: Option<String>)
    ensures
        view_opt(r) == found_conversation(*outcome),
{
    match outcome {
        BusReply::Answer(v) => v.text_at("id"),
        _ => None,
    }
}

/// The conversation that is opened for an event when none was found.
pub open spec fn new_conversation(
    agent_id: Seq<char>,
    scope: Seq<char>,
    event: ConsciousnessEventView,
) -> ConversationCreateRequestView {
    ConversationCreateRequestView {
        platform: conversation_key(event).0,
        participants: match event.origin {
            Some(o) => seq!["user:"@ + o.chat_id, "agent:"@ + agent_id],
            None => seq!["agent:"@ + agent_id],
        },
        agent_id,
        scope,
        metadata: Map::empty().insert(conversation_key(event).1, conversation_key(event).2),
    }
}

/// The conversation to open for an event.
pub fn create_conversation(agent_id: &str, scope: &str, event: &ConsciousnessEvent) -> (r:
    ConversationCreateRequest)
    ensures
        r@ == new_conversation(agent_id@, scope@, event@),
{
    let (platform, key, value) = conversation_key_of(event);
    let mut metadata = TextMap::new();
    metadata.put(&key, &value);
    let participants = match &event.origin {
        Some(o) => vec![cat2("user:", &o.chat_id), cat2("agent:", agent_id)],
        None => vec![cat2("agent:", agent_id)],
    };
    let r = ConversationCreateRequest {
        platform,
        participants,
        agent_id: own(agent_id),
        scope: own(scope),
        metadata,
    };
    assert(r@.participants =~= new_conversation(agent_id@, scope@, event@).participants);
    r
}

/// The number of messages that are read back from a conversation.
pub const HISTORY_LIMIT: u32 = 20;

/// A skill search for an event, unless there is nothing to search for.
pub open spec fn skill_query(text: Seq<char>, scope: Seq<char>) -> Option<
    (Seq<char>, u32, Seq<char>),
> {
    if text.len() == 0 {
        None
    } else {
        Some((text, 3u32, scope))
    }
}

/// Decides what skills to search for: query, limit and scope.
pub fn plan_skill_search(text: &str, scope: &str) -> (r: Option<(String, u32, String)>)
    ensures
        match r {
            Some(q) => skill_query(text@, scope@) == Some((q.0@, q.1, q.2@)),
            None => skill_query(text@, scope@) is None,
        },
{
    if text.is_empty() {
        None
    } else {
        Some((own(text), 3, own(scope)))
    }
}

/// A list of one text, or of none.
pub open spec fn part_if(c: bool, s: Seq<char>) -> Seq<Seq<char>> {
    if c {
        seq![s]
    } else {
        Seq::empty()
    }
}

/// The entry of a skill in a prompt.
pub open spec fn skill_entries(skills: Seq<Seq<char>>) -> Seq<Seq<char>> {
    Seq::new(skills.len(), |i: int| "### Skill "@ + decimal((i + 1) as nat) + "\n"@ + skills[i])
}

/// The sections of a system prompt, empty ones left out.
pub open spec fn prompt_parts(
    base: Seq<char>,
    identity: Seq<char>,
    description: Option<Seq<char>>,
    skills: Seq<Seq<char>>,
) -> Seq<Seq<char>> {
    part_if(base.len() > 0, base) + part_if(
        identity.len() > 0,
        "## Agent Identity\n\n"@ + identity,
    ) + part_if(
        description is Some,
        "## Agent Description\n\n"@ + description.unwrap_or(Seq::empty()),
    ) + part_if(
        skills.len() > 0,
        "## Active Skills\n\n"@ + join(skill_entries(skills), "\n\n"@),
    )
}

/// The entries of learned preferences in a prompt.
pub open spec fn preference_entries(prefs: Seq<UserPreferenceView>) -> Seq<Seq<char>> {
    Seq::new(
        prefs.len(),
        |i: int|
            "- "@ + prefs[i].key + ": "@ + prefs[i].value + (" (confidence: "@ + prefs[i].percent
                + "%)"@),
    )
}

/// The section of learned preferences.
pub open spec fn preference_part(prefs: Seq<UserPreferenceView>) -> Seq<Seq<char>> {
    part_if(
        prefs.len() > 0,
        "## User Preferences\nThe following preferences have been learned from past interactions. Apply them:\n"@
            + join(preference_entries(prefs), "\n"@),
    )
}

/// What stands between the sections of a prompt.
pub open spec fn section_break() -> Seq<char> {
    "\n\n---\n\n"@
}

/// Adds a section to a prompt.
fn add_part(parts: &mut Vec<String>, s: String)
    ensures
        views(final(parts)@) == views(old(parts)@) + seq![s@],
{
    let ghost before = parts@;
    parts.push(s);
    assert(views(parts@) =~= views(before) + seq![s@]);
}

/// Collects the sections of a system prompt.
fn collect_parts(
    base: &str,
    description: &Option<String>,
    identity: &str,
    skills: &Vec<String>,
) -> (r: Vec<String>)
    ensures
        views(r@) == prompt_parts(base@, identity@, view_opt(*description), views(skills@)),
{
    let mut parts: Vec<String> = Vec::new();
    assert(views(parts@) =~= Seq::<Seq<char>>::empty());
    if !base.is_empty() {
        add_part(&mut parts, own(base));
    }
    assert(views(parts@) =~= part_if(base@.len() > 0, base@));
    let ghost p1 = views(parts@);
    if !identity.is_empty() {
        add_part(&mut parts, cat2("## Agent Identity\n\n", identity));
    }
    assert(views(parts@) =~= p1 + part_if(
        identity@.len() > 0,
        "## Agent Identity\n\n"@ + identity@,
    ));
    let ghost p2 = views(parts@);
    match description {
        Some(d) => {
            add_part(&mut parts, cat2("## Agent Description\n\n", d));
        },
        None => {},
    }
    assert(views(parts@) =~= p2 + part_if(
        description is Some,
        "## Agent Description\n\n"@ + view_opt(*description).unwrap_or(Seq::empty()),
    ));
    let ghost p3 = views(parts@);
    if skills.len() > 0 {
        let mut entries: Vec<String> = Vec::new();
        let mut i: usize = 0;
        while i < skills.len()
            invariant
                i <= skills@.len(),
                entries@.len() == i,
                forall|k: int| 0 <= k < i ==> (#[trigger] entries@[k])@ == skill_entries(
                    views(skills@),
                )[k],
            decreases skills@.len() - i,
        {
            let number = decimal_of(i as u64 + 1);
            entries.push(cat4("### Skill ", &number, "\n", &skills[i]));
            i = i + 1;
        }
        assert(views(entries@) =~= skill_entries(views(skills@)));
        let section = joined(&entries, "\n\n");
        add_part(&mut parts, cat2("## Active Skills\n\n", &section));
    }
    assert(views(parts@) =~= p3 + part_if(
        skills@.len() > 0,
        "## Active Skills\n\n"@ + join(skill_entries(views(skills@)), "\n\n"@),
    ));
    parts
}

/// The system prompt without learned preferences.
pub fn build_full_system_prompt(
    base: &str,
    description: &Option<String>,
    identity: &str,
    skills: &Vec<String>,
) -> (r: String)
    ensures
        r@ == join(
            prompt_parts(base@, identity@, view_opt(*description), views(skills@)),
            section_break(),
        ),
{
    joined(&collect_parts(base, description, identity, skills), "\n\n---\n\n")
}

/// The system prompt with learned preferences.
pub fn build_full_system_prompt_with_preferences(
    base: &str,
    description: &Option<String>,
    identity: &str,
    skills: &Vec<String>,
    preferences: &Vec<UserPreference>,
) -> (r: String)
    ensures
        r@ == join(
            prompt_parts(base@, identity@, view_opt(*description), views(skills@))
                + preference_part(views(preferences@)),
            section_break(),
        ),
{
    let mut parts = collect_parts(base, description, identity, skills);
    let ghost before = views(parts@);
    if preferences.len() > 0 {
        let mut entries: Vec<String> = Vec::new();
        let mut i: usize = 0;
        while i < preferences.len()
            invariant
                i <= preferences@.len(),
                entries@.len() == i,
                forall|k: int| 0 <= k < i ==> (#[trigger] entries@[k])@ == preference_entries(
                    views(preferences@),
                )[k],
            decreases preferences@.len() - i,
        {
            let p = &preferences[i];
            let tail = cat3(" (confidence: ", &p.percent, "%)");
            entries.push(cat5("- ", &p.key, ": ", &p.value, &tail));
            i = i + 1;
        }
        assert(views(entries@) =~= preference_entries(views(preferences@)));
        let section = joined(&entries, "\n");
        add_part(
            &mut parts,
            cat2(
                "## User Preferences\nThe following preferences have been learned from past interactions. Apply them:\n",
                &section,
            ),
        );
    }
    assert(views(parts@) =~= before + preference_part(views(preferences@)));
    joined(&parts, "\n\n---\n\n")
}

/// Without learned preferences both ways of building the prompt agree.
pub proof fn prompt_without_preferences(parts: Seq<Seq<char>>)
    ensures
        join(parts + preference_part(Seq::empty()), section_break()) == join(
            parts,
            section_break(),
        ),
{
    assert(parts + preference_part(Seq::empty()) =~= parts);
}

/// `None` for an empty list.
pub open spec fn none_if_empty<T>(s: Seq<T>) -> Option<Seq<T>> {
    if s.len() == 0 {
        None
    } else {
        Some(s)
    }
}

/// A message of the history as the model sees it.
pub open spec fn history_message(m: ConversationMessageView) -> UnifiedMessageView {
    UnifiedMessageView {
        role: m.role,
        content: m.content,
        tool_calls: none_if_empty(m.tool_calls),
        tool_results: none_if_empty(m.tool_results),
    }
}

/// The user's message.
pub open spec fn user_message(text: Seq<char>) -> UnifiedMessageView {
    UnifiedMessageView {
        role: "user"@,
        content: Some(text),
        tool_calls: None,
        tool_results: None,
    }
}

/// The history followed by the user's message.
pub open spec fn message_list(
    history: Seq<ConversationMessageView>,
    text: Seq<char>,
) -> Seq<UnifiedMessageView> {
    Seq::new(history.len(), |i: int| history_message(history[i])).push(user_message(text))
}

/// The messages that go to the model.
pub fn build_messages(history: &Vec<ConversationMessage>, text: &str) -> (r: Vec<UnifiedMessage>)
    ensures
        views(r@) == message_list(views(history@), text@),
        r@.len() == history@.len() + 1,
        forall|i: int|
            0 <= i < history@.len() ==> (#[trigger] r@[i]).role@ == history@[i].role@ && view_opt(
                r@[i].content,
            ) == view_opt(history@[i].content),
        r@[history@.len() as int].role@ == "user"@,
        view_opt(r@[history@.len() as int].content) == Some(text@),
{
    let mut out: Vec<UnifiedMessage> = Vec::new();
    let mut i: usize = 0;
    while i < history.len()
        invariant
            i <= history@.len(),
            out@.len() == i,
            forall|k: int| 0 <= k < i ==> (#[trigger] out@[k])@ == history_message(history@[k]@),
        decreases history@.len() - i,
    {
        let m = &history[i];
        let tool_calls = if m.tool_calls.len() == 0 {
            None
        } else {
            Some(duplicate_all(&m.tool_calls))
        };
        let tool_results = if m.tool_results.len() == 0 {
            None
        } else {
            Some(duplicate_all(&m.tool_results))
        };
        out.push(
            UnifiedMessage {
                role: m.role.clone(),
                content: duplicate_opt(&m.content),
                tool_calls,
                tool_results,
            },
        );
        i = i + 1;
    }
    let ghost before = out@;
    out.push(
        UnifiedMessage {
            role: own("user"),
            content: Some(own(text)),
            tool_calls: None,
            tool_results: None,
        },
    );
    assert(views(out@) =~= message_list(views(history@), text@));
    assert forall|i: int| 0 <= i < history@.len() implies (#[trigger] out@[i]).role@
        == history@[i].role@ && view_opt(out@[i].content) == view_opt(history@[i].content) by {
        assert(out@[i]@ == message_list(views(history@), text@)[i]);
        assert(out@[i]@ == history_message(history@[i]@));
    }
    out
}

/// A built-in capability.
pub open spec fn is_builtin(name: Seq<char>) -> bool {
    exists|i: int| 0 <= i < builtin_list().len() && (#[trigger] builtin_list()[i]).0 == name
}

/// Whether a tool is a built-in capability.
fn builtin(name: &str) -> (r: bool)
    ensures
        r == is_builtin(name@),
{
    let r = same(name, "brain-query")
        || same(name, "subscribe-events")
        || same(name, "unsubscribe-events")
        || same(name, "delegate-task")
        || same(name, "schedule-wake")
        || same(name, "send-notification")
        || same(name, "get-conversation")
        || same(name, "list-conversations")
        || same(name, "search-skills")
        || same(name, "load-skill")
        || same(name, "save-skill");
    proof {
        let l = builtin_list();
        assert(l[0].0 == "brain-query"@);
        assert(l[1].0 == "subscribe-events"@);
        assert(l[2].0 == "unsubscribe-events"@);
        assert(l[3].0 == "delegate-task"@);
        assert(l[4].0 == "schedule-wake"@);
        assert(l[5].0 == "send-notification"@);
        assert(l[6].0 == "get-conversation"@);
        assert(l[7].0 == "list-conversations"@);
        assert(l[8].0 == "search-skills"@);
        assert(l[9].0 == "load-skill"@);
        assert(l[10].0 == "save-skill"@);
        assert forall|i: int| 0 <= i < l.len() && (#[trigger] l[i]).0 == name@ implies r by {
            assert(i == 0 || i == 1 || i == 2 || i == 3 || i == 4 || i == 5 || i == 6 || i == 7 || i
                == 8 || i == 9 || i == 10);
        }
    }
    r
}

/// A tool that an agent may use: one of its own list, or a built-in capability.
pub open spec fn tool_allowed(name: Seq<char>, allowed: Seq<Seq<char>>) -> bool {
    allowed.contains(name) || is_builtin(name)
}

/// The tools that an agent may use, in order. An agent without a list may use
/// all of them.
pub open spec fn allowed_tools(tools: Seq<ToolSchemaView>, allowed: Seq<Seq<char>>) -> Seq<
    ToolSchemaView,
>
    decreases tools.len(),
{
    if allowed.len() == 0 {
        tools
    } else if tools.len() == 0 {
        Seq::empty()
    } else if tool_allowed(tools.last().name, allowed) {
        allowed_tools(tools.drop_last(), allowed).push(tools.last())
    } else {
        allowed_tools(tools.drop_last(), allowed)
    }
}

/// Chooses the tools that an agent may use.
pub fn select_tools(tools: &Vec<ToolSchema>, allowed: &Vec<String>) -> (r: Vec<ToolSchema>)
    ensures
        views(r@) == allowed_tools(views(tools@), views(allowed@)),
{
    if allowed.len() == 0 {
        return duplicate_all(tools);
    }
    let mut out: Vec<ToolSchema> = Vec::new();
    let mut i: usize = 0;
    proof {
        assert(views(out@) =~= allowed_tools(views(tools@).subrange(0, 0), views(allowed@)));
    }
    while i < tools.len()
        invariant
            i <= tools@.len(),
            allowed@.len() > 0,
            views(out@) == allowed_tools(views(tools@).subrange(0, i as int), views(allowed@)),
        decreases tools@.len() - i,
    {
        let ghost before = out@;
        let t = &tools[i];
        proof {
            let v = views(tools@).subrange(0, i + 1);
            assert(v.drop_last() =~= views(tools@).subrange(0, i as int));
            assert(v.last() == t@);
        }
        if has_text(allowed, &t.name) || builtin(&t.name) {
            out.push(t.copy());
            proof {
                assert(views(out@) =~= views(before).push(t@));
            }
        }
        i = i + 1;
    }
    proof {
        assert(views(tools@).subrange(0, i as int) =~= views(tools@));
    }
    out
}

/// The built-in capabilities are available to every agent, whatever its list names.
pub proof fn builtins_are_offered(
    tools: Seq<ToolSchemaView>,
    allowed: Seq<Seq<char>>,
    t: ToolSchemaView,
)
    requires
        tools.contains(t),
        is_builtin(t.name),
    ensures
        allowed_tools(tools, allowed).contains(t),
    decreases tools.len(),
{
    if allowed.len() > 0 {
        let init = tools.drop_last();
        let kept = allowed_tools(init, allowed);
        if tools.last() == t {
            assert(kept.push(t).last() == t);
        } else {
            let i = choose|i: int| 0 <= i < tools.len() && tools[i] == t;
            assert(init[i] == t);
            builtins_are_offered(init, allowed, t);
            let k = choose|k: int| 0 <= k < kept.len() && kept[k] == t;
            assert(kept.push(tools.last())[k] == t);
        }
    }
}

/// A string in the payload, where it is not empty.
pub open spec fn nonempty_text_at(payload: JsonView, key: Seq<char>) -> Option<Seq<char>> {
    match payload.text_at(key) {
        Some(s) => if s.len() > 0 {
            Some(s)
        } else {
            None
        },
        None => None,
    }
}

/// The request that goes to the model for an event.
pub open spec fn llm_request_view(
    agent_id: Seq<char>,
    scope: Seq<char>,
    allowed: Seq<Seq<char>>,
    event: ConsciousnessEventView,
    history: Seq<ConversationMessageView>,
    prompt: Seq<char>,
    tools: Seq<ToolSchemaView>,
) -> UnifiedLlmRequestView {
    UnifiedLlmRequestView {
        agent_id,
        messages: message_list(history, user_text(event)),
        system_prompt: Some(prompt),
        tools: allowed_tools(tools, allowed),
        temperature_hundredths: Some(70u32),
        max_tokens: Some(4096u32),
        routing_strategy: "best-first"@,
        model_preferences: seq!["gemini-2.0-flash"@],
        correlation_id: event.payload.text_at("correlation_id"@),
        scope: Some(scope),
        user_id: nonempty_text_at(event.payload, "user_id"@),
    }
}

/// Builds the request that goes to the model for an event.
pub fn build_llm_request(
    agent: &AgentDefinition,
    agent_id: &str,
    event: &ConsciousnessEvent,
    history: &Vec<ConversationMessage>,
    prompt: &str,
    tools: &Vec<ToolSchema>,
) -> (r: UnifiedLlmRequest)
    ensures
        r@ == llm_request_view(
            agent_id@,
            agent.scope@,
            views(agent.tools@),
            event@,
            views(history@),
            prompt@,
            views(tools@),
        ),
        r.messages@.len() == history@.len() + 1,
        forall|i: int|
            0 <= i < history@.len() ==> (#[trigger] r.messages@[i]).role@ == history@[i].role@
                && view_opt(r.messages@[i].content) == view_opt(history@[i].content),
{
    let text = extract_user_text(event);
    let user_id = match event.payload.text_at("user_id") {
        Some(u) => if u.as_str().is_empty() {
            None
        } else {
            Some(u)
        },
        None => None,
    };
    let r = UnifiedLlmRequest {
        agent_id: own(agent_id),
        messages: build_messages(history, &text),
        system_prompt: Some(own(prompt)),
        tools: select_tools(tools, &agent.tools),
        temperature_hundredths: Some(70),
        max_tokens: Some(4096),
        routing_strategy: own("best-first"),
        model_preferences: vec![own("gemini-2.0-flash")],
        correlation_id: event.payload.text_at("correlation_id"),
        scope: Some(agent.scope.clone()),
        user_id,
    };
    assert(r@.model_preferences =~= seq!["gemini-2.0-flash"@]);
    r
}

/// The subject of a model provider; the default is google.
pub fn provider_subject(provider: &Option<String>) -> (r: String)
    ensures
        r@ == "llm.provider."@ + match *provider {
            Some(p) => p@,
            None => "google"@,
        },
{
    match provider {
        Some(p) => cat2("llm.provider.", p),
        None => cat2("llm.provider.", "google"),
    }
}

/// The limits of an agent: the defaults with the agent's own in their place.
pub fn build_guardrail_config(
    defaults: GuardrailConfig,
    overrides: Option<GuardrailOverrides>,
) -> (r: GuardrailConfig)
    ensures
        r == match overrides {
            Some(o) => GuardrailConfig {
                turn_limit: o.turn_limit.unwrap_or(defaults.turn_limit),
                time_limit_seconds: o.time_limit_seconds.unwrap_or(defaults.time_limit_seconds),
                hitl_after_turns: if o.hitl_after_turns is Some {
                    o.hitl_after_turns
                } else {
                    defaults.hitl_after_turns
                },
            },
            None => defaults,
        },
{
    let mut config = defaults;
    match overrides {
        Some(o) => {
            match o.turn_limit {
                Some(n) => {
                    config.turn_limit = n;
                },
                None => {},
            }
            match o.time_limit_seconds {
                Some(n) => {
                    config.time_limit_seconds = n;
                },
                None => {},
            }
            match o.hitl_after_turns {
                Some(n) => {
                    config.hitl_after_turns = Some(n);
                },
                None => {},
            }
        },
        None => {},
    }
    config
}

/// What the user is told when a limit is overstepped.
pub open spec fn violation_text(v: GuardrailViolation) -> Seq<char> {
    match v {
        GuardrailViolation::TurnLimitReached(n) => "Tool call limit reached ("@ + decimal(n as nat)
            + " turns). Stopping."@,
        GuardrailViolation::TimeLimitReached(n) => "Time limit reached ("@ + decimal(n as nat)
            + "s). Stopping."@,
        GuardrailViolation::LoopDetected { tool_name, count } => "Loop detected: "@ + tool_name@
            + " called "@ + decimal(count as nat) + " times with same args."@,
        GuardrailViolation::HitlRequired(n) => "Human approval needed after "@ + decimal(n as nat)
            + " turns."@,
    }
}

/// What the user is told when a limit is overstepped.
pub fn violation_message(v: &GuardrailViolation) -> (r: String)
    ensures
        r@ == violation_text(*v),
{
    match v {
        GuardrailViolation::TurnLimitReached(n) => cat3(
            "Tool call limit reached (",
            &decimal_of(*n as u64),
            " turns). Stopping.",
        ),
        GuardrailViolation::TimeLimitReached(n) => cat3(
            "Time limit reached (",
            &decimal_of(*n),
            "s). Stopping.",
        ),
        GuardrailViolation::LoopDetected { tool_name, count } => cat5(
            "Loop detected: ",
            tool_name,
            " called ",
            &decimal_of(*count as u64),
            " times with same args.",
        ),
        GuardrailViolation::HitlRequired(n) => cat3(
            "Human approval needed after ",
            &decimal_of(*n as u64),
            " turns.",
        ),
    }
}

/// The first violation among the turns of a response.
pub open spec fn first_violation(turns: Seq<Option<GuardrailViolation>>) -> Option<
    GuardrailViolation,
>
    decreases turns.len(),
{
    if turns.len() == 0 {
        None
    } else if turns[0] is Some {
        turns[0]
    } else {
        first_violation(turns.drop_first())
    }
}

/// The text that an event is answered with: the message of the first violation,
/// else what the model said.
pub open spec fn response_text(
    turns: Seq<Option<GuardrailViolation>>,
    content: Option<Seq<char>>,
) -> Seq<char> {
    match first_violation(turns) {
        Some(v) => violation_text(v),
        None => content.unwrap_or(Seq::empty()),
    }
}

/// Chooses the text that an event is answered with; the flag says whether a
/// limit was overstepped. `turns` holds what the guardrails said to each tool
/// call of the response, in order.
pub fn choose_response(
    turns: &Vec<Option<GuardrailViolation>>,
    content: &Option<String>,
) -> (r: (String, bool))
    ensures
        r.0@ == response_text(turns@, view_opt(*content)),
        r.1 == first_violation(turns@) is Some,
{
    let mut i: usize = 0;
    proof {
        assert(turns@.subrange(0, turns@.len() as int) =~= turns@);
    }
    while i < turns.len()
        invariant
            i <= turns@.len(),
            first_violation(turns@) == first_violation(
                turns@.subrange(i as int, turns@.len() as int),
            ),
        decreases turns@.len() - i,
    {
        proof {
            let t = turns@.subrange(i as int, turns@.len() as int);
            assert(t[0] == turns@[i as int]);
            assert(t.drop_first() =~= turns@.subrange(i + 1, turns@.len() as int));
        }
        match &turns[i] {
            Some(v) => {
                return (violation_message(v), true);
            },
            None => {},
        }
        i = i + 1;
    }
    match content {
        Some(c) => (c.clone(), false),
        None => (String::new(), false),
    }
}

/// What is done once an event has its answer.
pub enum EventAction {
    Append { conversation_id: String, role: String, content: String },
    Publish { subject: String, outbound: ChannelOutbound },
}

/// The mathematical content of an [`EventAction`].
pub enum EventActionView {
    Append { conversation_id: Seq<char>, role: Seq<char>, content: Seq<char> },
    Publish { subject: Seq<char>, outbound: ChannelOutboundView },
}

impl View for EventAction {
    type V = EventActionView;

    open spec fn view(&self) -> EventActionView {
        match *self {
            EventAction::Append { conversation_id, role, content } => EventActionView::Append {
                conversation_id: conversation_id@,
                role: role@,
                content: content@,
            },
            EventAction::Publish { subject, outbound } => EventActionView::Publish {
                subject: subject@,
                outbound: outbound@,
            },
        }
    }
}

/// The entry of a message into a conversation; an empty message leaves none.
pub open spec fn append_actions(
    conversation_id: Seq<char>,
    role: Seq<char>,
    content: Seq<char>,
) -> Seq<EventActionView> {
    if content.len() == 0 {
        Seq::empty()
    } else {
        seq![EventActionView::Append { conversation_id, role, content }]
    }
}

/// The reply on the channel that a message came from.
pub open spec fn outbound_view(origin: EventOriginView, text: Seq<char>) -> EventActionView {
    EventActionView::Publish {
        subject: "channel."@ + origin.platform + ".outbound"@,
        outbound: ChannelOutboundView {
            platform: origin.platform,
            chat_id: origin.chat_id,
            text,
            format: "markdown"@,
            reply_to: origin.message_id,
            actions: Seq::empty(),
        },
    }
}

/// All that is done once an event has its answer: both messages enter the
/// conversation, and the answer goes out where the event has an origin, unless
/// a limit was overstepped or there is nothing to say.
pub open spec fn event_actions(
    conversation_id: Seq<char>,
    event: ConsciousnessEventView,
    turns: Seq<Option<GuardrailViolation>>,
    content: Option<Seq<char>>,
) -> Seq<EventActionView> {
    let answer = response_text(turns, content);
    append_actions(conversation_id, "user"@, user_text(event)) + append_actions(
        conversation_id,
        "assistant"@,
        answer,
    ) + match event.origin {
        Some(o) => if first_violation(turns) is None && answer.len() > 0 {
            seq![outbound_view(o, answer)]
        } else {
            Seq::empty()
        },
        None => Seq::empty(),
    }
}

/// Decides what is done once the model has answered an event.
pub fn finish_event(
    conversation_id: &str,
    event: &ConsciousnessEvent,
    turns: &Vec<Option<GuardrailViolation>>,
    content: &Option<String>,
) -> (r: Vec<EventAction>)
    ensures
        views(r@) == event_actions(conversation_id@, event@, turns@, view_opt(*content)),
{
    let text = extract_user_text(event);
    let (answer, triggered) = choose_response(turns, content);
    let mut out: Vec<EventAction> = Vec::new();
    if !text.as_str().is_empty() {
        out.push(
            EventAction::Append {
                conversation_id: own(conversation_id),
                role: own("user"),
                content: text,
            },
        );
    }
    assert(views(out@) =~= append_actions(conversation_id@, "user"@, user_text(event@)));
    let ghost first = views(out@);
    if !answer.as_str().is_empty() {
        out.push(
            EventAction::Append {
                conversation_id: own(conversation_id),
                role: own("assistant"),
                content: answer.clone(),
            },
        );
    }
    assert(views(out@) =~= first + append_actions(conversation_id@, "assistant"@, answer@));
    let ghost second = views(out@);
    if !triggered {
        match &event.origin {
            Some(o) => {
                if !answer.as_str().is_empty() {
                    let outbound = ChannelOutbound {
                        platform: o.platform.clone(),
                        chat_id: o.chat_id.clone(),
                        text: answer.clone(),
                        format: own("markdown"),
                        reply_to: duplicate_opt(&o.message_id),
                        actions: Vec::new(),
                    };
                    assert(outbound@.actions =~= Seq::empty());
                    let subject = cat3("channel.", &o.platform, ".outbound");
                    out.push(EventAction::Publish { subject, outbound });
                    assert(views(out@) =~= second + seq![outbound_view(o@, answer@)]);
                }
            },
            None => {},
        }
    }
    assert(views(out@) =~= event_actions(conversation_id@, event@, turns@, view_opt(*content)));
    out
}

/// A response that overstepped a limit is never published.
pub proof fn violation_is_not_published(
    conversation_id: Seq<char>,
    event: ConsciousnessEventView,
    turns: Seq<Option<GuardrailViolation>>,
    content: Option<Seq<char>>,
)
    requires
        first_violation(turns) is Some,
    ensures
        forall|i: int|
            0 <= i < event_actions(conversation_id, event, turns, content).len() ==> !((
            #[trigger] event_actions(conversation_id, event, turns, content)[i]) is Publish),
{
}

// ---------------------------------------------------------------------------
// Storing a preference
// ---------------------------------------------------------------------------

/// How often storing a preference is tried again.
pub const MAX_STORE_RETRIES: u32 = 2;

/// How an attempt to store a preference came out.
pub enum AttemptOutcome {
    Stored,
    Failed(String),
    TimedOut,
}

/// What follows an attempt.
pub enum RetryStep {
    Done,
    /// Try again after a pause.
    Retry { attempt: u32, delay_ms: u64 },
    GiveUp(String),
}

/// Why an attempt failed.
pub open spec fn attempt_error(outcome: AttemptOutcome) -> Seq<char> {
    match outcome {
        AttemptOutcome::Failed(e) => "NATS request failed: "@ + e@,
        _ => "Timed out (5s)"@,
    }
}

/// Decides what follows an attempt: half a second of pause for each attempt so
/// far, until the retries are used up.
pub fn after_attempt(attempt: u32, outcome: AttemptOutcome) -> (r: RetryStep)
    ensures
        match r {
            RetryStep::Done => outcome is Stored,
            RetryStep::Retry { attempt: n, delay_ms } => !(outcome is Stored) && attempt
                < MAX_STORE_RETRIES && n == attempt + 1 && delay_ms == 500 * n,
            RetryStep::GiveUp(e) => !(outcome is Stored) && attempt >= MAX_STORE_RETRIES && e@
                == "Preference fact upsert failed after "@ + decimal(MAX_STORE_RETRIES as nat)
                + " retries: "@ + attempt_error(outcome),
        },
{
    let error = match outcome {
        AttemptOutcome::Stored => {
            return RetryStep::Done;
        },
        AttemptOutcome::Failed(e) => cat2("NATS request failed: ", &e),
        AttemptOutcome::TimedOut => own("Timed out (5s)"),
    };
    if attempt < MAX_STORE_RETRIES {
        RetryStep::Retry { attempt: attempt + 1, delay_ms: 500 * (attempt as u64 + 1) }
    } else {
        RetryStep::GiveUp(
            cat4(
                "Preference fact upsert failed after ",
                &decimal_of(MAX_STORE_RETRIES as u64),
                " retries: ",
                &error,
            ),
        )
    }
}

// ---------------------------------------------------------------------------
// Agents
// ---------------------------------------------------------------------------

/// A file of the agents directory: its extension, the definition in it where it
/// could be read, and the text of the agent's prompt file where that could be
/// read.
pub struct AgentFile {
    pub extension: String,
    pub definition: Option<AgentDefinition>,
    pub identity: Option<String>,
}

/// The file defines an agent that takes part.
pub open spec fn counts(f: AgentFile) -> bool {
    yaml_extension(f.extension@) && match f.definition {
        Some(d) => d.enabled,
        None => false,
    }
}

/// The agents that a list of files defines; of two with one id the later counts.
pub open spec fn loaded_agents(files: Seq<AgentFile>) -> Seq<(Seq<char>, AgentDefinition)>
    decreases files.len(),
{
    if files.len() == 0 {
        Seq::empty()
    } else if counts(files.last()) {
        crate::table::upsert(
            loaded_agents(files.drop_last()),
            files.last().definition->0.id@,
            files.last().definition->0,
        )
    } else {
        loaded_agents(files.drop_last())
    }
}

/// The prompt text of the last counting file that defines an agent; `None` where
/// no file does.
pub open spec fn loaded_identity(files: Seq<AgentFile>, agent_id: Seq<char>) -> Option<Seq<char>>
    decreases files.len(),
{
    if files.len() == 0 {
        None
    } else if counts(files.last()) && files.last().definition->0.id@ == agent_id {
        Some(
            match files.last().identity {
                Some(t) => t@,
                None => Seq::empty(),
            },
        )
    } else {
        loaded_identity(files.drop_last(), agent_id)
    }
}

/// The agents that take part and the prompts that are cached for them.
pub struct ConsciousnessService {
    pub agents: Table<AgentDefinition>,
    pub identity_prompts: Table<String>,
    pub system_prompt: String,
}

impl ConsciousnessService {
    /// The tables are tables.
    pub open spec fn wf(self) -> bool {
        self.agents.wf() && self.identity_prompts.wf()
    }

    /// The tables hold what the files say.
    pub open spec fn holds(self, files: Seq<AgentFile>) -> bool {
        &&& self.wf()
        &&& self.agents@ == loaded_agents(files)
        &&& forall|id: Seq<char>|
            view_opt(#[trigger] self.identity_prompts.value(id)) == loaded_identity(files, id)
    }

    /// A service for the agents that the files define. A missing system prompt
    /// is the empty one.
    pub fn new(files: Vec<AgentFile>, system_prompt: Option<String>) -> (r: ConsciousnessService)
        ensures
            r.holds(files@),
            r.system_prompt@ == view_opt(system_prompt).unwrap_or(Seq::empty()),
    {
        let system_prompt = match system_prompt {
            Some(s) => s,
            None => String::new(),
        };
        let mut r = ConsciousnessService {
            agents: Table::new(),
            identity_prompts: Table::new(),
            system_prompt,
        };
        r.reload(files);
        r
    }

    /// Reads the agents again. Nothing stays of those that were there before.
    pub fn reload(&mut self, files: Vec<AgentFile>)
        ensures
            final(self).holds(files@),
            final(self).system_prompt == old(self).system_prompt,
    {
        let ghost all = files@;
        let mut files = files;
        let mut agents: Table<AgentDefinition> = Table::new();
        let mut prompts: Table<String> = Table::new();
        let ghost mut done: int = 0;
        proof {
            assert(all.subrange(0, 0) =~= Seq::empty());
            assert(all.subrange(0, all.len() as int) =~= all);
        }
        while files.len() > 0
            invariant
                0 <= done <= all.len(),
                files@ == all.subrange(done, all.len() as int),
                agents.wf(),
                prompts.wf(),
                agents@ == loaded_agents(all.subrange(0, done)),
                forall|id: Seq<char>|
                    view_opt(#[trigger] prompts.value(id)) == loaded_identity(
                        all.subrange(0, done),
                        id,
                    ),
            decreases files@.len(),
        {
            let f = files.remove(0);
            proof {
                let t = all.subrange(0, done + 1);
                assert(t.drop_last() =~= all.subrange(0, done));
                assert(t.last() == all[done]);
                assert(f == all[done]);
                assert(files@ =~= all.subrange(done + 1, all.len() as int));
            }
            let yaml = is_yaml(&f.extension);
            let identity = match f.identity {
                Some(t) => t,
                None => String::new(),
            };
            if let Some(d) = f.definition {
                if yaml && d.enabled {
                    prompts.insert(d.id.clone(), identity);
                    agents.insert(d.id.clone(), d);
                }
            }
            proof {
                done = done + 1;
            }
        }
        proof {
            assert(all.subrange(0, done) =~= all);
        }
        self.agents = agents;
        self.identity_prompts = prompts;
    }

    /// The cached prompt of an agent, empty where there is none.
    pub fn identity(&self, agent_id: &str) -> (r: String)
        requires
            self.wf(),
        ensures
            r@ == view_opt(self.identity_prompts.value(agent_id@)).unwrap_or(Seq::empty()),
    {
        match self.identity_prompts.get(agent_id) {
            Some(t) => t.clone(),
            None => String::new(),
        }
    }
}

/// The names of the built-in capabilities are different.
proof fn builtin_names_differ()
    ensures
        "brain-query"@ != "subscribe-events"@,
        "brain-query"@ != "unsubscribe-events"@,
        "brain-query"@ != "delegate-task"@,
        "brain-query"@ != "schedule-wake"@,
        "brain-query"@ != "send-notification"@,
        "brain-query"@ != "get-conversation"@,
        "brain-query"@ != "list-conversations"@,
        "brain-query"@ != "search-skills"@,
        "brain-query"@ != "load-skill"@,
        "brain-query"@ != "save-skill"@,
        "subscribe-events"@ != "unsubscribe-events"@,
        "subscribe-events"@ != "delegate-task"@,
        "subscribe-events"@ != "schedule-wake"@,
        "subscribe-events"@ != "send-notification"@,
        "subscribe-events"@ != "get-conversation"@,
        "subscribe-events"@ != "list-conversations"@,
        "subscribe-events"@ != "search-skills"@,
        "subscribe-events"@ != "load-skill"@,
        "subscribe-events"@ != "save-skill"@,
        "unsubscribe-events"@ != "delegate-task"@,
        "unsubscribe-events"@ != "schedule-wake"@,
        "unsubscribe-events"@ != "send-notification"@,
        "unsubscribe-events"@ != "get-conversation"@,
        "unsubscribe-events"@ != "list-conversations"@,
        "unsubscribe-events"@ != "search-skills"@,
        "unsubscribe-events"@ != "load-skill"@,
        "unsubscribe-events"@ != "save-skill"@,
        "delegate-task"@ != "schedule-wake"@,
        "delegate-task"@ != "send-notification"@,
        "delegate-task"@ != "get-conversation"@,
        "delegate-task"@ != "list-conversations"@,
        "delegate-task"@ != "search-skills"@,
        "delegate-task"@ != "load-skill"@,
        "delegate-task"@ != "save-skill"@,
        "schedule-wake"@ != "send-notification"@,
        "schedule-wake"@ != "get-conversation"@,
        "schedule-wake"@ != "list-conversations"@,
        "schedule-wake"@ != "search-skills"@,
        "schedule-wake"@ != "load-skill"@,
        "schedule-wake"@ != "save-skill"@,
        "send-notification"@ != "get-conversation"@,
        "send-notification"@ != "list-conversations"@,
        "send-notification"@ != "search-skills"@,
        "send-notification"@ != "load-skill"@,
        "send-notification"@ != "save-skill"@,
        "get-conversation"@ != "list-conversations"@,
        "get-conversation"@ != "search-skills"@,
        "get-conversation"@ != "load-skill"@,
        "get-conversation"@ != "save-skill"@,
        "list-conversations"@ != "search-skills"@,
        "list-conversations"@ != "load-skill"@,
        "list-conversations"@ != "save-skill"@,
        "search-skills"@ != "load-skill"@,
        "search-skills"@ != "save-skill"@,
        "load-skill"@ != "save-skill"@,
{
    reveal_strlit("brain-query");
    assert("brain-query"@.len() == 11);
    reveal_strlit("subscribe-events");
    assert("subscribe-events"@.len() == 16);
    reveal_strlit("unsubscribe-events");
    assert("unsubscribe-events"@.len() == 18);
    reveal_strlit("delegate-task");
    assert("delegate-task"@.len() == 13);
    reveal_strlit("schedule-wake");
    assert("schedule-wake"@.len() == 13);
    reveal_strlit("send-notification");
    assert("send-notification"@.len() == 17);
    reveal_strlit("get-conversation");
    assert("get-conversation"@.len() == 16);
    reveal_strlit("list-conversations");
    assert("list-conversations"@.len() == 18);
    reveal_strlit("search-skills");
    assert("search-skills"@.len() == 13);
    reveal_strlit("load-skill");
    assert("load-skill"@.len() == 10);
    reveal_strlit("save-skill");
    assert("save-skill"@.len() == 10);
    assert("subscribe-events"@[0] == 's' && "get-conversation"@[0] == 'g');
    assert("unsubscribe-events"@[0] == 'u' && "list-conversations"@[0] == 'l');
    assert("delegate-task"@[0] == 'd' && "schedule-wake"@[0] == 's');
    assert("delegate-task"@[0] == 'd' && "search-skills"@[0] == 's');
    assert("schedule-wake"@[1] == 'c' && "search-skills"@[1] == 'e');
    assert("load-skill"@[0] == 'l' && "save-skill"@[0] == 's');
}

/// An argument is stated under its name in an object, or in its place in an array; one that may
/// be left out is left out of an object or null.
pub open spec fn states(a: JsonView, key: Seq<char>, i: int, value: Option<JsonView>) -> bool {
    match (a, value) {
        (JsonView::Array(s), Some(v)) => 0 <= i < s.len() && s[i] == v && !(v is Null),
        (JsonView::Array(s), None) => 0 <= i < s.len() && s[i] is Null,
        (_, Some(v)) => a.get(key) == Some(v) && !(v is Null),
        (_, None) => a.get(key) is None || a.get(key) == Some(JsonView::Null),
    }
}

/// Arguments are an object, or an array with a place for each.
pub open spec fn takes(a: JsonView, n: nat) -> bool {
    a is Object || (a is Array && a->Array_0.len() == n)
}

/// A delegated task goes to the agent that it names, with its message and its context, from the
/// agent that asks.
pub proof fn delegation_reaches_the_agent(
    r: ToolCallRequestView,
    to: Seq<char>,
    message: Seq<char>,
    context: Option<JsonView>,
)
    requires
        r.tool_id == "delegate-task"@,
        takes(r.arguments, 3),
        states(r.arguments, "to_agent_id"@, 0, Some(JsonView::Text(to))),
        states(r.arguments, "message"@, 1, Some(JsonView::Text(message))),
        states(r.arguments, "context"@, 2, context),
    ensures
        builtin_step(r) == (BuiltinStepView::Delegate {
            agent_id: r.plugin_id,
            to_agent_id: to,
            message,
            context,
        }),
{
    builtin_names_differ();
}

/// A notification goes to the chat that it names, with its text.
pub proof fn notification_is_sent_as_asked(
    r: ToolCallRequestView,
    channel: Seq<char>,
    chat_id: Seq<char>,
    text: Seq<char>,
)
    requires
        r.tool_id == "send-notification"@,
        takes(r.arguments, 3),
        states(r.arguments, "channel"@, 0, Some(JsonView::Text(channel))),
        states(r.arguments, "chat_id"@, 1, Some(JsonView::Text(chat_id))),
        states(r.arguments, "text"@, 2, Some(JsonView::Text(text))),
    ensures
        builtin_step(r) == (BuiltinStepView::SendNotification { channel, chat_id, text }),
{
    builtin_names_differ();
}

/// A wake-up within a week is scheduled for the agent that asks, after the time and with the
/// reason and the context that it names.
pub proof fn wake_is_scheduled_as_asked(
    r: ToolCallRequestView,
    delay: u64,
    reason: Seq<char>,
    context: Option<JsonView>,
)
    requires
        r.tool_id == "schedule-wake"@,
        takes(r.arguments, 3),
        states(r.arguments, "delay_seconds"@, 0, Some(JsonView::Int(delay as int))),
        states(r.arguments, "reason"@, 1, Some(JsonView::Text(reason))),
        states(r.arguments, "context"@, 2, context),
        1 <= delay <= 7 * 24 * 3600,
    ensures
        builtin_step(r) == (BuiltinStepView::ScheduleWake {
            agent_id: r.plugin_id,
            delay_seconds: delay,
            reason,
            context,
        }),
{
    builtin_names_differ();
}

/// A wake-up at once, or after more than a week, is refused.
pub proof fn wake_has_bounds(
    r: ToolCallRequestView,
    delay: u64,
    reason: Seq<char>,
    context: Option<JsonView>,
)
    requires
        r.tool_id == "schedule-wake"@,
        takes(r.arguments, 3),
        states(r.arguments, "delay_seconds"@, 0, Some(JsonView::Int(delay as int))),
        states(r.arguments, "reason"@, 1, Some(JsonView::Text(reason))),
        states(r.arguments, "context"@, 2, context),
        delay == 0 || delay > 7 * 24 * 3600,
    ensures
        builtin_step(r) matches BuiltinStepView::Reply(a) && a.is_error && a.tool_id
            == "schedule-wake"@,
{
    builtin_names_differ();
}

/// The conversation that a call names is read, with the number of messages that it names.
pub proof fn conversation_is_read_as_asked(
    r: ToolCallRequestView,
    id: Seq<char>,
    n: Option<u32>,
)
    requires
        r.tool_id == "get-conversation"@,
        takes(r.arguments, 2),
        states(r.arguments, "conversation_id"@, 0, Some(JsonView::Text(id))),
        states(
            r.arguments,
            "max_messages"@,
            1,
            if n is Some {
                Some(JsonView::Int(n->0 as int))
            } else {
                None
            },
        ),
    ensures
        builtin_step(r) == (BuiltinStepView::GetConversation {
            conversation_id: id,
            max_messages: if n is Some {
                n->0
            } else {
                0
            },
        }),
{
    builtin_names_differ();
}

/// The conversations of the agent that asks are listed, on the platform and up to the number
/// that it names.
pub proof fn conversations_are_listed_as_asked(
    r: ToolCallRequestView,
    platform: Option<Seq<char>>,
    n: Option<u32>,
)
    requires
        r.tool_id == "list-conversations"@,
        takes(r.arguments, 2),
        states(
            r.arguments,
            "platform"@,
            0,
            if platform is Some {
                Some(JsonView::Text(platform->0))
            } else {
                None
            },
        ),
        states(
            r.arguments,
            "limit"@,
            1,
            if n is Some {
                Some(JsonView::Int(n->0 as int))
            } else {
                None
            },
        ),
    ensures
        builtin_step(r) == (BuiltinStepView::ListConversations {
            agent_id: r.plugin_id,
            platform,
            limit: if n is Some {
                n->0
            } else {
                20
            },
        }),
{
    builtin_names_differ();
}

/// Skills are searched for by the query of the call, up to the number that it names.
pub proof fn skills_are_searched_as_asked(
    r: ToolCallRequestView,
    query: Seq<char>,
    n: Option<u32>,
)
    requires
        r.tool_id == "search-skills"@,
        takes(r.arguments, 2),
        states(r.arguments, "query"@, 0, Some(JsonView::Text(query))),
        states(
            r.arguments,
            "limit"@,
            1,
            if n is Some {
                Some(JsonView::Int(n->0 as int))
            } else {
                None
            },
        ),
    ensures
        builtin_step(r) == (BuiltinStepView::SearchSkills { query, limit: n }),
{
    builtin_names_differ();
}

/// The skill that a call names is loaded; a blank name is refused.
pub proof fn skill_is_loaded_as_asked(
    r: ToolCallRequestView,
    id: Seq<char>,
)
    requires
        r.tool_id == "load-skill"@,
        takes(r.arguments, 1),
        states(r.arguments, "skill_id"@, 0, Some(JsonView::Text(id))),
    ensures
        trim(id).len() > 0 ==> builtin_step(r) == (BuiltinStepView::LoadSkill { skill_id: id }),
        trim(id).len() == 0 ==> builtin_step(r) is Reply && builtin_step(r)->Reply_0.is_error,
{
    builtin_names_differ();
}

/// A skill is saved with its description, its snippet and its tags, and what is embedded
/// holds the first two.
pub proof fn skill_is_saved_as_asked(
    r: ToolCallRequestView,
    description: Seq<char>,
    snippet: Seq<char>,
    tags: Option<Seq<Seq<char>>>,
)
    requires
        r.tool_id == "save-skill"@,
        takes(r.arguments, 3),
        states(r.arguments, "description"@, 0, Some(JsonView::Text(description))),
        states(r.arguments, "snippet"@, 1, Some(JsonView::Text(snippet))),
        states(
            r.arguments,
            "tags"@,
            2,
            if tags is Some {
                Some(text_array(tags->0))
            } else {
                None
            },
        ),
        trim(description).len() > 0,
        trim(snippet).len() > 0,
    ensures
        builtin_step(r) is SaveSkill,
        builtin_step(r)->SaveSkill_description == description,
        builtin_step(r)->snippet == snippet,
        tags is Some ==> builtin_step(r)->tags == tags->0,
        tags is None ==> builtin_step(r)->tags.len() == 0,
        contains(builtin_step(r)->embed_text, description),
        contains(builtin_step(r)->embed_text, snippet),
{
    builtin_names_differ();
    assert(builtin_step(r) == save_skill_step(r.arguments));
    if tags is Some {
        settled_texts(tags->0);
    }
    stand_in_sum(description, "\n"@, snippet);
}

/// Both ends of a sum stand in it.
proof fn stand_in_sum(a: Seq<char>, b: Seq<char>, c: Seq<char>)
    ensures
        contains(a + b + c, a),
        contains(a + b + c, c),
{
    part_stands_in_whole(Seq::empty(), a, b + c);
    assert(Seq::<char>::empty() + a + (b + c) =~= a + b + c);
    part_stands_in_whole(a + b, c, Seq::empty());
    assert(a + b + c + Seq::empty() =~= a + b + c);
}

/// An array of strings stands for itself, and lists them.
proof fn settled_texts(tags: Seq<Seq<char>>)
    ensures
        settle(text_array(tags)) == text_array(tags),
        all_texts(text_array(tags)->Array_0),
        element_texts(text_array(tags)->Array_0) == tags,
{
    let a = text_array(tags)->Array_0;
    assert forall|i: int| 0 <= i < a.len() implies settle(a[i]) == a[i] by {
    }
    assert(settle(text_array(tags))->Array_0 =~= a);
    assert(element_texts(a) =~= tags);
}

/// A subscription is for the agent that asks, the subjects and the time that it names.
pub proof fn subscription_is_made_as_asked(
    r: ToolCallRequestView,
    subjects: Seq<Seq<char>>,
    seconds: Option<u64>,
)
    requires
        r.tool_id == "subscribe-events"@,
        takes(r.arguments, 2),
        states(r.arguments, "subjects"@, 0, Some(text_array(subjects))),
        states(
            r.arguments,
            "duration_seconds"@,
            1,
            if seconds is Some {
                Some(JsonView::Int(seconds->0 as int))
            } else {
                None
            },
        ),
    ensures
        builtin_step(r) == (BuiltinStepView::Subscribe {
            agent_id: r.plugin_id,
            subjects,
            duration_seconds: seconds,
        }),
{
    builtin_names_differ();
    settled_texts(subjects);
}

/// A subscription is ended for the agent that asks and the subjects that it names.
pub proof fn subscription_is_ended_as_asked(
    r: ToolCallRequestView,
    subjects: Seq<Seq<char>>,
)
    requires
        r.tool_id == "unsubscribe-events"@,
        takes(r.arguments, 1),
        states(r.arguments, "subjects"@, 0, Some(text_array(subjects))),
    ensures
        builtin_step(r) == (BuiltinStepView::Unsubscribe { agent_id: r.plugin_id, subjects }),
{
    builtin_names_differ();
    settled_texts(subjects);
}

/// Arguments that are neither an object nor an array, or an array with more places than there
/// are arguments, are refused.
pub proof fn misshapen_arguments_are_refused(r: ToolCallRequestView)
    requires
        is_builtin(r.tool_id),
        r.tool_id != "brain-query"@,
        (!(r.arguments is Object) && !(r.arguments is Array) && !(r.arguments is Float)) || (
        r.arguments is Array && r.arguments->Array_0.len() > 3),
    ensures
        builtin_step(r) is Reply,
        builtin_step(r)->Reply_0.is_error,
        builtin_step(r)->Reply_0.tool_id == r.tool_id,
{
    builtin_names_differ();
    let l = builtin_list();
    let i = choose|i: int| 0 <= i < l.len() && (#[trigger] l[i]).0 == r.tool_id;
    assert(l[0].0 == "brain-query"@);
    assert(l[1].0 == "subscribe-events"@);
    assert(l[2].0 == "unsubscribe-events"@);
    assert(l[3].0 == "delegate-task"@);
    assert(l[4].0 == "schedule-wake"@);
    assert(l[5].0 == "send-notification"@);
    assert(l[6].0 == "get-conversation"@);
    assert(l[7].0 == "list-conversations"@);
    assert(l[8].0 == "search-skills"@);
    assert(l[9].0 == "load-skill"@);
    assert(l[10].0 == "save-skill"@);
    misshapen_steps(r.plugin_id, r.arguments);
}

/// Each capability refuses misshapen arguments.
proof fn misshapen_steps(agent_id: Seq<char>, a: JsonView)
    requires
        (!(a is Object) && !(a is Array) && !(a is Float)) || (a is Array && a->Array_0.len() > 3),
    ensures
        refuses(subscribe_events_step(agent_id, a), "subscribe-events"@),
        refuses(unsubscribe_events_step(agent_id, a), "unsubscribe-events"@),
        refuses(delegate_task_step(agent_id, a), "delegate-task"@),
        refuses(schedule_wake_step(agent_id, a), "schedule-wake"@),
        refuses(send_notification_step(a), "send-notification"@),
        refuses(get_conversation_step(a), "get-conversation"@),
        refuses(list_conversations_step(agent_id, a), "list-conversations"@),
        refuses(search_skills_step(a), "search-skills"@),
        refuses(load_skill_step(a), "load-skill"@),
        refuses(save_skill_step(a), "save-skill"@),
{
    if a is Array {
        assert(surplus_problem(a, 3) is Some);
        assert(surplus_problem(a, 2) is Some);
        assert(surplus_problem(a, 1) is Some);
    }
}

/// A step that refuses a call of a capability.
spec fn refuses(step: BuiltinStepView, tool: Seq<char>) -> bool {
    step is Reply && step->Reply_0.is_error && step->Reply_0.tool_id == tool
}

/// A question to the knowledge graph goes there with the arguments of the call, and what
/// comes back is the result.
pub proof fn brain_query_is_passed_on(r: ToolCallRequestView, answer: Json)
    requires
        r.tool_id == "brain-query"@,
    ensures
        builtin_step(r) matches BuiltinStepView::BrainQuery(p) && p.subject
            == "brain.query.request"@ && p.payload == r.arguments && p.correlation_id
            == r.correlation_id,
        brain_query_reply(BusReply::Answer(answer)).result == answer@,
        !brain_query_reply(BusReply::Answer(answer)).is_error,
{
}

/// A call of anything else is answered with an error that names it.
pub proof fn unknown_capability_is_refused(r: ToolCallRequestView)
    requires
        !is_builtin(r.tool_id),
    ensures
        builtin_step(r) matches BuiltinStepView::Reply(a) && a.is_error && a.tool_id == r.tool_id,
{
    let l = builtin_list();
    assert(l[0].0 == "brain-query"@);
    assert(l[1].0 == "subscribe-events"@);
    assert(l[2].0 == "unsubscribe-events"@);
    assert(l[3].0 == "delegate-task"@);
    assert(l[4].0 == "schedule-wake"@);
    assert(l[5].0 == "send-notification"@);
    assert(l[6].0 == "get-conversation"@);
    assert(l[7].0 == "list-conversations"@);
    assert(l[8].0 == "search-skills"@);
    assert(l[9].0 == "load-skill"@);
    assert(l[10].0 == "save-skill"@);
}

/// An agent hears of every subject that it subscribes to, but for the messages of channels,
/// which reach it another way.
pub proof fn subscriptions_are_exact(patterns: Seq<Seq<char>>, p: Seq<char>)
    ensures
        subscribed(patterns).contains(p) <==> patterns.contains(p) && !(starts_with(
            p,
            "channel."@,
        ) && ends_with(p, ".inbound"@)),
    decreases patterns.len(),
{
    if patterns.len() > 0 {
        let init = patterns.drop_last();
        let last = patterns.last();
        subscriptions_are_exact(init, p);
        let kept = subscribed(init);
        if patterns.contains(p) && p != last {
            let i = choose|i: int| 0 <= i < patterns.len() && patterns[i] == p;
            assert(init[i] == p);
        }
        if init.contains(p) {
            let i = choose|i: int| 0 <= i < init.len() && init[i] == p;
            assert(patterns[i] == p);
        }
        assert(patterns[patterns.len() - 1] == last);
        if kept.contains(p) {
            let i = choose|i: int| 0 <= i < kept.len() && kept[i] == p;
            assert(kept.push(last)[i] == p);
        }
        assert(kept.push(last)[kept.len() as int] == last);
        if kept.push(last).contains(p) && p != last {
            let i = choose|i: int| 0 <= i < kept.push(last).len() && kept.push(last)[i] == p;
            assert(kept[i] == p);
        }
    }
}

/// A message that an agent watches reaches it whole, under the subject that it came from.
pub proof fn watched_message_is_forwarded(agent_id: Seq<char>, subject: Seq<char>, v: JsonView)
    ensures
        !(v is Null) ==> (forwarded(agent_id, subject, Ok(v)) matches Some(e) && e.payload == v
            && e.agent_id == agent_id && e.source_subject == Some(subject) && e.event_type
            == "subscribed_event"@ && e.conversation_id is None && e.origin is None),
        forwarded(agent_id, subject, Ok(JsonView::Null)) is None,
        forall|m: Seq<char>| #[trigger] forwarded(agent_id, subject, Err(m)) is None,
{
}

/// A preference that a user stated becomes a fact about the agent, with its value and how
/// sure it is.
pub proof fn preference_is_recorded(
    agent_id: Seq<char>,
    key: Seq<char>,
    value: Seq<char>,
    confidence: JsonView,
)
    ensures
        ({
            let f = preference_fact_view(agent_id, key, value, confidence);
            &&& f.subject == agent_id
            &&& f.value == Some(value)
            &&& f.confidence == confidence
            &&& f.object is None
            &&& f.predicate == "user_prefers_"@ + key
            &&& contains(f.source_content, key)
            &&& contains(f.source_content, value)
        }),
{
    let s = "User preference: "@ + key + " = "@ + value;
    part_stands_in_whole("User preference: "@, key, " = "@ + value);
    assert("User preference: "@ + key + (" = "@ + value) =~= s);
    part_stands_in_whole("User preference: "@ + key + " = "@, value, Seq::empty());
    assert("User preference: "@ + key + " = "@ + value + Seq::empty() =~= s);
}

/// Every message of the history goes to the model with its role, its text, its calls and
/// its results, in its place; behind them stands what the user says now.
pub proof fn history_reaches_the_model(history: Seq<ConversationMessageView>, text: Seq<char>)
    ensures
        ({
            let m = message_list(history, text);
            let n = history.len() as int;
            &&& m.len() == n + 1
            &&& forall|i: int|
                0 <= i < n ==> (#[trigger] m[i]).role == history[i].role && m[i].content
                    == history[i].content && (history[i].tool_calls.len() > 0 ==> m[i].tool_calls
                    == Some(history[i].tool_calls)) && (history[i].tool_results.len() > 0
                    ==> m[i].tool_results == Some(history[i].tool_results)) && (
                history[i].tool_calls.len() == 0 ==> m[i].tool_calls is None) && (
                history[i].tool_results.len() == 0 ==> m[i].tool_results is None)
            &&& m[n].role == "user"@
            &&& m[n].content == Some(text)
            &&& m[n].tool_calls is None
            &&& m[n].tool_results is None
        }),
{
}

/// What the user says is the text of the event, else its message; an event without either
/// is named, with its reason.
pub proof fn user_is_heard(e: ConsciousnessEventView, t: Seq<char>)
    ensures
        e.payload.text_at("text"@) == Some(t) ==> user_text(e) == t,
        e.payload.text_at("text"@) is None && e.payload.text_at("message"@) == Some(t)
            ==> user_text(e) == t,
        e.payload.text_at("text"@) is None && e.payload.text_at("message"@) is None
            && e.payload.text_at("reason"@) == Some(t) ==> contains(user_text(e), e.event_type)
            && contains(user_text(e), t),
{
    let s = "["@ + e.event_type + "] "@ + t;
    part_stands_in_whole("["@, e.event_type, "] "@ + t);
    assert("["@ + e.event_type + ("] "@ + t) =~= s);
    part_stands_in_whole("["@ + e.event_type + "] "@, t, Seq::empty());
    assert("["@ + e.event_type + "] "@ + t + Seq::empty() =~= s);
}

/// The request that an event leads to is about that event, from its agent, in its scope.
pub proof fn request_is_about_the_event(
    agent_id: Seq<char>,
    scope: Seq<char>,
    allowed: Seq<Seq<char>>,
    event: ConsciousnessEventView,
    history: Seq<ConversationMessageView>,
    prompt: Seq<char>,
    tools: Seq<ToolSchemaView>,
)
    ensures
        ({
            let r = llm_request_view(agent_id, scope, allowed, event, history, prompt, tools);
            &&& r.agent_id == agent_id
            &&& r.scope == Some(scope)
            &&& r.system_prompt == Some(prompt)
            &&& r.messages.len() == history.len() + 1
            &&& forall|i: int|
                0 <= i < history.len() ==> (#[trigger] r.messages[i]).content == history[i].content
                    && r.messages[i].role == history[i].role
            &&& r.messages.last().content == Some(user_text(event))
            &&& forall|t: ToolSchemaView| #[trigger]
                r.tools.contains(t) <==> tools.contains(t) && (allowed.len() == 0
                    || allowed.contains(t.name) || is_builtin(t.name))
            &&& r.temperature_hundredths == Some(70u32)
            &&& r.max_tokens == Some(4096u32)
            &&& r.routing_strategy == "best-first"@
            &&& r.model_preferences == seq!["gemini-2.0-flash"@]
            &&& r.correlation_id == event.payload.text_at("correlation_id"@)
            &&& event.payload.text_at("user_id"@) is Some && event.payload.text_at(
                "user_id"@,
            )->0.len() > 0 ==> r.user_id == event.payload.text_at("user_id"@)
        }),
{
    history_reaches_the_model(history, user_text(event));
    let r = llm_request_view(agent_id, scope, allowed, event, history, prompt, tools);
    assert forall|t: ToolSchemaView| #[trigger] r.tools.contains(t) <==> tools.contains(t) && (
    allowed.len() == 0 || allowed.contains(t.name) || is_builtin(t.name)) by {
        tools_are_exact(tools, allowed, t);
    }
}

/// An agent is offered exactly the tools that its list names and the built-in ones, or all
/// where it has no list.
pub proof fn tools_are_exact(
    tools: Seq<ToolSchemaView>,
    allowed: Seq<Seq<char>>,
    t: ToolSchemaView,
)
    ensures
        allowed_tools(tools, allowed).contains(t) <==> tools.contains(t) && (allowed.len() == 0
            || allowed.contains(t.name) || is_builtin(t.name)),
    decreases tools.len(),
{
    if allowed.len() > 0 && tools.len() > 0 {
        let init = tools.drop_last();
        let last = tools.last();
        tools_are_exact(init, allowed, t);
        let kept = allowed_tools(init, allowed);
        if tools.contains(t) && t != last {
            let i = choose|i: int| 0 <= i < tools.len() && tools[i] == t;
            assert(init[i] == t);
        }
        if init.contains(t) {
            let i = choose|i: int| 0 <= i < init.len() && init[i] == t;
            assert(tools[i] == t);
        }
        assert(tools[tools.len() - 1] == last);
        if kept.contains(t) {
            let i = choose|i: int| 0 <= i < kept.len() && kept[i] == t;
            assert(kept.push(last)[i] == t);
        }
        assert(kept.push(last)[kept.len() as int] == last);
        if kept.push(last).contains(t) && t != last {
            let i = choose|i: int| 0 <= i < kept.push(last).len() && kept.push(last)[i] == t;
            assert(kept[i] == t);
        }
    }
}

/// The prompt holds everything that it is made of: the common part, who the agent is, what
/// it is for, its skills and the learned preferences.
pub proof fn prompt_tells_all(
    base: Seq<char>,
    identity: Seq<char>,
    description: Option<Seq<char>>,
    skills: Seq<Seq<char>>,
    prefs: Seq<UserPreferenceView>,
)
    ensures
        ({
            let p = join(
                prompt_parts(base, identity, description, skills) + preference_part(prefs),
                section_break(),
            );
            &&& base.len() > 0 ==> contains(p, base)
            &&& identity.len() > 0 ==> contains(p, identity)
            &&& description matches Some(d) ==> contains(p, d)
            &&& forall|i: int| 0 <= i < skills.len() ==> contains(p, #[trigger] skills[i])
            &&& forall|i: int|
                0 <= i < prefs.len() ==> contains(p, (#[trigger] prefs[i]).key) && contains(
                    p,
                    prefs[i].value,
                ) && contains(p, prefs[i].percent)
        }),
{
    let a = part_if(base.len() > 0, base);
    let b = part_if(identity.len() > 0, "## Agent Identity\n\n"@ + identity);
    let d = part_if(
        description is Some,
        "## Agent Description\n\n"@ + description.unwrap_or(Seq::empty()),
    );
    let skill_text = join(skill_entries(skills), "\n\n"@);
    let e = part_if(skills.len() > 0, "## Active Skills\n\n"@ + skill_text);
    let parts = prompt_parts(base, identity, description, skills) + preference_part(prefs);
    assert(parts =~= a + b + d + e + preference_part(prefs));
    let p = join(parts, section_break());
    if base.len() > 0 {
        assert(parts[0] == base);
        pieces_stand_in_join(parts, section_break(), 0);
    }
    if identity.len() > 0 {
        section_stands(parts, a.len() as int, "## Agent Identity\n\n"@, identity);
    }
    if description is Some {
        section_stands(
            parts,
            (a.len() + b.len()) as int,
            "## Agent Description\n\n"@,
            description->0,
        );
    }
    if skills.len() > 0 {
        section_stands(
            parts,
            (a.len() + b.len() + d.len()) as int,
            "## Active Skills\n\n"@,
            skill_text,
        );
        assert forall|i: int| 0 <= i < skills.len() implies contains(p, #[trigger] skills[i]) by {
            skill_stands(skills, i);
            contains_is_transitive(p, skill_text, skills[i]);
        }
    }
    if prefs.len() > 0 {
        let list = join(preference_entries(prefs), "\n"@);
        section_stands(
            parts,
            (a.len() + b.len() + d.len() + e.len()) as int,
            "## User Preferences\nThe following preferences have been learned from past interactions. Apply them:\n"@,
            list,
        );
        assert forall|i: int| 0 <= i < prefs.len() implies contains(
            p,
            (#[trigger] prefs[i]).key,
        ) && contains(p, prefs[i].value) && contains(p, prefs[i].percent) by {
            preference_stands(prefs, i);
            contains_is_transitive(p, list, prefs[i].key);
            contains_is_transitive(p, list, prefs[i].value);
            contains_is_transitive(p, list, prefs[i].percent);
        }
    }
}

/// What a section of a prompt says stands in the prompt.
proof fn section_stands(parts: Seq<Seq<char>>, k: int, head: Seq<char>, text: Seq<char>)
    requires
        0 <= k < parts.len(),
        parts[k] == head + text,
    ensures
        contains(join(parts, section_break()), text),
{
    pieces_stand_in_join(parts, section_break(), k);
    part_stands_in_whole(head, text, Seq::empty());
    assert(head + text + Seq::empty() =~= parts[k]);
    contains_is_transitive(join(parts, section_break()), parts[k], text);
}

/// A skill stands in the list of skills.
proof fn skill_stands(skills: Seq<Seq<char>>, i: int)
    requires
        0 <= i < skills.len(),
    ensures
        contains(join(skill_entries(skills), "\n\n"@), skills[i]),
{
    let list = join(skill_entries(skills), "\n\n"@);
    let entry = skill_entries(skills)[i];
    let head = "### Skill "@ + decimal((i + 1) as nat) + "\n"@;
    pieces_stand_in_join(skill_entries(skills), "\n\n"@, i);
    part_stands_in_whole(head, skills[i], Seq::empty());
    assert(head + skills[i] + Seq::empty() =~= entry);
    contains_is_transitive(list, entry, skills[i]);
}

/// A preference stands in the list of preferences.
proof fn preference_stands(prefs: Seq<UserPreferenceView>, i: int)
    requires
        0 <= i < prefs.len(),
    ensures
        contains(join(preference_entries(prefs), "\n"@), prefs[i].key),
        contains(join(preference_entries(prefs), "\n"@), prefs[i].value),
        contains(join(preference_entries(prefs), "\n"@), prefs[i].percent),
{
    let list = join(preference_entries(prefs), "\n"@);
    let entry = preference_entries(prefs)[i];
    let x = prefs[i];
    pieces_stand_in_join(preference_entries(prefs), "\n"@, i);
    let tail = " (confidence: "@ + x.percent + "%)"@;
    part_stands_in_whole("- "@, x.key, ": "@ + x.value + tail);
    assert("- "@ + x.key + (": "@ + x.value + tail) =~= entry);
    contains_is_transitive(list, entry, x.key);
    part_stands_in_whole("- "@ + x.key + ": "@, x.value, tail);
    contains_is_transitive(list, entry, x.value);
    let front = "- "@ + x.key + ": "@ + x.value + " (confidence: "@;
    part_stands_in_whole(front, x.percent, "%)"@);
    assert(front + x.percent + "%)"@ =~= entry);
    contains_is_transitive(list, entry, x.percent);
}

/// Events of one chat belong to one conversation and those of different chats to
/// different ones; what opens a conversation is what it is found by.
pub proof fn chats_are_conversations(
    agent_id: Seq<char>,
    scope: Seq<char>,
    a: ConsciousnessEventView,
    b: ConsciousnessEventView,
)
    requires
        a.origin is Some,
        b.origin is Some,
    ensures
        conversation_key(a) == conversation_key(b) <==> a.origin->0.platform
            == b.origin->0.platform && a.origin->0.chat_id == b.origin->0.chat_id,
        ({
            let c = new_conversation(agent_id, scope, a);
            &&& c.agent_id == agent_id
            &&& c.scope == scope
            &&& c.platform == a.origin->0.platform
            &&& c.metadata.contains_key("chat_id"@)
            &&& c.metadata["chat_id"@] == a.origin->0.chat_id
            &&& c.participants.contains("user:"@ + a.origin->0.chat_id)
            &&& c.participants.contains("agent:"@ + agent_id)
            &&& conversation_key(a) == (
                a.origin->0.platform,
                "chat_id"@,
                a.origin->0.chat_id,
            )
        }),
{
    let c = new_conversation(agent_id, scope, a);
    assert(c.participants[0] == "user:"@ + a.origin->0.chat_id);
    assert(c.participants[1] == "agent:"@ + agent_id);
}

/// Skills are searched for by what the user says, in the scope of the agent.
pub proof fn skills_suit_the_text(text: Seq<char>, scope: Seq<char>)
    ensures
        text.len() > 0 ==> (skill_query(text, scope) matches Some(q) && q.0 == text && q.2
            == scope),
        text.len() == 0 ==> skill_query(text, scope) is None,
{
}

/// The violation that counts is the first one.
pub proof fn first_violation_is_first(turns: Seq<Option<GuardrailViolation>>)
    ensures
        match first_violation(turns) {
            Some(v) => exists|i: int|
                0 <= i < turns.len() && turns[i] == Some(v) && forall|k: int|
                    0 <= k < i ==> #[trigger] turns[k] is None,
            None => forall|i: int| 0 <= i < turns.len() ==> #[trigger] turns[i] is None,
        },
    decreases turns.len(),
{
    if turns.len() > 0 {
        if turns[0] is Some {
            assert(turns[0] == first_violation(turns));
        } else {
            let rest = turns.drop_first();
            first_violation_is_first(rest);
            match first_violation(turns) {
                Some(v) => {
                    let i = choose|i: int|
                        0 <= i < rest.len() && rest[i] == Some(v) && forall|k: int|
                            0 <= k < i ==> #[trigger] rest[k] is None;
                    assert(turns[i + 1] == Some(v));
                    assert forall|k: int| 0 <= k < i + 1 implies #[trigger] turns[k] is None by {
                        if k > 0 {
                            assert(rest[k - 1] is None);
                        }
                    }
                },
                None => {
                    assert forall|i: int| 0 <= i < turns.len() implies #[trigger] turns[i] is None by {
                        if i > 0 {
                            assert(rest[i - 1] is None);
                        }
                    }
                },
            }
        }
    }
}

/// What the user said and what the model answered enter the conversation, in this order,
/// and the answer goes out to the chat that the event came from.
pub proof fn answer_is_kept_and_sent(
    id: Seq<char>,
    event: ConsciousnessEventView,
    turns: Seq<Option<GuardrailViolation>>,
    content: Seq<char>,
    o: EventOriginView,
)
    requires
        event.origin == Some(o),
        forall|i: int| 0 <= i < turns.len() ==> #[trigger] turns[i] is None,
        content.len() > 0,
        user_text(event).len() > 0,
    ensures
        ({
            let a = event_actions(id, event, turns, Some(content));
            &&& a.len() == 3
            &&& a[0] == (EventActionView::Append {
                conversation_id: id,
                role: "user"@,
                content: user_text(event),
            })
            &&& a[1] == (EventActionView::Append {
                conversation_id: id,
                role: "assistant"@,
                content,
            })
            &&& (a[2] matches EventActionView::Publish { subject, outbound } && subject
                == "channel."@ + o.platform + ".outbound"@ && outbound.platform == o.platform
                && outbound.chat_id == o.chat_id && outbound.text == content && outbound.reply_to
                == o.message_id)
        }),
{
    first_violation_is_first(turns);
}

/// When a limit is overstepped, that is what enters the conversation as the answer.
pub proof fn violation_is_told(
    id: Seq<char>,
    event: ConsciousnessEventView,
    turns: Seq<Option<GuardrailViolation>>,
    content: Option<Seq<char>>,
    v: GuardrailViolation,
)
    requires
        turns.len() > 0,
        turns[0] == Some(v),
        violation_text(v).len() > 0,
    ensures
        ({
            let a = event_actions(id, event, turns, content);
            a.len() > 0 && a.last() == (EventActionView::Append {
                conversation_id: id,
                role: "assistant"@,
                content: violation_text(v),
            })
        }),
{
    let a = event_actions(id, event, turns, content);
    let b = append_actions(id, "user"@, user_text(event));
    let c = append_actions(id, "assistant"@, violation_text(v));
    assert(a =~= b + c);
}

/// What a violation says holds the limit that was overstepped.
pub proof fn violation_names_the_limit(n: u32, s: u64)
    ensures
        contains(violation_text(GuardrailViolation::TurnLimitReached(n)), decimal(n as nat)),
        contains(violation_text(GuardrailViolation::TimeLimitReached(s)), decimal(s as nat)),
        contains(violation_text(GuardrailViolation::HitlRequired(n)), decimal(n as nat)),
{
    part_stands_in_whole("Tool call limit reached ("@, decimal(n as nat), " turns). Stopping."@);
    part_stands_in_whole("Time limit reached ("@, decimal(s as nat), "s). Stopping."@);
    part_stands_in_whole("Human approval needed after "@, decimal(n as nat), " turns."@);
}

/// An agent is loaded exactly if a file of YAML defines it and it is enabled there.
pub proof fn enabled_agents_are_loaded(files: Seq<AgentFile>, id: Seq<char>)
    ensures
        crate::table::distinct(loaded_agents(files)),
        crate::table::lookup(loaded_agents(files), id) is Some <==> exists|i: int|
            0 <= i < files.len() && yaml_extension((#[trigger] files[i]).extension@)
                && files[i].definition is Some && files[i].definition->0.enabled
                && files[i].definition->0.id@ == id,
        crate::table::lookup(loaded_agents(files), id) matches Some(d) ==> d.id@ == id && d.enabled,
    decreases files.len(),
{
    if files.len() > 0 {
        let init = files.drop_last();
        let last = files.last();
        enabled_agents_are_loaded(init, id);
        let n = files.len() - 1;
        assert(files[n] == last);
        assert forall|i: int| 0 <= i < init.len() implies init[i] == files[i] by {
        }
        if crate::table::lookup(loaded_agents(init), id) is Some {
            let i = choose|i: int|
                0 <= i < init.len() && yaml_extension((#[trigger] init[i]).extension@)
                    && init[i].definition is Some && init[i].definition->0.enabled
                    && init[i].definition->0.id@ == id;
            assert(files[i] == init[i]);
        }
        if exists|i: int|
            0 <= i < files.len() && yaml_extension((#[trigger] files[i]).extension@)
                && files[i].definition is Some && files[i].definition->0.enabled
                && files[i].definition->0.id@ == id {
            let i = choose|i: int|
                0 <= i < files.len() && yaml_extension((#[trigger] files[i]).extension@)
                    && files[i].definition is Some && files[i].definition->0.enabled
                    && files[i].definition->0.id@ == id;
            if i < n {
                assert(init[i] == files[i]);
            }
        }
        if counts(last) {
            crate::table::upsert_lookup(
                loaded_agents(init),
                last.definition->0.id@,
                last.definition->0,
                id,
            );
        }
    }
}

/// An event is answered in the conversation that it names; else one is looked for by what the
/// event is about.
pub proof fn conversation_is_planned(
    agent_id: Seq<char>,
    event: ConsciousnessEventView,
    plan: ConversationPlan,
)
    requires
        conversation_plan(agent_id, event, plan),
    ensures
        event.conversation_id is Some && event.conversation_id->0.len() > 0 ==> plan is Use
            && plan->Use_0@ == event.conversation_id->0,
        event.conversation_id is None || event.conversation_id->0.len() == 0 ==> plan is Find
            && plan->Find_0@.agent_id == agent_id && plan->Find_0@.platform == conversation_key(
            event,
        ).0 && plan->Find_0@.metadata_key == conversation_key(event).1
            && plan->Find_0@.metadata_value == conversation_key(event).2,
{
}

/// A conversation is found where the answer names it.
pub proof fn conversation_is_found(v: Json, e: String)
    ensures
        found_conversation(BusReply::Answer(v)) == v@.text_at("id"@),
        found_conversation(BusReply::Failed(e)) is None,
        found_conversation(BusReply::TimedOut) is None,
{
}

/// A built-in capability is registered under its name, with what it is for and its parameters.
pub proof fn capability_is_registered(
    tool: (Seq<char>, Seq<char>),
    schemas: Seq<ToolSchemaView>,
    i: int,
)
    requires
        0 <= i < schemas.len(),
        schemas[i].name == tool.0,
        forall|k: int| 0 <= k < i ==> (#[trigger] schemas[k]).name != tool.0,
    ensures
        registration(tool, schemas).tool_id == tool.0,
        registration(tool, schemas).name == tool.0,
        registration(tool, schemas).summary_md == tool.1,
        registration(tool, schemas).parameters == schemas[i].parameters,
        registration(tool, schemas).call_subject == "capability.call.consciousness"@,
        registration(tool, schemas).plugin_id == "consciousness"@,
        registration(tool, schemas).kind == "tool"@,
{
    first_parameters(schemas, tool.0, i);
}

/// The parameters are those of the first schema with the name.
proof fn first_parameters(schemas: Seq<ToolSchemaView>, name: Seq<char>, i: int)
    requires
        0 <= i < schemas.len(),
        schemas[i].name == name,
        forall|k: int| 0 <= k < i ==> (#[trigger] schemas[k]).name != name,
    ensures
        parameters_for(schemas, name) == schemas[i].parameters,
    decreases schemas.len(),
{
    if i > 0 {
        let rest = schemas.drop_first();
        assert(schemas[0].name != name);
        assert forall|k: int| 0 <= k < i - 1 implies (#[trigger] rest[k]).name != name by {
            assert(rest[k] == schemas[k + 1]);
        }
        first_parameters(rest, name, i - 1);
    }
}

/// A service reacts to a call by running it for the one who asked, to complete feedback by
/// storing it, and to nothing else.
pub proof fn service_reacts(
    subject: String,
    request: ToolCallRequest,
    f: AgentFeedback,
    action: ServiceAction,
)
    ensures
        reaction(
            ServiceEvent::Call { reply: Some(subject), request: Some(request) },
            action,
        ) ==> action is Run && action->reply@ == subject@ && action->step@ == builtin_step(
            request@,
        ),
        reaction(ServiceEvent::Reload, action) ==> action is Reload,
        f.preference_key is Some && f.preference_value is Some && reaction(
            ServiceEvent::Feedback(Some(f)),
            action,
        ) ==> action is Store && action->Store_0@ == preference_fact_view(
            f.agent_id@,
            (f.preference_key->0)@,
            (f.preference_value->0)@,
            f.confidence@,
        ),
        reaction(ServiceEvent::Feedback(None), action) ==> action is Ignore,
        reaction(ServiceEvent::Call { reply: None, request: Some(request) }, action)
            ==> action is Ignore,
{
}

/// An agent has the identity that the last enabled file that defines it gives.
pub proof fn last_identity_counts(files: Seq<AgentFile>, f: AgentFile, agent_id: Seq<char>)
    ensures
        ({
            let after = loaded_identity(files.push(f), agent_id);
            let named = (f.extension@ == "yaml"@ || f.extension@ == "yml"@) && f.definition is Some
                && f.definition->0.enabled && f.definition->0.id@ == agent_id;
            &&& named && f.identity is Some ==> after == Some((f.identity->0)@)
            &&& named ==> after is Some
            &&& !named ==> after == loaded_identity(files, agent_id)
        }),
        loaded_identity(Seq::empty(), agent_id) is None,
{
    assert(files.push(f).drop_last() =~= files);
}

/// A refused call says which capability refused it and why.
pub proof fn refusal_names_the_capability(tool_id: Seq<char>, detail: Seq<char>)
    ensures
        error_reply(tool_id, detail).tool_id == tool_id,
        error_reply(tool_id, detail).is_error,
        error_reply(tool_id, detail).result.text_at("error"@) == Some(detail),
        refusal(tool_id, detail) is Reply,
        refusal(tool_id, detail)->Reply_0.tool_id == tool_id,
        refusal(tool_id, detail)->Reply_0.is_error,
        refusal(tool_id, detail)->Reply_0.result.text_at("error"@) == Some(
            "Invalid arguments: "@ + detail,
        ),
{
}

/// What the brain answered is the result; a failure and a timeout are errors.
pub proof fn brain_answer_is_the_result(v: Json, e: String)
    ensures
        brain_query_reply(BusReply::Answer(v)).result == v@,
        !brain_query_reply(BusReply::Answer(v)).is_error,
        brain_query_reply(BusReply::Answer(v)).tool_id == "brain-query"@,
        brain_query_reply(BusReply::Failed(e)).is_error,
        brain_query_reply(BusReply::Failed(e)).result.text_at("error"@) == Some(e@),
        brain_query_reply(BusReply::TimedOut).is_error,
{
}

/// An answer goes back to where the event came from, as an answer to its message.
pub proof fn answer_goes_back(origin: EventOriginView, text: Seq<char>)
    ensures
        ({
            let a = outbound_view(origin, text);
            &&& a is Publish
            &&& a->subject == "channel."@ + origin.platform + ".outbound"@
            &&& a->outbound.platform == origin.platform
            &&& a->outbound.chat_id == origin.chat_id
            &&& a->outbound.text == text
            &&& a->outbound.reply_to == origin.message_id
            &&& a->outbound.format == "markdown"@
        }),
{
}

/// What failed is told, and a request that was not answered in time is told as such.
pub proof fn attempts_are_told(e: String)
    ensures
        attempt_error(AttemptOutcome::Failed(e)) == "NATS request failed: "@ + e@,
{
}

/// A service that holds what its files say has their enabled agents, and the identity of each.
pub proof fn files_are_held(s: ConsciousnessService, files: Seq<AgentFile>, id: Seq<char>)
    requires
        s.holds(files),
    ensures
        s.agents@ == loaded_agents(files),
        view_opt(s.identity_prompts.value(id)) == loaded_identity(files, id),
{
}

} // verus!
