//! The events and records that the parts of the platform exchange.
use crate::duplicate::{
    duplicate_all, duplicate_all_opt, duplicate_opt, views_opt, Duplicate, TextMap,
};
use crate::json::{Json, JsonView};
use crate::text::{view_opt, views};
use vstd::prelude::*;

verus! {

/// A tool call that a model asks for.
pub struct UnifiedToolCall {
    pub id: String,
    pub name: String,
    pub arguments: Json,
}

/// The mathematical content of a [`UnifiedToolCall`].
pub struct UnifiedToolCallView {
    pub id: Seq<char>,
    pub name: Seq<char>,
    pub arguments: JsonView,
}

impl View for UnifiedToolCall {
    type V = UnifiedToolCallView;

    open spec fn view(&self) -> UnifiedToolCallView {
        UnifiedToolCallView {
            id: self.id@,
            name: self.name@,
            arguments: self.arguments@,
        }
    }
}

impl Duplicate for UnifiedToolCall {
    fn copy(&self) -> (r: UnifiedToolCall) {
        UnifiedToolCall {
            id: self.id.clone(),
            name: self.name.clone(),
            arguments: self.arguments.copy(),
        }
    }
}

/// What a tool gave back for a call.
pub struct UnifiedToolResult {
    pub tool_call_id: String,
    pub content: String,
    pub is_error: bool,
}

/// The mathematical content of a [`UnifiedToolResult`].
pub struct UnifiedToolResultView {
    pub tool_call_id: Seq<char>,
    pub content: Seq<char>,
    pub is_error: bool,
}

impl View for UnifiedToolResult {
    type V = UnifiedToolResultView;

    open spec fn view(&self) -> UnifiedToolResultView {
        UnifiedToolResultView {
            tool_call_id: self.tool_call_id@,
            content: self.content@,
            is_error: self.is_error,
        }
    }
}

impl Duplicate for UnifiedToolResult {
    fn copy(&self) -> (r: UnifiedToolResult) {
        UnifiedToolResult {
            tool_call_id: self.tool_call_id.clone(),
            content: self.content.clone(),
            is_error: self.is_error,
        }
    }
}

/// A message of a conversation, in the form that every provider understands.
pub struct UnifiedMessage {
    pub role: String,
    pub content: Option<String>,
    pub tool_calls: Option<Vec<UnifiedToolCall>>,
    pub tool_results: Option<Vec<UnifiedToolResult>>,
}

/// The mathematical content of a [`UnifiedMessage`].
pub struct UnifiedMessageView {
    pub role: Seq<char>,
    pub content: Option<Seq<char>>,
    pub tool_calls: Option<Seq<UnifiedToolCallView>>,
    pub tool_results: Option<Seq<UnifiedToolResultView>>,
}

impl View for UnifiedMessage {
    type V = UnifiedMessageView;

    open spec fn view(&self) -> UnifiedMessageView {
        UnifiedMessageView {
            role: self.role@,
            content: view_opt(self.content),
            tool_calls: views_opt(self.tool_calls),
            tool_results: views_opt(self.tool_results),
        }
    }
}

impl Duplicate for UnifiedMessage {
    fn copy(&self) -> (r: UnifiedMessage) {
        UnifiedMessage {
            role: self.role.clone(),
            content: duplicate_opt(&self.content),
            tool_calls: duplicate_all_opt(&self.tool_calls),
            tool_results: duplicate_all_opt(&self.tool_results),
        }
    }
}

/// A tool that a model may call.
pub struct ToolSchema {
    pub name: String,
    pub description: String,
    pub parameters: Json,
}

/// The mathematical content of a [`ToolSchema`].
pub struct ToolSchemaView {
    pub name: Seq<char>,
    pub description: Seq<char>,
    pub parameters: JsonView,
}

impl View for ToolSchema {
    type V = ToolSchemaView;

    open spec fn view(&self) -> ToolSchemaView {
        ToolSchemaView {
            name: self.name@,
            description: self.description@,
            parameters: self.parameters@,
        }
    }
}

impl Duplicate for ToolSchema {
    fn copy(&self) -> (r: ToolSchema) {
        ToolSchema {
            name: self.name.clone(),
            description: self.description.clone(),
            parameters: self.parameters.copy(),
        }
    }
}

/// A request to run a tool.
pub struct ToolCallRequest {
    pub tool_id: String,
    pub plugin_id: String,
    pub arguments: Json,
    pub correlation_id: Option<String>,
}

/// The mathematical content of a [`ToolCallRequest`].
pub struct ToolCallRequestView {
    pub tool_id: Seq<char>,
    pub plugin_id: Seq<char>,
    pub arguments: JsonView,
    pub correlation_id: Option<Seq<char>>,
}

impl View for ToolCallRequest {
    type V = ToolCallRequestView;

    open spec fn view(&self) -> ToolCallRequestView {
        ToolCallRequestView {
            tool_id: self.tool_id@,
            plugin_id: self.plugin_id@,
            arguments: self.arguments@,
            correlation_id: view_opt(self.correlation_id),
        }
    }
}

impl Duplicate for ToolCallRequest {
    fn copy(&self) -> (r: ToolCallRequest) {
        ToolCallRequest {
            tool_id: self.tool_id.clone(),
            plugin_id: self.plugin_id.clone(),
            arguments: self.arguments.copy(),
            correlation_id: duplicate_opt(&self.correlation_id),
        }
    }
}

/// The reply to a tool call.
pub struct ToolCallResponse {
    pub tool_id: String,
    pub result: Json,
    pub is_error: bool,
}

/// The mathematical content of a [`ToolCallResponse`].
pub struct ToolCallResponseView {
    pub tool_id: Seq<char>,
    pub result: JsonView,
    pub is_error: bool,
}

impl View for ToolCallResponse {
    type V = ToolCallResponseView;

    open spec fn view(&self) -> ToolCallResponseView {
        ToolCallResponseView {
            tool_id: self.tool_id@,
            result: self.result@,
            is_error: self.is_error,
        }
    }
}

impl Duplicate for ToolCallResponse {
    fn copy(&self) -> (r: ToolCallResponse) {
        ToolCallResponse {
            tool_id: self.tool_id.clone(),
            result: self.result.copy(),
            is_error: self.is_error,
        }
    }
}

/// The announcement of a tool.
pub struct ToolRegister {
    pub tool_id: String,
    pub plugin_id: String,
    pub name: String,
    pub summary_md: String,
    pub manual_md: String,
    pub parameters: Json,
    pub call_subject: String,
    pub kind: String,
}

/// The mathematical content of a [`ToolRegister`].
pub struct ToolRegisterView {
    pub tool_id: Seq<char>,
    pub plugin_id: Seq<char>,
    pub name: Seq<char>,
    pub summary_md: Seq<char>,
    pub manual_md: Seq<char>,
    pub parameters: JsonView,
    pub call_subject: Seq<char>,
    pub kind: Seq<char>,
}

impl View for ToolRegister {
    type V = ToolRegisterView;

    open spec fn view(&self) -> ToolRegisterView {
        ToolRegisterView {
            tool_id: self.tool_id@,
            plugin_id: self.plugin_id@,
            name: self.name@,
            summary_md: self.summary_md@,
            manual_md: self.manual_md@,
            parameters: self.parameters@,
            call_subject: self.call_subject@,
            kind: self.kind@,
        }
    }
}

impl Duplicate for ToolRegister {
    fn copy(&self) -> (r: ToolRegister) {
        ToolRegister {
            tool_id: self.tool_id.clone(),
            plugin_id: self.plugin_id.clone(),
            name: self.name.clone(),
            summary_md: self.summary_md.clone(),
            manual_md: self.manual_md.clone(),
            parameters: self.parameters.copy(),
            call_subject: self.call_subject.clone(),
            kind: self.kind.clone(),
        }
    }
}

/// The announcement of a plugin.
pub struct PluginRegister {
    pub id: String,
    pub name: String,
    pub version: String,
    pub description: String,
    pub consumes: Vec<String>,
    pub produces: Vec<String>,
    pub health_subject: String,
    pub consumed_event_types: Vec<String>,
    pub produced_event_types: Vec<String>,
    pub config_schema: Option<Json>,
}

/// The mathematical content of a [`PluginRegister`].
pub struct PluginRegisterView {
    pub id: Seq<char>,
    pub name: Seq<char>,
    pub version: Seq<char>,
    pub description: Seq<char>,
    pub consumes: Seq<Seq<char>>,
    pub produces: Seq<Seq<char>>,
    pub health_subject: Seq<char>,
    pub consumed_event_types: Seq<Seq<char>>,
    pub produced_event_types: Seq<Seq<char>>,
    pub config_schema: Option<JsonView>,
}

impl View for PluginRegister {
    type V = PluginRegisterView;

    open spec fn view(&self) -> PluginRegisterView {
        PluginRegisterView {
            id: self.id@,
            name: self.name@,
            version: self.version@,
            description: self.description@,
            consumes: views(self.consumes@),
            produces: views(self.produces@),
            health_subject: self.health_subject@,
            consumed_event_types: views(self.consumed_event_types@),
            produced_event_types: views(self.produced_event_types@),
            config_schema: view_opt(self.config_schema),
        }
    }
}

impl Duplicate for PluginRegister {
    fn copy(&self) -> (r: PluginRegister) {
        PluginRegister {
            id: self.id.clone(),
            name: self.name.clone(),
            version: self.version.clone(),
            description: self.description.clone(),
            consumes: duplicate_all(&self.consumes),
            produces: duplicate_all(&self.produces),
            health_subject: self.health_subject.clone(),
            consumed_event_types: duplicate_all(&self.consumed_event_types),
            produced_event_types: duplicate_all(&self.produced_event_types),
            config_schema: duplicate_opt(&self.config_schema),
        }
    }
}

/// Where a message came from.
pub struct EventOrigin {
    pub platform: String,
    pub chat_id: String,
    pub message_id: Option<String>,
}

/// The mathematical content of a [`EventOrigin`].
pub struct EventOriginView {
    pub platform: Seq<char>,
    pub chat_id: Seq<char>,
    pub message_id: Option<Seq<char>>,
}

impl View for EventOrigin {
    type V = EventOriginView;

    open spec fn view(&self) -> EventOriginView {
        EventOriginView {
            platform: self.platform@,
            chat_id: self.chat_id@,
            message_id: view_opt(self.message_id),
        }
    }
}

impl Duplicate for EventOrigin {
    fn copy(&self) -> (r: EventOrigin) {
        EventOrigin {
            platform: self.platform.clone(),
            chat_id: self.chat_id.clone(),
            message_id: duplicate_opt(&self.message_id),
        }
    }
}

/// A message that came in on a channel.
pub struct ChannelInbound {
    pub platform: String,
    pub user_id: String,
    pub chat_id: String,
    pub text: String,
    pub reply_to: Option<String>,
    pub attachments: Vec<Json>,
    pub metadata: TextMap,
}

/// The mathematical content of a [`ChannelInbound`].
pub struct ChannelInboundView {
    pub platform: Seq<char>,
    pub user_id: Seq<char>,
    pub chat_id: Seq<char>,
    pub text: Seq<char>,
    pub reply_to: Option<Seq<char>>,
    pub attachments: Seq<JsonView>,
    pub metadata: Map<Seq<char>, Seq<char>>,
}

impl View for ChannelInbound {
    type V = ChannelInboundView;

    open spec fn view(&self) -> ChannelInboundView {
        ChannelInboundView {
            platform: self.platform@,
            user_id: self.user_id@,
            chat_id: self.chat_id@,
            text: self.text@,
            reply_to: view_opt(self.reply_to),
            attachments: views(self.attachments@),
            metadata: self.metadata@,
        }
    }
}

impl Duplicate for ChannelInbound {
    fn copy(&self) -> (r: ChannelInbound) {
        ChannelInbound {
            platform: self.platform.clone(),
            user_id: self.user_id.clone(),
            chat_id: self.chat_id.clone(),
            text: self.text.clone(),
            reply_to: duplicate_opt(&self.reply_to),
            attachments: duplicate_all(&self.attachments),
            metadata: self.metadata.copy(),
        }
    }
}

/// An action attached to an outgoing message.
pub struct ChannelAction {
    pub label: String,
    pub action_type: String,
    pub value: String,
}

/// The mathematical content of a [`ChannelAction`].
pub struct ChannelActionView {
    pub label: Seq<char>,
    pub action_type: Seq<char>,
    pub value: Seq<char>,
}

impl View for ChannelAction {
    type V = ChannelActionView;

    open spec fn view(&self) -> ChannelActionView {
        ChannelActionView {
            label: self.label@,
            action_type: self.action_type@,
            value: self.value@,
        }
    }
}

impl Duplicate for ChannelAction {
    fn copy(&self) -> (r: ChannelAction) {
        ChannelAction {
            label: self.label.clone(),
            action_type: self.action_type.clone(),
            value: self.value.clone(),
        }
    }
}

/// A message that goes out on a channel.
pub struct ChannelOutbound {
    pub platform: String,
    pub chat_id: String,
    pub text: String,
    pub format: String,
    pub reply_to: Option<String>,
    pub actions: Vec<ChannelAction>,
}

/// The mathematical content of a [`ChannelOutbound`].
pub struct ChannelOutboundView {
    pub platform: Seq<char>,
    pub chat_id: Seq<char>,
    pub text: Seq<char>,
    pub format: Seq<char>,
    pub reply_to: Option<Seq<char>>,
    pub actions: Seq<ChannelActionView>,
}

impl View for ChannelOutbound {
    type V = ChannelOutboundView;

    open spec fn view(&self) -> ChannelOutboundView {
        ChannelOutboundView {
            platform: self.platform@,
            chat_id: self.chat_id@,
            text: self.text@,
            format: self.format@,
            reply_to: view_opt(self.reply_to),
            actions: views(self.actions@),
        }
    }
}

impl Duplicate for ChannelOutbound {
    fn copy(&self) -> (r: ChannelOutbound) {
        ChannelOutbound {
            platform: self.platform.clone(),
            chat_id: self.chat_id.clone(),
            text: self.text.clone(),
            format: self.format.clone(),
            reply_to: duplicate_opt(&self.reply_to),
            actions: duplicate_all(&self.actions),
        }
    }
}

/// A fact to be stored. The confidence is a JSON number.
pub struct FactUpsertRequest {
    pub subject: String,
    pub predicate: String,
    pub object: Option<String>,
    pub value: Option<String>,
    pub confidence: Json,
    pub source_content: String,
}

/// The mathematical content of a [`FactUpsertRequest`].
pub struct FactUpsertRequestView {
    pub subject: Seq<char>,
    pub predicate: Seq<char>,
    pub object: Option<Seq<char>>,
    pub value: Option<Seq<char>>,
    pub confidence: JsonView,
    pub source_content: Seq<char>,
}

impl View for FactUpsertRequest {
    type V = FactUpsertRequestView;

    open spec fn view(&self) -> FactUpsertRequestView {
        FactUpsertRequestView {
            subject: self.subject@,
            predicate: self.predicate@,
            object: view_opt(self.object),
            value: view_opt(self.value),
            confidence: self.confidence@,
            source_content: self.source_content@,
        }
    }
}

impl Duplicate for FactUpsertRequest {
    fn copy(&self) -> (r: FactUpsertRequest) {
        FactUpsertRequest {
            subject: self.subject.clone(),
            predicate: self.predicate.clone(),
            object: duplicate_opt(&self.object),
            value: duplicate_opt(&self.value),
            confidence: self.confidence.copy(),
            source_content: self.source_content.clone(),
        }
    }
}

/// A payload and the subject it is published under, with the envelope data.
pub struct Publication {
    pub subject: String,
    pub source: String,
    pub correlation_id: Option<String>,
    pub scope: Option<String>,
    pub payload: Json,
}

/// The mathematical content of a [`Publication`].
pub struct PublicationView {
    pub subject: Seq<char>,
    pub source: Seq<char>,
    pub correlation_id: Option<Seq<char>>,
    pub scope: Option<Seq<char>>,
    pub payload: JsonView,
}

impl View for Publication {
    type V = PublicationView;

    open spec fn view(&self) -> PublicationView {
        PublicationView {
            subject: self.subject@,
            source: self.source@,
            correlation_id: view_opt(self.correlation_id),
            scope: view_opt(self.scope),
            payload: self.payload@,
        }
    }
}

impl Duplicate for Publication {
    fn copy(&self) -> (r: Publication) {
        Publication {
            subject: self.subject.clone(),
            source: self.source.clone(),
            correlation_id: duplicate_opt(&self.correlation_id),
            scope: duplicate_opt(&self.scope),
            payload: self.payload.copy(),
        }
    }
}


/// How many tokens a model used.
#[derive(Clone, Copy)]
pub struct TokenUsage {
    pub prompt_tokens: u32,
    pub completion_tokens: u32,
    pub total_tokens: u32,
}

/// A tool call that a provider reports as still open.
pub struct LlmToolCall {
    pub function_name: String,
    pub arguments: Json,
}

/// The mathematical content of a [`LlmToolCall`].
pub struct LlmToolCallView {
    pub function_name: Seq<char>,
    pub arguments: JsonView,
}

impl View for LlmToolCall {
    type V = LlmToolCallView;

    open spec fn view(&self) -> LlmToolCallView {
        LlmToolCallView {
            function_name: self.function_name@,
            arguments: self.arguments@,
        }
    }
}

impl Duplicate for LlmToolCall {
    fn copy(&self) -> (r: LlmToolCall) {
        LlmToolCall {
            function_name: self.function_name.clone(),
            arguments: self.arguments.copy(),
        }
    }
}

/// What a provider answers.
pub struct LlmResponse {
    pub agent_id: String,
    pub content: Option<String>,
    pub tool_calls: Option<Vec<LlmToolCall>>,
    pub model_used: String,
    pub provider: String,
    pub tokens: TokenUsage,
    pub duration_ms: u64,
    pub finish_reason: String,
    pub tool_rounds: u32,
}

/// The mathematical content of a [`LlmResponse`].
pub struct LlmResponseView {
    pub agent_id: Seq<char>,
    pub content: Option<Seq<char>>,
    pub tool_calls: Option<Seq<LlmToolCallView>>,
    pub model_used: Seq<char>,
    pub provider: Seq<char>,
    pub tokens: TokenUsage,
    pub duration_ms: u64,
    pub finish_reason: Seq<char>,
    pub tool_rounds: u32,
}

impl View for LlmResponse {
    type V = LlmResponseView;

    open spec fn view(&self) -> LlmResponseView {
        LlmResponseView {
            agent_id: self.agent_id@,
            content: view_opt(self.content),
            tool_calls: views_opt(self.tool_calls),
            model_used: self.model_used@,
            provider: self.provider@,
            tokens: self.tokens,
            duration_ms: self.duration_ms,
            finish_reason: self.finish_reason@,
            tool_rounds: self.tool_rounds,
        }
    }
}

impl Duplicate for LlmResponse {
    fn copy(&self) -> (r: LlmResponse) {
        LlmResponse {
            agent_id: self.agent_id.clone(),
            content: duplicate_opt(&self.content),
            tool_calls: duplicate_all_opt(&self.tool_calls),
            model_used: self.model_used.clone(),
            provider: self.provider.clone(),
            tokens: self.tokens,
            duration_ms: self.duration_ms,
            finish_reason: self.finish_reason.clone(),
            tool_rounds: self.tool_rounds,
        }
    }
}

/// Something an agent is to think about.
pub struct ConsciousnessEvent {
    pub agent_id: String,
    pub event_type: String,
    pub source_subject: Option<String>,
    pub conversation_id: Option<String>,
    pub payload: Json,
    pub origin: Option<EventOrigin>,
}

/// The mathematical content of a [`ConsciousnessEvent`].
pub struct ConsciousnessEventView {
    pub agent_id: Seq<char>,
    pub event_type: Seq<char>,
    pub source_subject: Option<Seq<char>>,
    pub conversation_id: Option<Seq<char>>,
    pub payload: JsonView,
    pub origin: Option<EventOriginView>,
}

impl View for ConsciousnessEvent {
    type V = ConsciousnessEventView;

    open spec fn view(&self) -> ConsciousnessEventView {
        ConsciousnessEventView {
            agent_id: self.agent_id@,
            event_type: self.event_type@,
            source_subject: view_opt(self.source_subject),
            conversation_id: view_opt(self.conversation_id),
            payload: self.payload@,
            origin: view_opt(self.origin),
        }
    }
}

impl Duplicate for ConsciousnessEvent {
    fn copy(&self) -> (r: ConsciousnessEvent) {
        ConsciousnessEvent {
            agent_id: self.agent_id.clone(),
            event_type: self.event_type.clone(),
            source_subject: duplicate_opt(&self.source_subject),
            conversation_id: duplicate_opt(&self.conversation_id),
            payload: self.payload.copy(),
            origin: duplicate_opt(&self.origin),
        }
    }
}

/// How a request over the bus came out.
pub enum Outcome<T> {
    /// There was an answer.
    Answer(T),
    /// It failed, and why.
    Failed(String),
    /// Nothing came in time.
    TimedOut,
}

/// How a request for a document came out.
pub type BusReply = Outcome<Json>;

/// What kind of feedback a message gives.
#[derive(Clone, Copy, PartialEq, Eq, Structural, Debug)]
pub enum FeedbackType {
    Correction,
    Confirmation,
    Preference,
}

/// Feedback on an agent. The confidence is a JSON number.
pub struct AgentFeedback {
    pub agent_id: String,
    pub conversation_id: Option<String>,
    pub message_id: Option<String>,
    pub feedback_type: FeedbackType,
    pub content: String,
    pub prior_context: Option<String>,
    pub preference_key: Option<String>,
    pub preference_value: Option<String>,
    pub confidence: Json,
}

/// The mathematical content of a [`AgentFeedback`].
pub struct AgentFeedbackView {
    pub agent_id: Seq<char>,
    pub conversation_id: Option<Seq<char>>,
    pub message_id: Option<Seq<char>>,
    pub feedback_type: FeedbackType,
    pub content: Seq<char>,
    pub prior_context: Option<Seq<char>>,
    pub preference_key: Option<Seq<char>>,
    pub preference_value: Option<Seq<char>>,
    pub confidence: JsonView,
}

impl View for AgentFeedback {
    type V = AgentFeedbackView;

    open spec fn view(&self) -> AgentFeedbackView {
        AgentFeedbackView {
            agent_id: self.agent_id@,
            conversation_id: view_opt(self.conversation_id),
            message_id: view_opt(self.message_id),
            feedback_type: self.feedback_type,
            content: self.content@,
            prior_context: view_opt(self.prior_context),
            preference_key: view_opt(self.preference_key),
            preference_value: view_opt(self.preference_value),
            confidence: self.confidence@,
        }
    }
}

impl Duplicate for AgentFeedback {
    fn copy(&self) -> (r: AgentFeedback) {
        AgentFeedback {
            agent_id: self.agent_id.clone(),
            conversation_id: duplicate_opt(&self.conversation_id),
            message_id: duplicate_opt(&self.message_id),
            feedback_type: self.feedback_type,
            content: self.content.clone(),
            prior_context: duplicate_opt(&self.prior_context),
            preference_key: duplicate_opt(&self.preference_key),
            preference_value: duplicate_opt(&self.preference_value),
            confidence: self.confidence.copy(),
        }
    }
}

} // verus!
