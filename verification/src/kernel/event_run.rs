//! The run of one event of an agent, from the search for its conversation to the
//! answer.
use crate::events::{
    BusReply, ConsciousnessEvent, LlmResponse, Outcome, ToolSchema,
};
use crate::kernel::agent::AgentDefinition;
use crate::kernel::consciousness::{
    build_full_system_prompt_with_preferences, build_llm_request, conversation_found,
    conversation_key, create_conversation, event_actions, extract_user_text, finish_event,
    found_conversation, llm_request_view, new_conversation, plan_conversation, plan_skill_search,
    preference_part, prompt_parts, provider_subject, section_break, skill_query, user_text,
    ConversationCreateRequest, ConversationFindRequest, ConversationFindRequestView,
    ConversationMessage, ConversationPlan, EventAction, GuardrailViolation, UnifiedLlmRequest,
    UserPreference, HISTORY_LIMIT,
};
use crate::text::{join, own, view_opt, views};
use vstd::prelude::*;

verus! {

/// What a run needs done next.
pub enum EventStep {
    /// Search for the conversation.
    Find(ConversationFindRequest),
    /// Open a conversation.
    Create(ConversationCreateRequest),
    /// Read the last messages of the conversation.
    LoadHistory { conversation_id: String, limit: u32 },
    /// Search for skills.
    SearchSkills { query: String, limit: u32, scope: String },
    /// Ask for the preferences of the agent's users.
    AskPreferences { agent_id: String },
    /// Ask the model.
    Dispatch { subject: String, request: UnifiedLlmRequest },
    /// Do these things in order; the run is over.
    Finish(Vec<EventAction>),
    /// The run has failed.
    Fail(String),
}

/// A run.
pub struct EventRun {
    pub agent_id: String,
    pub agent: AgentDefinition,
    pub event: ConsciousnessEvent,
    pub system_prompt: String,
    pub identity: String,
    pub tools: Vec<ToolSchema>,
    /// The model provider, where one is set.
    pub provider: Option<String>,
    /// Empty until it is known.
    pub conversation_id: String,
    pub history: Vec<ConversationMessage>,
    pub skills: Vec<String>,
}

impl EventRun {
    /// The event names its conversation.
    pub open spec fn names_conversation(self) -> bool {
        self.event@.conversation_id matches Some(id) && id.len() > 0
    }

    /// What was given at the start is the same in another state.
    pub open spec fn same_task(self, other: EventRun) -> bool {
        &&& self.agent_id == other.agent_id
        &&& self.agent == other.agent
        &&& self.event == other.event
        &&& self.system_prompt == other.system_prompt
        &&& self.identity == other.identity
        &&& self.tools == other.tools
        &&& self.provider == other.provider
    }

    /// The step that reads the last messages of a conversation.
    pub open spec fn loads_history(step: EventStep, id: Seq<char>) -> bool {
        step matches EventStep::LoadHistory { conversation_id, limit } && conversation_id@ == id
            && limit == HISTORY_LIMIT
    }

    /// The step that reads the last messages of the conversation.
    fn load_history(&self) -> (r: EventStep)
        ensures
            Self::loads_history(r, self.conversation_id@),
    {
        EventStep::LoadHistory {
            conversation_id: self.conversation_id.clone(),
            limit: HISTORY_LIMIT,
        }
    }

    /// Begins: a conversation that the event names is used, otherwise it is
    /// searched for.
    pub fn start(&mut self) -> (r: EventStep)
        ensures
            final(self).same_task(*old(self)),
            final(self).history == old(self).history,
            final(self).skills == old(self).skills,
            if old(self).names_conversation() {
                Some(final(self).conversation_id@) == old(self).event@.conversation_id
                    && Self::loads_history(r, final(self).conversation_id@)
            } else {
                final(self).conversation_id == old(self).conversation_id && (r matches EventStep::Find(
                    q,
                ) && q@ == (ConversationFindRequestView {
                    agent_id: old(self).agent_id@,
                    platform: conversation_key(old(self).event@).0,
                    metadata_key: conversation_key(old(self).event@).1,
                    metadata_value: conversation_key(old(self).event@).2,
                }))
            },
    {
        match plan_conversation(&self.agent_id, &self.event) {
            ConversationPlan::Use(id) => {
                self.conversation_id = id;
                self.load_history()
            },
            ConversationPlan::Find(q) => EventStep::Find(q),
        }
    }

    /// After the search: one that found nothing, or failed, is followed by a new
    /// conversation.
    pub fn on_found(&mut self, outcome: &BusReply) -> (r: EventStep)
        ensures
            final(self).same_task(*old(self)),
            final(self).history == old(self).history,
            final(self).skills == old(self).skills,
            match found_conversation(*outcome) {
                Some(id) => final(self).conversation_id@ == id && Self::loads_history(r, id),
                None => final(self).conversation_id == old(self).conversation_id && (
                r matches EventStep::Create(q) && q@ == new_conversation(
                    old(self).agent_id@,
                    old(self).agent.scope@,
                    old(self).event@,
                )),
            },
    {
        match conversation_found(outcome) {
            Some(id) => {
                self.conversation_id = id;
                self.load_history()
            },
            None => EventStep::Create(
                create_conversation(&self.agent_id, &self.agent.scope, &self.event),
            ),
        }
    }

    /// After a conversation was to be opened: without one the run fails.
    pub fn on_created(&mut self, outcome: Outcome<String>) -> (r: EventStep)
        ensures
            final(self).same_task(*old(self)),
            final(self).history == old(self).history,
            final(self).skills == old(self).skills,
            match outcome {
                Outcome::Answer(id) => final(self).conversation_id@ == id@ && Self::loads_history(
                    r,
                    id@,
                ),
                Outcome::Failed(_) => final(self).conversation_id == old(self).conversation_id && (
                r matches EventStep::Fail(e) && e@ == "conversation.create failed"@),
                Outcome::TimedOut => final(self).conversation_id == old(self).conversation_id && (
                r matches EventStep::Fail(e) && e@ == "conversation.create timed out"@),
            },
    {
        match outcome {
            Outcome::Answer(id) => {
                self.conversation_id = id;
                self.load_history()
            },
            Outcome::Failed(_) => EventStep::Fail(own("conversation.create failed")),
            Outcome::TimedOut => EventStep::Fail(own("conversation.create timed out")),
        }
    }

    /// After the messages were read: skills are searched for, if there is a text
    /// to go by.
    pub fn on_history(&mut self, history: Vec<ConversationMessage>) -> (r: EventStep)
        ensures
            final(self).same_task(*old(self)),
            final(self).conversation_id == old(self).conversation_id,
            final(self).history == history,
            final(self).skills == old(self).skills,
            match skill_query(user_text(old(self).event@), old(self).agent.scope@) {
                Some(q) => r matches EventStep::SearchSkills { query, limit, scope } && (
                    query@,
                    limit,
                    scope@,
                ) == q,
                None => r matches EventStep::AskPreferences { agent_id } && agent_id@ == old(self).agent_id@,
            },
    {
        self.history = history;
        let text = extract_user_text(&self.event);
        match plan_skill_search(&text, &self.agent.scope) {
            Some((query, limit, scope)) => EventStep::SearchSkills { query, limit, scope },
            None => EventStep::AskPreferences { agent_id: self.agent_id.clone() },
        }
    }

    /// After the search for skills: a failed one found none.
    pub fn on_skills(&mut self, skills: Vec<String>) -> (r: EventStep)
        ensures
            final(self).same_task(*old(self)),
            final(self).conversation_id == old(self).conversation_id,
            final(self).history == old(self).history,
            final(self).skills == skills,
            r matches EventStep::AskPreferences { agent_id } && agent_id@ == old(self).agent_id@,
    {
        self.skills = skills;
        EventStep::AskPreferences { agent_id: self.agent_id.clone() }
    }

    /// With the preferences everything is there to ask the model.
    pub fn on_preferences(&self, preferences: &Vec<UserPreference>) -> (r: EventStep)
        ensures
            r matches EventStep::Dispatch { subject, request } && subject@ == "llm.provider."@
                + match self.provider {
                Some(p) => p@,
                None => "google"@,
            } && request@ == llm_request_view(
                self.agent_id@,
                self.agent.scope@,
                views(self.agent.tools@),
                self.event@,
                views(self.history@),
                join(
                    prompt_parts(
                        self.system_prompt@,
                        self.identity@,
                        view_opt(self.agent.description),
                        views(self.skills@),
                    ) + preference_part(views(preferences@)),
                    section_break(),
                ),
                views(self.tools@),
            ),
            r matches EventStep::Dispatch { request, .. } && request.messages@.len()
                == self.history@.len() + 1 && forall|i: int|
                0 <= i < self.history@.len() ==> (#[trigger] request.messages@[i]).role@
                    == self.history@[i].role@ && view_opt(request.messages@[i].content) == view_opt(
                    self.history@[i].content,
                ),
    {
        let prompt = build_full_system_prompt_with_preferences(
            &self.system_prompt,
            &self.agent.description,
            &self.identity,
            &self.skills,
            preferences,
        );
        EventStep::Dispatch {
            subject: provider_subject(&self.provider),
            request: build_llm_request(
                &self.agent,
                &self.agent_id,
                &self.event,
                &self.history,
                &prompt,
                &self.tools,
            ),
        }
    }

    /// After the model was asked: without an answer the run fails. `turns` holds
    /// what the guardrails said to each tool call of the answer.
    pub fn on_answer(
        &self,
        outcome: &Outcome<LlmResponse>,
        turns: &Vec<Option<GuardrailViolation>>,
    ) -> (r: EventStep)
        ensures
            match *outcome {
                Outcome::Answer(x) => r matches EventStep::Finish(v) && views(v@) == event_actions(
                    self.conversation_id@,
                    self.event@,
                    turns@,
                    view_opt(x.content),
                ),
                Outcome::Failed(_) => r matches EventStep::Fail(e) && e@ == "LLM request failed"@,
                Outcome::TimedOut => r matches EventStep::Fail(e) && e@ == "LLM request timed out"@,
            },
    {
        match outcome {
            Outcome::Answer(x) => EventStep::Finish(
                finish_event(&self.conversation_id, &self.event, turns, &x.content),
            ),
            Outcome::Failed(_) => EventStep::Fail(own("LLM request failed")),
            Outcome::TimedOut => EventStep::Fail(own("LLM request timed out")),
        }
    }
}

/// The last messages of the conversation are asked for, up to twenty.
pub proof fn history_is_asked_for(step: EventStep, id: Seq<char>)
    requires
        EventRun::loads_history(step, id),
    ensures
        step is LoadHistory,
        step->conversation_id@ == id,
        step->LoadHistory_limit == 20,
{
}

/// A run keeps its task: the agent, the event, the prompt, the tools and the provider.
pub proof fn task_is_kept(a: EventRun, b: EventRun)
    requires
        a.same_task(b),
    ensures
        a.agent_id == b.agent_id,
        a.agent == b.agent,
        a.event == b.event,
        a.system_prompt == b.system_prompt,
        a.identity == b.identity,
        a.tools == b.tools,
        a.provider == b.provider,
{
}

/// An event names a conversation if it has an id that is not empty.
pub proof fn conversation_is_named(r: EventRun)
    ensures
        r.names_conversation() <==> r.event@.conversation_id is Some
            && r.event@.conversation_id->0.len() > 0,
{
}

} // verus!
