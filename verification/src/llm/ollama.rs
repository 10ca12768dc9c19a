//! The Ollama API: its messages, the conversion to and from them, and the tool
//! loop.
use crate::duplicate::{
    duplicate_all, duplicate_all_opt, duplicate_opt, views_opt, Duplicate,
};
use crate::events::{
    LlmResponse, TokenUsage, ToolSchema, ToolSchemaView, UnifiedMessage, UnifiedMessageView,
    UnifiedToolCall, UnifiedToolCallView, UnifiedToolResultView,
};
use crate::json::{Json, JsonView};
pub use crate::llm::dispatch::tool_call_to_dispatch_request;
use crate::llm::dispatch::{
    final_response, some_text, text_or_none, tool_answer, tool_response, ToolOutcome,
};
use crate::outside::{json_of_bytes, json_of_text, json_to_text, settle};
use crate::text::{
    cat2, cat3, cat4, contains, decimal, decimal_of, own, part_stands_in_whole, stands_in_sum,
    view_opt, views,
};
use vstd::prelude::*;

verus! {

/// A call that the model asks for.
pub struct OllamaFunctionCall {
    pub index: Option<u32>,
    pub name: String,
    pub arguments: Json,
    pub description: Option<String>,
}

/// The mathematical content of a [`OllamaFunctionCall`].
pub struct OllamaFunctionCallView {
    pub index: Option<u32>,
    pub name: Seq<char>,
    pub arguments: JsonView,
    pub description: Option<Seq<char>>,
}

impl View for OllamaFunctionCall {
    type V = OllamaFunctionCallView;

    open spec fn view(&self) -> OllamaFunctionCallView {
        OllamaFunctionCallView {
            index: self.index,
            name: self.name@,
            arguments: self.arguments@,
            description: view_opt(self.description),
        }
    }
}

impl Duplicate for OllamaFunctionCall {
    fn copy(&self) -> (r: OllamaFunctionCall) {
        OllamaFunctionCall {
            index: self.index,
            name: self.name.clone(),
            arguments: self.arguments.copy(),
            description: duplicate_opt(&self.description),
        }
    }
}

/// A call of a tool.
pub struct OllamaToolCall {
    pub id: Option<String>,
    pub call_type: Option<String>,
    pub function: OllamaFunctionCall,
}

/// The mathematical content of a [`OllamaToolCall`].
pub struct OllamaToolCallView {
    pub id: Option<Seq<char>>,
    pub call_type: Option<Seq<char>>,
    pub function: OllamaFunctionCallView,
}

impl View for OllamaToolCall {
    type V = OllamaToolCallView;

    open spec fn view(&self) -> OllamaToolCallView {
        OllamaToolCallView {
            id: view_opt(self.id),
            call_type: view_opt(self.call_type),
            function: self.function@,
        }
    }
}

impl Duplicate for OllamaToolCall {
    fn copy(&self) -> (r: OllamaToolCall) {
        OllamaToolCall {
            id: duplicate_opt(&self.id),
            call_type: duplicate_opt(&self.call_type),
            function: self.function.copy(),
        }
    }
}

/// A message.
pub struct OllamaMessage {
    pub role: String,
    pub content: Option<String>,
    pub thinking: Option<String>,
    pub tool_calls: Option<Vec<OllamaToolCall>>,
    pub tool_name: Option<String>,
}

/// The mathematical content of a [`OllamaMessage`].
pub struct OllamaMessageView {
    pub role: Seq<char>,
    pub content: Option<Seq<char>>,
    pub thinking: Option<Seq<char>>,
    pub tool_calls: Option<Seq<OllamaToolCallView>>,
    pub tool_name: Option<Seq<char>>,
}

impl View for OllamaMessage {
    type V = OllamaMessageView;

    open spec fn view(&self) -> OllamaMessageView {
        OllamaMessageView {
            role: self.role@,
            content: view_opt(self.content),
            thinking: view_opt(self.thinking),
            tool_calls: views_opt(self.tool_calls),
            tool_name: view_opt(self.tool_name),
        }
    }
}

impl Duplicate for OllamaMessage {
    fn copy(&self) -> (r: OllamaMessage) {
        OllamaMessage {
            role: self.role.clone(),
            content: duplicate_opt(&self.content),
            thinking: duplicate_opt(&self.thinking),
            tool_calls: duplicate_all_opt(&self.tool_calls),
            tool_name: duplicate_opt(&self.tool_name),
        }
    }
}

/// A function that the model may call.
pub struct OllamaFunctionSchema {
    pub name: String,
    pub description: String,
    pub parameters: Json,
}

/// The mathematical content of a [`OllamaFunctionSchema`].
pub struct OllamaFunctionSchemaView {
    pub name: Seq<char>,
    pub description: Seq<char>,
    pub parameters: JsonView,
}

impl View for OllamaFunctionSchema {
    type V = OllamaFunctionSchemaView;

    open spec fn view(&self) -> OllamaFunctionSchemaView {
        OllamaFunctionSchemaView {
            name: self.name@,
            description: self.description@,
            parameters: self.parameters@,
        }
    }
}

impl Duplicate for OllamaFunctionSchema {
    fn copy(&self) -> (r: OllamaFunctionSchema) {
        OllamaFunctionSchema {
            name: self.name.clone(),
            description: self.description.clone(),
            parameters: self.parameters.copy(),
        }
    }
}

/// A tool that the model may call.
pub struct OllamaTool {
    pub tool_type: String,
    pub function: OllamaFunctionSchema,
}

/// The mathematical content of a [`OllamaTool`].
pub struct OllamaToolView {
    pub tool_type: Seq<char>,
    pub function: OllamaFunctionSchemaView,
}

impl View for OllamaTool {
    type V = OllamaToolView;

    open spec fn view(&self) -> OllamaToolView {
        OllamaToolView {
            tool_type: self.tool_type@,
            function: self.function@,
        }
    }
}

impl Duplicate for OllamaTool {
    fn copy(&self) -> (r: OllamaTool) {
        OllamaTool {
            tool_type: self.tool_type.clone(),
            function: self.function.copy(),
        }
    }
}

/// Generation options; numbers with a fraction are kept as numerals.
pub struct OllamaOptions {
    pub temperature: Option<String>,
    pub num_predict: Option<u32>,
    pub top_p: Option<String>,
}

/// The mathematical content of a [`OllamaOptions`].
pub struct OllamaOptionsView {
    pub temperature: Option<Seq<char>>,
    pub num_predict: Option<u32>,
    pub top_p: Option<Seq<char>>,
}

impl View for OllamaOptions {
    type V = OllamaOptionsView;

    open spec fn view(&self) -> OllamaOptionsView {
        OllamaOptionsView {
            temperature: view_opt(self.temperature),
            num_predict: self.num_predict,
            top_p: view_opt(self.top_p),
        }
    }
}

impl Duplicate for OllamaOptions {
    fn copy(&self) -> (r: OllamaOptions) {
        OllamaOptions {
            temperature: duplicate_opt(&self.temperature),
            num_predict: self.num_predict,
            top_p: duplicate_opt(&self.top_p),
        }
    }
}

/// A request to the API.
pub struct OllamaRequest {
    pub model: String,
    pub messages: Vec<OllamaMessage>,
    pub tools: Option<Vec<OllamaTool>>,
    pub options: Option<OllamaOptions>,
    pub stream: bool,
}

/// The mathematical content of a [`OllamaRequest`].
pub struct OllamaRequestView {
    pub model: Seq<char>,
    pub messages: Seq<OllamaMessageView>,
    pub tools: Option<Seq<OllamaToolView>>,
    pub options: Option<OllamaOptionsView>,
    pub stream: bool,
}

impl View for OllamaRequest {
    type V = OllamaRequestView;

    open spec fn view(&self) -> OllamaRequestView {
        OllamaRequestView {
            model: self.model@,
            messages: views(self.messages@),
            tools: views_opt(self.tools),
            options: view_opt(self.options),
            stream: self.stream,
        }
    }
}

/// A response of the API.
pub struct OllamaResponse {
    pub message: OllamaMessage,
    pub done_reason: Option<String>,
    pub total_duration: Option<u64>,
    pub eval_count: Option<u32>,
    pub prompt_eval_count: Option<u32>,
    pub error: Option<String>,
}

/// The mathematical content of a [`OllamaResponse`].
pub struct OllamaResponseView {
    pub message: OllamaMessageView,
    pub done_reason: Option<Seq<char>>,
    pub total_duration: Option<u64>,
    pub eval_count: Option<u32>,
    pub prompt_eval_count: Option<u32>,
    pub error: Option<Seq<char>>,
}

impl View for OllamaResponse {
    type V = OllamaResponseView;

    open spec fn view(&self) -> OllamaResponseView {
        OllamaResponseView {
            message: self.message@,
            done_reason: view_opt(self.done_reason),
            total_duration: self.total_duration,
            eval_count: self.eval_count,
            prompt_eval_count: self.prompt_eval_count,
            error: view_opt(self.error),
        }
    }
}

/// What is known of a model.
pub struct OllamaModelDetails {
    pub family: String,
    pub families: Vec<String>,
}

/// The mathematical content of a [`OllamaModelDetails`].
pub struct OllamaModelDetailsView {
    pub family: Seq<char>,
    pub families: Seq<Seq<char>>,
}

impl View for OllamaModelDetails {
    type V = OllamaModelDetailsView;

    open spec fn view(&self) -> OllamaModelDetailsView {
        OllamaModelDetailsView {
            family: self.family@,
            families: views(self.families@),
        }
    }
}

impl Duplicate for OllamaModelDetails {
    fn copy(&self) -> (r: OllamaModelDetails) {
        OllamaModelDetails {
            family: self.family.clone(),
            families: duplicate_all(&self.families),
        }
    }
}

/// An installed model.
pub struct OllamaModelTag {
    pub name: String,
    pub model: String,
    pub details: OllamaModelDetails,
}

/// The mathematical content of a [`OllamaModelTag`].
pub struct OllamaModelTagView {
    pub name: Seq<char>,
    pub model: Seq<char>,
    pub details: OllamaModelDetailsView,
}

impl View for OllamaModelTag {
    type V = OllamaModelTagView;

    open spec fn view(&self) -> OllamaModelTagView {
        OllamaModelTagView {
            name: self.name@,
            model: self.model@,
            details: self.details@,
        }
    }
}

impl Duplicate for OllamaModelTag {
    fn copy(&self) -> (r: OllamaModelTag) {
        OllamaModelTag {
            name: self.name.clone(),
            model: self.model.clone(),
            details: self.details.copy(),
        }
    }
}

/// The installed models.
pub struct OllamaTagsResponse {
    pub models: Vec<OllamaModelTag>,
}

/// The mathematical content of a [`OllamaTagsResponse`].
pub struct OllamaTagsResponseView {
    pub models: Seq<OllamaModelTagView>,
}

impl View for OllamaTagsResponse {
    type V = OllamaTagsResponseView;

    open spec fn view(&self) -> OllamaTagsResponseView {
        OllamaTagsResponseView {
            models: views(self.models@),
        }
    }
}

impl Duplicate for OllamaTagsResponse {
    fn copy(&self) -> (r: OllamaTagsResponse) {
        OllamaTagsResponse {
            models: duplicate_all(&self.models),
        }
    }
}

impl OllamaOptions {
    /// Whether no option is set.
    pub fn is_empty(&self) -> (r: bool)
        ensures
            r == (self@.temperature is None && self@.num_predict is None && self@.top_p is None),
    {
        self.temperature.is_none() && self.num_predict.is_none() && self.top_p.is_none()
    }
}

/// A message that is only text.
pub open spec fn text_message(role: Seq<char>, content: Option<Seq<char>>) -> OllamaMessageView {
    OllamaMessageView { role, content, thinking: None, tool_calls: None, tool_name: None }
}

impl OllamaMessage {
    /// A message that is only text.
    pub fn text(role: &str, content: &str) -> (r: OllamaMessage)
        ensures
            r@ == text_message(role@, Some(content@)),
    {
        OllamaMessage {
            role: own(role),
            content: Some(own(content)),
            thinking: None,
            tool_calls: None,
            tool_name: None,
        }
    }

    /// The result of a named tool.
    pub fn tool_result(tool_name: &str, content: &str) -> (r: OllamaMessage)
        ensures
            r@ == (OllamaMessageView {
                tool_name: Some(tool_name@),
                ..text_message("tool"@, Some(content@))
            }),
    {
        OllamaMessage {
            role: own("tool"),
            content: Some(own(content)),
            thinking: None,
            tool_calls: None,
            tool_name: Some(own(tool_name)),
        }
    }
}

/// A call as the API takes it.
pub open spec fn call_view(c: UnifiedToolCallView) -> OllamaToolCallView {
    OllamaToolCallView {
        id: Some(c.id),
        call_type: Some("function"@),
        function: OllamaFunctionCallView {
            index: None,
            name: c.name,
            arguments: c.arguments,
            description: None,
        },
    }
}

/// The message without its results.
pub open spec fn main_message(m: UnifiedMessageView) -> OllamaMessageView {
    OllamaMessageView {
        tool_calls: match m.tool_calls {
            Some(c) => Some(Seq::new(c.len(), |i: int| call_view(c[i]))),
            None => None,
        },
        ..text_message(m.role, m.content)
    }
}

/// The results in a message, a message each.
pub open spec fn result_messages(results: Option<Seq<UnifiedToolResultView>>) -> Seq<
    OllamaMessageView,
> {
    match results {
        Some(c) => Seq::new(c.len(), |i: int| text_message("tool"@, Some(c[i].content))),
        None => Seq::empty(),
    }
}

/// The messages as the API takes them: each followed by its results.
pub open spec fn ollama_messages(messages: Seq<UnifiedMessageView>) -> Seq<OllamaMessageView>
    decreases messages.len(),
{
    if messages.len() == 0 {
        Seq::empty()
    } else {
        let m = messages.last();
        ollama_messages(messages.drop_last()).push(main_message(m)) + result_messages(
            m.tool_results,
        )
    }
}

/// Converts the calls of a message.
fn convert_calls(calls: &Vec<UnifiedToolCall>) -> (r: Vec<OllamaToolCall>)
    ensures
        views(r@) == Seq::new(calls@.len(), |i: int| call_view(views(calls@)[i])),
{
    let mut out: Vec<OllamaToolCall> = Vec::new();
    let mut i: usize = 0;
    while i < calls.len()
        invariant
            i <= calls@.len(),
            out@.len() == i,
            forall|k: int| 0 <= k < i ==> (#[trigger] out@[k])@ == call_view(calls@[k]@),
        decreases calls@.len() - i,
    {
        let c = &calls[i];
        out.push(
            OllamaToolCall {
                id: Some(c.id.clone()),
                call_type: Some(own("function")),
                function: OllamaFunctionCall {
                    index: None,
                    name: c.name.clone(),
                    arguments: c.arguments.copy(),
                    description: None,
                },
            },
        );
        i = i + 1;
    }
    assert(views(out@) =~= Seq::new(calls@.len(), |i: int| call_view(views(calls@)[i])));
    out
}

/// Converts messages to the form that the API takes.
pub fn unified_to_ollama_messages(messages: &[UnifiedMessage]) -> (r: Vec<OllamaMessage>)
    ensures
        views(r@) == ollama_messages(views(messages@)),
{
    let mut out: Vec<OllamaMessage> = Vec::new();
    let mut i: usize = 0;
    proof {
        assert(views(out@) =~= ollama_messages(views(messages@).subrange(0, 0)));
    }
    while i < messages.len()
        invariant
            i <= messages@.len(),
            views(out@) == ollama_messages(views(messages@).subrange(0, i as int)),
        decreases messages@.len() - i,
    {
        let m = &messages[i];
        let ghost before = views(out@);
        proof {
            let t = views(messages@).subrange(0, i + 1);
            assert(t.drop_last() =~= views(messages@).subrange(0, i as int));
            assert(t.last() == m@);
        }
        let tool_calls = match &m.tool_calls {
            Some(calls) => Some(convert_calls(calls)),
            None => None,
        };
        let main = OllamaMessage {
            role: m.role.clone(),
            content: duplicate_opt(&m.content),
            thinking: None,
            tool_calls,
            tool_name: None,
        };
        out.push(main);
        proof {
            assert(main@.tool_calls == main_message(m@).tool_calls);
            assert(views(out@) =~= before.push(main_message(m@)));
        }
        let ghost mid = views(out@);
        match &m.tool_results {
            Some(results) => {
                let mut k: usize = 0;
                while k < results.len()
                    invariant
                        k <= results@.len(),
                        views(out@) =~= mid + result_messages(Some(views(results@))).subrange(
                            0,
                            k as int,
                        ),
                    decreases results@.len() - k,
                {
                    let ghost old_out = out@;
                    let x = OllamaMessage::text("tool", &results[k].content);
                    proof {
                        assert(x@ == result_messages(Some(views(results@)))[k as int]);
                    }
                    out.push(x);
                    proof {
                        assert(views(out@) =~= views(old_out).push(x@));
                    }
                    k = k + 1;
                }
                assert(views(out@) =~= mid + result_messages(m@.tool_results));
            },
            None => {
                assert(views(out@) =~= mid + result_messages(m@.tool_results));
            },
        }
        i = i + 1;
    }
    proof {
        assert(views(messages@).subrange(0, i as int) =~= views(messages@));
    }
    out
}

/// A tool as the API takes it.
pub open spec fn tool_view(t: ToolSchemaView) -> OllamaToolView {
    OllamaToolView {
        tool_type: "function"@,
        function: OllamaFunctionSchemaView {
            name: t.name,
            description: t.description,
            parameters: t.parameters,
        },
    }
}

/// Converts tools to the form that the API takes.
pub fn unified_to_ollama_tools(tools: &[ToolSchema]) -> (r: Vec<OllamaTool>)
    ensures
        views(r@) == Seq::new(tools@.len(), |i: int| tool_view(views(tools@)[i])),
{
    let mut out: Vec<OllamaTool> = Vec::new();
    let mut i: usize = 0;
    while i < tools.len()
        invariant
            i <= tools@.len(),
            out@.len() == i,
            forall|k: int| 0 <= k < i ==> (#[trigger] out@[k])@ == tool_view(tools@[k]@),
        decreases tools@.len() - i,
    {
        let t = &tools[i];
        out.push(
            OllamaTool {
                tool_type: own("function"),
                function: OllamaFunctionSchema {
                    name: t.name.clone(),
                    description: t.description.clone(),
                    parameters: t.parameters.copy(),
                },
            },
        );
        i = i + 1;
    }
    assert(views(out@) =~= Seq::new(tools@.len(), |i: int| tool_view(views(tools@)[i])));
    out
}

/// The arguments of a call: a text that holds a document counts as that document.
pub open spec fn call_arguments(a: JsonView) -> JsonView {
    match a {
        JsonView::Text(raw) => match json_of_text(raw) {
            Ok(v) => v,
            Err(_) => a,
        },
        _ => a,
    }
}

/// A call of the model at a position, in the form of the platform. A call
/// without an id is named after its index, or else its position.
pub open spec fn unified_call(c: OllamaToolCallView, position: int) -> UnifiedToolCallView {
    UnifiedToolCallView {
        id: match c.id {
            Some(id) => id,
            None => match c.function.index {
                Some(n) => "call_"@ + decimal(n as nat),
                None => "call_"@ + decimal(position as nat),
            },
        },
        name: c.function.name,
        arguments: call_arguments(c.function.arguments),
    }
}

/// The calls of the model in the form of the platform.
pub open spec fn unified_calls(calls: Seq<OllamaToolCallView>) -> Seq<UnifiedToolCallView> {
    Seq::new(calls.len(), |i: int| unified_call(calls[i], i))
}

/// Converts the calls of the model.
pub fn ollama_tool_calls_to_unified(tool_calls: &[OllamaToolCall]) -> (r: Vec<UnifiedToolCall>)
    ensures
        views(r@) == unified_calls(views(tool_calls@)),
{
    let mut out: Vec<UnifiedToolCall> = Vec::new();
    let mut i: usize = 0;
    while i < tool_calls.len()
        invariant
            i <= tool_calls@.len(),
            out@.len() == i,
            forall|k: int|
                0 <= k < i ==> (#[trigger] out@[k])@ == unified_call(tool_calls@[k]@, k),
        decreases tool_calls@.len() - i,
    {
        let c = &tool_calls[i];
        let arguments = match &c.function.arguments {
            Json::Text(raw) => match Json::parse(raw) {
                Ok(v) => v,
                Err(_) => Json::Text(raw.clone()),
            },
            other => other.copy(),
        };
        let id = match &c.id {
            Some(id) => id.clone(),
            None => match c.function.index {
                Some(n) => cat2("call_", &decimal_of(n as u64)),
                None => cat2("call_", &decimal_of(i as u64)),
            },
        };
        out.push(UnifiedToolCall { id, name: c.function.name.clone(), arguments });
        i = i + 1;
    }
    assert(views(out@) =~= unified_calls(views(tool_calls@)));
    out
}

// ---------------------------------------------------------------------------
// The tool loop
// ---------------------------------------------------------------------------

/// A request being worked on: the conversation so far, the calls that wait for an
/// answer, and what has been used up.
pub struct OllamaRun {
    pub agent_id: String,
    pub correlation_id: Option<String>,
    pub model: String,
    pub messages: Vec<OllamaMessage>,
    pub tools: Option<Vec<OllamaTool>>,
    pub max_rounds: u32,
    pub round: u32,
    pub input_tokens: u32,
    pub output_tokens: u32,
    pub pending: Vec<UnifiedToolCall>,
}

/// The mathematical content of a [`OllamaRun`].
pub struct OllamaRunView {
    pub agent_id: Seq<char>,
    pub correlation_id: Option<Seq<char>>,
    pub model: Seq<char>,
    pub messages: Seq<OllamaMessageView>,
    pub tools: Option<Seq<OllamaToolView>>,
    pub max_rounds: u32,
    pub round: u32,
    pub input_tokens: u32,
    pub output_tokens: u32,
    pub pending: Seq<UnifiedToolCallView>,
}

impl View for OllamaRun {
    type V = OllamaRunView;

    open spec fn view(&self) -> OllamaRunView {
        OllamaRunView {
            agent_id: self.agent_id@,
            correlation_id: view_opt(self.correlation_id),
            model: self.model@,
            messages: views(self.messages@),
            tools: views_opt(self.tools),
            max_rounds: self.max_rounds,
            round: self.round,
            input_tokens: self.input_tokens,
            output_tokens: self.output_tokens,
            pending: views(self.pending@),
        }
    }
}

/// What follows a response of the API.
pub enum OllamaStep {
    /// The model is done.
    Finish(Option<String>),
    /// The pending calls are to be sent out.
    Dispatch,
}

/// The mathematical content of an [`OllamaStep`].
pub enum OllamaStepView {
    Finish(Option<Seq<char>>),
    Dispatch,
}

impl View for OllamaStep {
    type V = OllamaStepView;

    open spec fn view(&self) -> OllamaStepView {
        match *self {
            OllamaStep::Finish(c) => OllamaStepView::Finish(view_opt(c)),
            OllamaStep::Dispatch => OllamaStepView::Dispatch,
        }
    }
}

/// A count that may be missing.
pub open spec fn count_or_zero(n: Option<u32>) -> int {
    match n {
        Some(k) => k as int,
        None => 0,
    }
}

impl OllamaRunView {
    /// The rounds are within the limit and the token counts can be summed.
    pub open spec fn wf(self) -> bool {
        self.round <= self.max_rounds && self.input_tokens + self.output_tokens <= u32::MAX
    }

    /// The request that the run sends next.
    pub open spec fn request(self) -> OllamaRequestView {
        OllamaRequestView {
            model: self.model,
            messages: self.messages,
            tools: self.tools,
            options: None,
            stream: false,
        }
    }

    /// The token counts stay within range when a response is counted.
    pub open spec fn fits(self, response: OllamaResponseView) -> bool {
        self.input_tokens + self.output_tokens + count_or_zero(response.prompt_eval_count)
            + count_or_zero(response.eval_count) <= u32::MAX
    }

    /// The run with the tokens of a response counted.
    pub open spec fn counted(self, response: OllamaResponseView) -> OllamaRunView {
        OllamaRunView {
            input_tokens: (self.input_tokens + count_or_zero(response.prompt_eval_count)) as u32,
            output_tokens: (self.output_tokens + count_or_zero(response.eval_count)) as u32,
            ..self
        }
    }

    /// The run after a response, and what follows: a response without calls, or
    /// in the last round, ends the run; any other is added to the conversation
    /// and its calls wait to be sent out.
    pub open spec fn respond(self, response: OllamaResponseView) -> (
        OllamaRunView,
        OllamaStepView,
    ) {
        let run = self.counted(response);
        let calls = match response.message.tool_calls {
            Some(c) => unified_calls(c),
            None => Seq::empty(),
        };
        if calls.len() == 0 || self.round == self.max_rounds {
            (
                run,
                OllamaStepView::Finish(
                    some_text(response.message.content.unwrap_or(Seq::empty())),
                ),
            )
        } else {
            (
                OllamaRunView {
                    messages: run.messages.push(response.message),
                    pending: calls,
                    ..run
                },
                OllamaStepView::Dispatch,
            )
        }
    }

    /// The messages that answer the pending calls.
    pub open spec fn answers(self, outcomes: Seq<ToolOutcome>) -> Seq<OllamaMessageView> {
        Seq::new(
            self.pending.len(),
            |i: int|
                text_message(
                    "tool"@,
                    Some(
                        json_to_text(settle(tool_answer(self.pending[i].name, outcomes[i]).result)),
                    ),
                ),
        )
    }

    /// The run once the pending calls are answered.
    pub open spec fn answered(self, outcomes: Seq<ToolOutcome>) -> OllamaRunView {
        OllamaRunView {
            messages: self.messages + self.answers(outcomes),
            round: (self.round + 1) as u32,
            pending: Seq::empty(),
            ..self
        }
    }
}

/// A run never asks for tools in its last round, so it sends at most one request
/// more than it has rounds.
pub proof fn last_round_ends(run: OllamaRunView, response: OllamaResponseView)
    requires
        run.wf(),
        run.round == run.max_rounds,
    ensures
        !(run.respond(response).1 is Dispatch),
{
}

impl OllamaRun {
    /// Starts a run for a request.
    pub fn start(
        agent_id: &str,
        correlation_id: &Option<String>,
        messages: &[UnifiedMessage],
        tools: &[ToolSchema],
        model: &str,
        max_rounds: u32,
    ) -> (r: OllamaRun)
        ensures
            r@ == (OllamaRunView {
                agent_id: agent_id@,
                correlation_id: view_opt(*correlation_id),
                model: model@,
                messages: ollama_messages(views(messages@)),
                tools: if tools@.len() == 0 {
                    None
                } else {
                    Some(Seq::new(tools@.len(), |i: int| tool_view(views(tools@)[i])))
                },
                max_rounds,
                round: 0,
                input_tokens: 0,
                output_tokens: 0,
                pending: Seq::empty(),
            }),
            r@.wf(),
    {
        let r = OllamaRun {
            agent_id: own(agent_id),
            correlation_id: duplicate_opt(correlation_id),
            model: own(model),
            messages: unified_to_ollama_messages(messages),
            tools: if tools.len() == 0 {
                None
            } else {
                Some(unified_to_ollama_tools(tools))
            },
            max_rounds,
            round: 0,
            input_tokens: 0,
            output_tokens: 0,
            pending: Vec::new(),
        };
        assert(r@.pending =~= Seq::empty());
        r
    }

    /// The request to send next.
    pub fn request(&self) -> (r: OllamaRequest)
        ensures
            r@ == self@.request(),
    {
        OllamaRequest {
            model: self.model.clone(),
            messages: duplicate_all(&self.messages),
            tools: duplicate_all_opt(&self.tools),
            options: None,
            stream: false,
        }
    }

    /// Takes a response in and decides what follows.
    pub fn on_response(&mut self, response: &OllamaResponse) -> (r: OllamaStep)
        requires
            old(self)@.wf(),
            old(self)@.fits(response@),
        ensures
            (final(self)@, r@) == old(self)@.respond(response@),
            final(self)@.wf(),
            r is Dispatch ==> final(self)@.round < final(self)@.max_rounds,
    {
        match response.prompt_eval_count {
            Some(n) => {
                self.input_tokens = self.input_tokens + n;
            },
            None => {},
        }
        match response.eval_count {
            Some(n) => {
                self.output_tokens = self.output_tokens + n;
            },
            None => {},
        }
        let calls = match &response.message.tool_calls {
            Some(c) => ollama_tool_calls_to_unified(c),
            None => Vec::new(),
        };
        if calls.len() == 0 || self.round == self.max_rounds {
            let text = match &response.message.content {
                Some(t) => t.clone(),
                None => String::new(),
            };
            return OllamaStep::Finish(text_or_none(text));
        }
        let ghost before = self.messages@;
        self.messages.push(response.message.copy());
        self.pending = calls;
        assert(views(self.messages@) =~= views(before).push(response@.message));
        OllamaStep::Dispatch
    }

    /// Takes the outcomes of the pending calls in, in order.
    pub fn on_tool_results(&mut self, outcomes: &Vec<ToolOutcome>)
        requires
            old(self)@.wf(),
            old(self)@.round < old(self)@.max_rounds,
            outcomes@.len() == old(self)@.pending.len(),
        ensures
            final(self)@ == old(self)@.answered(outcomes@),
            final(self)@.wf(),
    {
        let ghost before = self@;
        let mut i: usize = 0;
        let ghost start = views(self.messages@);
        let pending = duplicate_all(&self.pending);
        self.pending = Vec::new();
        assert(self@.pending =~= Seq::empty());
        while i < pending.len()
            invariant
                i <= pending@.len(),
                views(pending@) == before.pending,
                outcomes@.len() == before.pending.len(),
                views(self.messages@) =~= start + before.answers(outcomes@).subrange(0, i as int),
                self@ == (OllamaRunView {
                    messages: views(self.messages@),
                    pending: Seq::empty(),
                    ..before
                }),
            decreases pending@.len() - i,
        {
            assert(before.pending[i as int] == pending@[i as int]@);
            let answer = tool_response(&pending[i].name, &outcomes[i]);
            let text = answer.result.print();
            let message = OllamaMessage::text("tool", &text);
            let ghost mid = self.messages@;
            assert(message@ == before.answers(outcomes@)[i as int]);
            self.messages.push(message);
            assert(views(self.messages@) =~= views(mid).push(message@));
            assert(views(self.pending@) =~= Seq::empty());
            i = i + 1;
        }
        self.round = self.round + 1;
        assert(before.answers(outcomes@).subrange(0, i as int) =~= before.answers(outcomes@));
    }

    /// The answer of the provider once the run is over.
    pub fn finish(&self, content: Option<String>, duration_ms: u64) -> (r: LlmResponse)
        requires
            self@.wf(),
        ensures
            r@ == final_response(
                "ollama"@,
                self@.model,
                self@.agent_id,
                view_opt(content),
                self@.input_tokens,
                self@.output_tokens,
                duration_ms,
                "stop"@,
                self@.round,
            ),
    {
        LlmResponse {
            agent_id: self.agent_id.clone(),
            content,
            tool_calls: None,
            model_used: self.model.clone(),
            provider: own("ollama"),
            tokens: TokenUsage {
                prompt_tokens: self.input_tokens,
                completion_tokens: self.output_tokens,
                total_tokens: self.input_tokens + self.output_tokens,
            },
            duration_ms,
            finish_reason: own("stop"),
            tool_rounds: self.round,
        }
    }
}

/// The message of a response that was not a success.
pub open spec fn api_error_text(
    status: Seq<char>,
    body: Result<JsonView, Seq<char>>,
) -> Seq<char> {
    "Ollama API error ("@ + status + "): "@ + match body {
        Ok(v) => v.text_or("error"@, "Unknown error"@),
        Err(_) => "Non-JSON error response (status "@ + status + ")"@,
    }
}

/// The message of a response that was not a success, from its decoded body.
pub fn api_error_decoded(status: &str, body: Result<Json, String>) -> (r: String)
    ensures
        r@ == api_error_text(
            status@,
            match body {
                Ok(v) => Ok(v@),
                Err(e) => Err(e@),
            },
        ),
{
    let detail = match body {
        Ok(v) => v.text_or("error", "Unknown error"),
        Err(_) => cat3("Non-JSON error response (status ", status, ")"),
    };
    cat4("Ollama API error (", status, "): ", &detail)
}

/// The message of a response that was not a success. The body of one that is not
/// JSON is not shown.
pub fn api_error(status: &str, body: &[u8]) -> (r: String)
    ensures
        r@ == api_error_text(status@, json_of_bytes(body@)),
{
    api_error_decoded(status, Json::parse_bytes(body))
}

/// What each tool replied reaches the model, in the place of its call, and nothing that was
/// said before is lost.
pub proof fn results_reach_the_model(run: OllamaRunView, outcomes: Seq<ToolOutcome>, i: int)
    requires
        run.wf(),
        run.round < run.max_rounds,
        outcomes.len() == run.pending.len(),
        0 <= i < outcomes.len(),
    ensures
        ({
            let after = run.answered(outcomes);
            let n = run.messages.len() as int;
            &&& after.messages.len() == n + outcomes.len()
            &&& after.messages.subrange(0, n) == run.messages
            &&& after.messages[n + i].role == "tool"@
            &&& after.messages[n + i].content is Some
            &&& after.round == run.round + 1
            &&& after.pending.len() == 0
            &&& after.input_tokens == run.input_tokens
            &&& after.output_tokens == run.output_tokens
            &&& match outcomes[i] {
                ToolOutcome::Reply(reply) => after.messages[n + i].content == Some(
                    json_to_text(settle(reply.result@)),
                ),
                _ => true,
            }
        }),
{
    assert(run.answered(outcomes).messages.subrange(0, run.messages.len() as int)
        =~= run.messages);
}

/// A part with a result depends on what came of the call, not on what the call asked.
pub proof fn arguments_are_no_result(
    a: OllamaRunView,
    b: OllamaRunView,
    outcomes: Seq<ToolOutcome>,
    i: int,
)
    requires
        a.pending.len() == b.pending.len() == outcomes.len(),
        0 <= i < outcomes.len(),
        a.pending[i].name == b.pending[i].name,
    ensures
        a.answers(outcomes)[i] == b.answers(outcomes)[i],
{
}

/// A message goes to the model with its role, its text and its calls, and behind it stand
/// its results; the order of the messages stays.
pub proof fn messages_are_whole(a: Seq<UnifiedMessageView>, m: UnifiedMessageView)
    ensures
        ({
            let before = ollama_messages(a);
            let after = ollama_messages(a.push(m));
            let n = before.len() as int;
            let k = if m.tool_results is Some {
                m.tool_results->0.len()
            } else {
                0
            };
            &&& after.len() == n + 1 + k
            &&& after.subrange(0, n) == before
            &&& after[n].role == m.role
            &&& after[n].content == m.content
            &&& after[n].tool_calls is Some <==> m.tool_calls is Some
            &&& m.tool_calls matches Some(c) ==> after[n].tool_calls->0.len() == c.len() && forall|
                i: int,
            |
                0 <= i < c.len() ==> (#[trigger] after[n].tool_calls->0[i]).function.name == c[i].name
                    && after[n].tool_calls->0[i].call_type == Some("function"@)
                    && after[n].tool_calls->0[i].function.arguments == c[i].arguments
                    && after[n].tool_calls->0[i].id == Some(c[i].id)
            &&& m.tool_results matches Some(t) ==> forall|i: int|
                0 <= i < t.len() ==> (#[trigger] after[n + 1 + i]).role == "tool"@ && after[n + 1
                    + i].content == Some(t[i].content)
        }),
{
    assert(a.push(m).drop_last() =~= a);
    let before = ollama_messages(a);
    let after = ollama_messages(a.push(m));
    let n = before.len() as int;
    assert(after.subrange(0, n) =~= before);
    assert(after[n] == main_message(m));
    if m.tool_results is Some {
        let t = m.tool_results->0;
        assert forall|i: int| 0 <= i < t.len() implies (#[trigger] after[n + 1 + i]).role
            == "tool"@ && after[n + 1 + i].content == Some(t[i].content) by {
            assert(after[n + 1 + i] == result_messages(m.tool_results)[i]);
        }
    }
}

/// The model learns of a tool as it is: its name, what it is for and its parameters.
pub proof fn tool_is_declared(t: ToolSchemaView)
    ensures
        tool_view(t).function.name == t.name,
        tool_view(t).function.description == t.description,
        tool_view(t).function.parameters == t.parameters,
        tool_view(t).tool_type == "function"@,
{
}

/// The calls of an answer are made as the model asked, one for each, in order; arguments
/// that come as a text are read from it.
pub proof fn calls_are_read(calls: Seq<OllamaToolCallView>, i: int)
    requires
        0 <= i < calls.len(),
    ensures
        unified_calls(calls).len() == calls.len(),
        unified_calls(calls)[i].name == calls[i].function.name,
        !(calls[i].function.arguments is Text) ==> unified_calls(calls)[i].arguments
            == calls[i].function.arguments,
        calls[i].function.arguments matches JsonView::Text(raw) ==> (json_of_text(raw) matches Ok(
            v,
        ) ==> unified_calls(calls)[i].arguments == v),
        calls[i].id matches Some(id) ==> unified_calls(calls)[i].id == id,
{
}

/// An answer without calls ends the run with its text; one with calls has them made, and is
/// remembered. Tokens add up.
pub proof fn response_is_taken_in(run: OllamaRunView, response: OllamaResponseView)
    requires
        run.wf(),
        run.fits(response),
    ensures
        ({
            let (after, step) = run.respond(response);
            let asked = response.message.tool_calls is Some
                && response.message.tool_calls->0.len() > 0;
            &&& step is Dispatch <==> asked && run.round < run.max_rounds
            &&& step is Dispatch ==> after.pending == unified_calls(
                response.message.tool_calls->0,
            ) && after.messages == run.messages.push(response.message)
            &&& step matches OllamaStepView::Finish(text) ==> (response.message.content matches Some(
                t,
            ) && t.len() > 0 ==> text == response.message.content)
            &&& response.prompt_eval_count matches Some(n) ==> after.input_tokens
                == run.input_tokens + n
            &&& response.eval_count matches Some(n) ==> after.output_tokens == run.output_tokens
                + n
            &&& response.prompt_eval_count is None ==> after.input_tokens == run.input_tokens
            &&& response.eval_count is None ==> after.output_tokens == run.output_tokens
            &&& after.round == run.round
            &&& after.tools == run.tools
            &&& after.model == run.model
        }),
{
}

/// A request carries all that the run has.
pub proof fn request_is_complete(run: OllamaRunView)
    ensures
        run.request().messages == run.messages,
        run.request().tools == run.tools,
        run.request().model == run.model,
        !run.request().stream,
{
}

/// An error tells the status, and what the body says is wrong where it says so.
pub proof fn error_is_told(status: Seq<char>, v: JsonView, e: Seq<char>)
    ensures
        contains(api_error_text(status, Ok(v)), status),
        v.text_at("error"@) is Some ==> contains(
            api_error_text(status, Ok(v)),
            v.text_at("error"@)->0,
        ),
        contains(api_error_text(status, Err(e)), status),
{
    let head = "Ollama API error ("@ + status + "): "@;
    let said = v.text_or("error"@, "Unknown error"@);
    let unsaid = "Non-JSON error response (status "@ + status + ")"@;
    part_stands_in_whole("Ollama API error ("@, status, "): "@);
    stands_in_sum(head, said, status);
    stands_in_sum(head, said, said);
    stands_in_sum(head, unsaid, status);
}

} // verus!
