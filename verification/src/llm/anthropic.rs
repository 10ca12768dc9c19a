//! The Anthropic API: its messages and the conversion to and from them.
use crate::duplicate::{views_opt, Duplicate};
use crate::events::{
    ToolSchema, ToolSchemaView, UnifiedMessage, UnifiedMessageView, UnifiedToolCall,
    UnifiedToolCallView, UnifiedToolResultView,
};
use crate::json::{Json, JsonView};
pub use crate::llm::dispatch::tool_call_to_dispatch_request;
use crate::text::{join, joined, own, view_opt, views};
use vstd::prelude::*;

verus! {

/// A block of a message.
pub enum AnthropicContent {
    Text { text: String },
    ToolUse { id: String, name: String, input: Json },
    ToolResult { tool_use_id: String, content: String, is_error: Option<bool> },
}

/// The mathematical content of an [`AnthropicContent`].
pub enum AnthropicContentView {
    Text { text: Seq<char> },
    ToolUse { id: Seq<char>, name: Seq<char>, input: JsonView },
    ToolResult { tool_use_id: Seq<char>, content: Seq<char>, is_error: Option<bool> },
}

impl View for AnthropicContent {
    type V = AnthropicContentView;

    open spec fn view(&self) -> AnthropicContentView {
        match *self {
            AnthropicContent::Text { text } => AnthropicContentView::Text { text: text@ },
            AnthropicContent::ToolUse { id, name, input } => AnthropicContentView::ToolUse {
                id: id@,
                name: name@,
                input: input@,
            },
            AnthropicContent::ToolResult { tool_use_id, content, is_error } =>
                AnthropicContentView::ToolResult {
                tool_use_id: tool_use_id@,
                content: content@,
                is_error,
            },
        }
    }
}

/// A message.
pub struct AnthropicMessage {
    pub role: String,
    pub content: Vec<AnthropicContent>,
}

/// The mathematical content of a [`AnthropicMessage`].
pub struct AnthropicMessageView {
    pub role: Seq<char>,
    pub content: Seq<AnthropicContentView>,
}

impl View for AnthropicMessage {
    type V = AnthropicMessageView;

    open spec fn view(&self) -> AnthropicMessageView {
        AnthropicMessageView {
            role: self.role@,
            content: views(self.content@),
        }
    }
}

/// A tool that the model may call.
pub struct AnthropicTool {
    pub name: String,
    pub description: String,
    pub input_schema: Json,
}

/// The mathematical content of a [`AnthropicTool`].
pub struct AnthropicToolView {
    pub name: Seq<char>,
    pub description: Seq<char>,
    pub input_schema: JsonView,
}

impl View for AnthropicTool {
    type V = AnthropicToolView;

    open spec fn view(&self) -> AnthropicToolView {
        AnthropicToolView {
            name: self.name@,
            description: self.description@,
            input_schema: self.input_schema@,
        }
    }
}

impl Duplicate for AnthropicTool {
    fn copy(&self) -> (r: AnthropicTool) {
        AnthropicTool {
            name: self.name.clone(),
            description: self.description.clone(),
            input_schema: self.input_schema.copy(),
        }
    }
}

/// A request to the API. The temperature travels beside it.
pub struct AnthropicRequest {
    pub model: String,
    pub messages: Vec<AnthropicMessage>,
    pub system: Option<String>,
    pub max_tokens: u32,
    pub tools: Option<Vec<AnthropicTool>>,
}

/// The mathematical content of a [`AnthropicRequest`].
pub struct AnthropicRequestView {
    pub model: Seq<char>,
    pub messages: Seq<AnthropicMessageView>,
    pub system: Option<Seq<char>>,
    pub max_tokens: u32,
    pub tools: Option<Seq<AnthropicToolView>>,
}

impl View for AnthropicRequest {
    type V = AnthropicRequestView;

    open spec fn view(&self) -> AnthropicRequestView {
        AnthropicRequestView {
            model: self.model@,
            messages: views(self.messages@),
            system: view_opt(self.system),
            max_tokens: self.max_tokens,
            tools: views_opt(self.tools),
        }
    }
}

/// How many tokens a response took.
#[derive(Clone, Copy)]
pub struct AnthropicUsage {
    pub input_tokens: u32,
    pub output_tokens: u32,
}

/// An error that the API reports.
pub struct AnthropicErrorDetail {
    pub message: String,
    pub error_type: Option<String>,
}

/// The mathematical content of a [`AnthropicErrorDetail`].
pub struct AnthropicErrorDetailView {
    pub message: Seq<char>,
    pub error_type: Option<Seq<char>>,
}

impl View for AnthropicErrorDetail {
    type V = AnthropicErrorDetailView;

    open spec fn view(&self) -> AnthropicErrorDetailView {
        AnthropicErrorDetailView {
            message: self.message@,
            error_type: view_opt(self.error_type),
        }
    }
}

/// A response of the API.
pub struct AnthropicResponse {
    pub content: Vec<AnthropicContent>,
    pub stop_reason: String,
    pub usage: AnthropicUsage,
    pub error: Option<AnthropicErrorDetail>,
}

/// The mathematical content of a [`AnthropicResponse`].
pub struct AnthropicResponseView {
    pub content: Seq<AnthropicContentView>,
    pub stop_reason: Seq<char>,
    pub usage: AnthropicUsage,
    pub error: Option<AnthropicErrorDetailView>,
}

impl View for AnthropicResponse {
    type V = AnthropicResponseView;

    open spec fn view(&self) -> AnthropicResponseView {
        AnthropicResponseView {
            content: views(self.content@),
            stop_reason: self.stop_reason@,
            usage: self.usage,
            error: view_opt(self.error),
        }
    }
}

/// A message of one text.
pub open spec fn text_message(role: Seq<char>, text: Seq<char>) -> AnthropicMessageView {
    AnthropicMessageView { role, content: seq![AnthropicContentView::Text { text }] }
}

impl AnthropicMessage {
    /// A user message of one text.
    pub fn user(content: &str) -> (r: AnthropicMessage)
        ensures
            r@ == text_message("user"@, content@),
    {
        AnthropicMessage::of_text("user", content)
    }

    /// An assistant message of one text.
    pub fn assistant(content: &str) -> (r: AnthropicMessage)
        ensures
            r@ == text_message("assistant"@, content@),
    {
        AnthropicMessage::of_text("assistant", content)
    }

    /// A message of one text.
    fn of_text(role: &str, content: &str) -> (r: AnthropicMessage)
        ensures
            r@ == text_message(role@, content@),
    {
        let r = AnthropicMessage {
            role: own(role),
            content: vec![AnthropicContent::Text { text: own(content) }],
        };
        assert(r@.content =~= text_message(role@, content@).content);
        r
    }

    /// A message of several blocks.
    pub fn with_content(role: &str, content: Vec<AnthropicContent>) -> (r: AnthropicMessage)
        ensures
            r@ == (AnthropicMessageView { role: role@, content: views(content@) }),
    {
        AnthropicMessage { role: own(role), content }
    }
}

/// The block of a text, unless it is empty or missing.
pub open spec fn text_blocks(content: Option<Seq<char>>) -> Seq<AnthropicContentView> {
    match content {
        Some(text) => if text.len() > 0 {
            seq![AnthropicContentView::Text { text }]
        } else {
            Seq::empty()
        },
        None => Seq::empty(),
    }
}

/// The blocks of the calls in a message.
pub open spec fn call_blocks(calls: Option<Seq<UnifiedToolCallView>>) -> Seq<AnthropicContentView> {
    match calls {
        Some(c) => Seq::new(
            c.len(),
            |i: int|
                AnthropicContentView::ToolUse {
                    id: c[i].id,
                    name: c[i].name,
                    input: c[i].arguments,
                },
        ),
        None => Seq::empty(),
    }
}

/// The blocks of the results in a message. Only an error is marked.
pub open spec fn result_blocks(results: Option<Seq<UnifiedToolResultView>>) -> Seq<
    AnthropicContentView,
> {
    match results {
        Some(c) => Seq::new(
            c.len(),
            |i: int|
                AnthropicContentView::ToolResult {
                    tool_use_id: c[i].tool_call_id,
                    content: c[i].content,
                    is_error: if c[i].is_error {
                        Some(true)
                    } else {
                        None
                    },
                },
        ),
        None => Seq::empty(),
    }
}

/// All blocks of a message: its text, its calls and its results.
pub open spec fn message_blocks(m: UnifiedMessageView) -> Seq<AnthropicContentView> {
    text_blocks(m.content) + call_blocks(m.tool_calls) + result_blocks(m.tool_results)
}

/// The messages as the API takes them; one without blocks is left out.
pub open spec fn anthropic_messages(messages: Seq<UnifiedMessageView>) -> Seq<AnthropicMessageView>
    decreases messages.len(),
{
    if messages.len() == 0 {
        Seq::empty()
    } else {
        let m = messages.last();
        let rest = anthropic_messages(messages.drop_last());
        if message_blocks(m).len() == 0 {
            rest
        } else {
            rest.push(AnthropicMessageView { role: m.role, content: message_blocks(m) })
        }
    }
}

/// Builds the blocks of a message.
fn build_blocks(m: &UnifiedMessage) -> (r: Vec<AnthropicContent>)
    ensures
        views(r@) == message_blocks(m@),
{
    let mut out: Vec<AnthropicContent> = Vec::new();
    match &m.content {
        Some(t) => {
            if !t.as_str().is_empty() {
                out.push(AnthropicContent::Text { text: t.clone() });
            }
        },
        None => {},
    }
    assert(views(out@) =~= text_blocks(m@.content));
    let ghost p1 = views(out@);
    match &m.tool_calls {
        Some(calls) => {
            let mut i: usize = 0;
            while i < calls.len()
                invariant
                    i <= calls@.len(),
                    views(out@) =~= p1 + call_blocks(Some(views(calls@))).subrange(0, i as int),
                decreases calls@.len() - i,
            {
                let c = &calls[i];
                let ghost before = out@;
                let block = AnthropicContent::ToolUse {
                    id: c.id.clone(),
                    name: c.name.clone(),
                    input: c.arguments.copy(),
                };
                proof {
                    assert(block@ == call_blocks(Some(views(calls@)))[i as int]);
                }
                out.push(block);
                proof {
                    assert(views(out@) =~= views(before).push(block@));
                }
                i = i + 1;
            }
            assert(views(out@) =~= p1 + call_blocks(m@.tool_calls));
        },
        None => {
            assert(views(out@) =~= p1 + call_blocks(m@.tool_calls));
        },
    }
    let ghost p2 = views(out@);
    match &m.tool_results {
        Some(results) => {
            let mut i: usize = 0;
            while i < results.len()
                invariant
                    i <= results@.len(),
                    views(out@) =~= p2 + result_blocks(Some(views(results@))).subrange(
                        0,
                        i as int,
                    ),
                decreases results@.len() - i,
            {
                let c = &results[i];
                let ghost before = out@;
                let block = AnthropicContent::ToolResult {
                    tool_use_id: c.tool_call_id.clone(),
                    content: c.content.clone(),
                    is_error: if c.is_error {
                        Some(true)
                    } else {
                        None
                    },
                };
                proof {
                    assert(block@ == result_blocks(Some(views(results@)))[i as int]);
                }
                out.push(block);
                proof {
                    assert(views(out@) =~= views(before).push(block@));
                }
                i = i + 1;
            }
            assert(views(out@) =~= p2 + result_blocks(m@.tool_results));
        },
        None => {
            assert(views(out@) =~= p2 + result_blocks(m@.tool_results));
        },
    }
    out
}

/// Converts messages to the form that the API takes.
pub fn unified_to_anthropic_messages(messages: &[UnifiedMessage]) -> (r: Vec<AnthropicMessage>)
    ensures
        views(r@) == anthropic_messages(views(messages@)),
{
    let mut out: Vec<AnthropicMessage> = Vec::new();
    let mut i: usize = 0;
    proof {
        assert(views(out@) =~= anthropic_messages(views(messages@).subrange(0, 0)));
    }
    while i < messages.len()
        invariant
            i <= messages@.len(),
            views(out@) == anthropic_messages(views(messages@).subrange(0, i as int)),
        decreases messages@.len() - i,
    {
        let m = &messages[i];
        let ghost before = out@;
        proof {
            let t = views(messages@).subrange(0, i + 1);
            assert(t.drop_last() =~= views(messages@).subrange(0, i as int));
            assert(t.last() == m@);
        }
        let content = build_blocks(m);
        if content.len() > 0 {
            let message = AnthropicMessage { role: m.role.clone(), content };
            out.push(message);
            proof {
                assert(views(out@) =~= views(before).push(message@));
            }
        }
        i = i + 1;
    }
    proof {
        assert(views(messages@).subrange(0, i as int) =~= views(messages@));
    }
    out
}

/// A tool as the API takes it.
pub open spec fn tool_view(t: ToolSchemaView) -> AnthropicToolView {
    AnthropicToolView { name: t.name, description: t.description, input_schema: t.parameters }
}

/// Converts tools to the form that the API takes.
pub fn unified_to_anthropic_tools(tools: &[ToolSchema]) -> (r: Vec<AnthropicTool>)
    ensures
        views(r@) == Seq::new(tools@.len(), |i: int| tool_view(views(tools@)[i])),
{
    let mut out: Vec<AnthropicTool> = Vec::new();
    let mut i: usize = 0;
    while i < tools.len()
        invariant
            i <= tools@.len(),
            out@.len() == i,
            forall|k: int| 0 <= k < i ==> (#[trigger] out@[k])@ == tool_view(tools@[k]@),
        decreases tools@.len() - i,
    {
        let t = &tools[i];
        out.push(
            AnthropicTool {
                name: t.name.clone(),
                description: t.description.clone(),
                input_schema: t.parameters.copy(),
            },
        );
        i = i + 1;
    }
    assert(views(out@) =~= Seq::new(tools@.len(), |i: int| tool_view(views(tools@)[i])));
    out
}

/// The calls among the blocks of a message, in order.
pub open spec fn block_calls(content: Seq<AnthropicContentView>) -> Seq<UnifiedToolCallView>
    decreases content.len(),
{
    if content.len() == 0 {
        Seq::empty()
    } else {
        let rest = block_calls(content.drop_last());
        match content.last() {
            AnthropicContentView::ToolUse { id, name, input } => rest.push(
                UnifiedToolCallView { id, name, arguments: input },
            ),
            _ => rest,
        }
    }
}

/// Converts the calls among the blocks of a message.
pub fn anthropic_tool_uses_to_unified(content: &[AnthropicContent]) -> (r: Vec<UnifiedToolCall>)
    ensures
        views(r@) == block_calls(views(content@)),
{
    let mut out: Vec<UnifiedToolCall> = Vec::new();
    let mut i: usize = 0;
    proof {
        assert(views(out@) =~= block_calls(views(content@).subrange(0, 0)));
    }
    while i < content.len()
        invariant
            i <= content@.len(),
            views(out@) == block_calls(views(content@).subrange(0, i as int)),
        decreases content@.len() - i,
    {
        let ghost before = out@;
        proof {
            let t = views(content@).subrange(0, i + 1);
            assert(t.drop_last() =~= views(content@).subrange(0, i as int));
            assert(t.last() == content@[i as int]@);
        }
        match &content[i] {
            AnthropicContent::ToolUse { id, name, input } => {
                let call = UnifiedToolCall {
                    id: id.clone(),
                    name: name.clone(),
                    arguments: input.copy(),
                };
                out.push(call);
                proof {
                    assert(views(out@) =~= views(before).push(call@));
                }
            },
            _ => {},
        }
        i = i + 1;
    }
    proof {
        assert(views(content@).subrange(0, i as int) =~= views(content@));
    }
    out
}

/// The texts among the blocks of a message, in order.
pub open spec fn block_texts(content: Seq<AnthropicContentView>) -> Seq<Seq<char>>
    decreases content.len(),
{
    if content.len() == 0 {
        Seq::empty()
    } else {
        let rest = block_texts(content.drop_last());
        match content.last() {
            AnthropicContentView::Text { text } => rest.push(text),
            _ => rest,
        }
    }
}

/// The text of a message: its text blocks, a line each.
pub fn anthropic_content_to_text(content: &[AnthropicContent]) -> (r: String)
    ensures
        r@ == join(block_texts(views(content@)), "\n"@),
{
    let mut out: Vec<String> = Vec::new();
    let mut i: usize = 0;
    proof {
        assert(views(out@) =~= block_texts(views(content@).subrange(0, 0)));
    }
    while i < content.len()
        invariant
            i <= content@.len(),
            views(out@) == block_texts(views(content@).subrange(0, i as int)),
        decreases content@.len() - i,
    {
        let ghost before = out@;
        proof {
            let t = views(content@).subrange(0, i + 1);
            assert(t.drop_last() =~= views(content@).subrange(0, i as int));
            assert(t.last() == content@[i as int]@);
        }
        match &content[i] {
            AnthropicContent::Text { text } => {
                out.push(text.clone());
                proof {
                    assert(views(out@) =~= views(before).push(text@));
                }
            },
            _ => {},
        }
        i = i + 1;
    }
    proof {
        assert(views(content@).subrange(0, i as int) =~= views(content@));
    }
    joined(&out, "\n")
}

/// The calls of a message come back from the API as they went out.
pub proof fn calls_round_trip(calls: Seq<UnifiedToolCallView>)
    ensures
        block_calls(call_blocks(Some(calls))) == calls,
    decreases calls.len(),
{
    let blocks = call_blocks(Some(calls));
    if calls.len() == 0 {
        assert(block_calls(blocks) =~= calls);
    } else {
        calls_round_trip(calls.drop_last());
        assert(blocks.drop_last() =~= call_blocks(Some(calls.drop_last())));
        assert(block_calls(blocks) =~= calls);
    }
}

/// A message goes to the model with its text, its calls and its results, each under its id.
pub proof fn message_is_whole(m: UnifiedMessageView, i: int)
    ensures
        m.content is Some && m.content->0.len() > 0 ==> message_blocks(m).len() > 0
            && message_blocks(m)[0] == (AnthropicContentView::Text { text: m.content->0 }),
        m.tool_calls is Some && 0 <= i < m.tool_calls->0.len() ==> message_blocks(m).contains(
            AnthropicContentView::ToolUse {
                id: m.tool_calls->0[i].id,
                name: m.tool_calls->0[i].name,
                input: m.tool_calls->0[i].arguments,
            },
        ),
        m.tool_results is Some && 0 <= i < m.tool_results->0.len() ==> exists|k: int|
            0 <= k < message_blocks(m).len() && (
            #[trigger] message_blocks(m)[k] matches AnthropicContentView::ToolResult {
                tool_use_id,
                content,
                is_error,
            } && tool_use_id == m.tool_results->0[i].tool_call_id && content
                == m.tool_results->0[i].content && (is_error == Some(true)
                <==> m.tool_results->0[i].is_error)),
{
    let c = text_blocks(m.content).len() as int;
    if m.tool_calls is Some && 0 <= i < m.tool_calls->0.len() {
        assert(message_blocks(m)[c + i] == call_blocks(m.tool_calls)[i]);
    }
    if m.tool_results is Some && 0 <= i < m.tool_results->0.len() {
        let k = c + call_blocks(m.tool_calls).len() + i;
        assert(message_blocks(m)[k] == result_blocks(m.tool_results)[i]);
    }
}

/// No message that says anything is lost on the way to the model, and their order stays.
pub proof fn messages_keep_their_order(a: Seq<UnifiedMessageView>, m: UnifiedMessageView)
    ensures
        message_blocks(m).len() > 0 ==> anthropic_messages(a.push(m)).drop_last()
            == anthropic_messages(a) && anthropic_messages(a.push(m)).len() == anthropic_messages(
            a,
        ).len() + 1 && anthropic_messages(a.push(m)).last().content == message_blocks(m)
            && anthropic_messages(a.push(m)).last().role == m.role,
        message_blocks(m).len() == 0 ==> anthropic_messages(a.push(m)) == anthropic_messages(a),
{
    assert(a.push(m).drop_last() =~= a);
    assert(anthropic_messages(a.push(m)).drop_last() =~= anthropic_messages(a) || message_blocks(
        m,
    ).len() == 0);
}

/// The model learns of a tool as it is: its name, what it is for and its parameters.
pub proof fn tool_is_declared(t: ToolSchemaView)
    ensures
        tool_view(t).name == t.name,
        tool_view(t).description == t.description,
        tool_view(t).input_schema == t.parameters,
{
}

/// Every text of an answer is read, in order, and nothing else.
pub proof fn texts_are_read(content: Seq<AnthropicContentView>, b: AnthropicContentView)
    ensures
        match b {
            AnthropicContentView::Text { text } => block_texts(content.push(b)) == block_texts(
                content,
            ).push(text),
            _ => block_texts(content.push(b)) == block_texts(content),
        },
        block_texts(Seq::empty()).len() == 0,
{
    assert(content.push(b).drop_last() =~= content);
}

/// The calls of an answer are made as the model asked, one for each, in order.
pub proof fn calls_are_read(
    content: Seq<AnthropicContentView>,
    id: Seq<char>,
    name: Seq<char>,
    input: JsonView,
    b: AnthropicContentView,
)
    ensures
        ({
            let before = block_calls(content);
            let after = block_calls(content.push(AnthropicContentView::ToolUse { id, name, input }));
            &&& after.len() == before.len() + 1
            &&& after.drop_last() == before
            &&& after.last().id == id
            &&& after.last().name == name
            &&& after.last().arguments == input
        }),
        !(b is ToolUse) ==> block_calls(content.push(b)) == block_calls(content),
{
    let u = AnthropicContentView::ToolUse { id, name, input };
    assert(content.push(u).drop_last() =~= content);
    assert(content.push(b).drop_last() =~= content);
    assert(block_calls(content.push(u)).drop_last() =~= block_calls(content));
}

/// A message of text alone has one block with that text.
pub proof fn text_alone_is_one_block(role: Seq<char>, text: Seq<char>)
    ensures
        text_message(role, text).role == role,
        text_message(role, text).content.len() == 1,
        text_message(role, text).content[0] == (AnthropicContentView::Text { text }),
{
}

} // verus!
