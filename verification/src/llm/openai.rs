//! The OpenAI API: its messages and the conversion to and from them.
use crate::duplicate::{duplicate_opt, views_opt, Duplicate};
use crate::events::{
    ToolSchema, ToolSchemaView, UnifiedMessage, UnifiedMessageView, UnifiedToolCall,
    UnifiedToolCallView, UnifiedToolResultView,
};
use crate::json::{Json, JsonView};
pub use crate::llm::dispatch::tool_call_to_dispatch_request;
use crate::outside::{json_of_text, json_to_text, settle};
use crate::text::{own, view_opt, views};
use vstd::prelude::*;

verus! {

/// A call that the model asks for; the arguments are the text of a document.
pub struct OpenAiFunctionCall {
    pub name: String,
    pub arguments: String,
}

/// The mathematical content of a [`OpenAiFunctionCall`].
pub struct OpenAiFunctionCallView {
    pub name: Seq<char>,
    pub arguments: Seq<char>,
}

impl View for OpenAiFunctionCall {
    type V = OpenAiFunctionCallView;

    open spec fn view(&self) -> OpenAiFunctionCallView {
        OpenAiFunctionCallView {
            name: self.name@,
            arguments: self.arguments@,
        }
    }
}

impl Duplicate for OpenAiFunctionCall {
    fn copy(&self) -> (r: OpenAiFunctionCall) {
        OpenAiFunctionCall {
            name: self.name.clone(),
            arguments: self.arguments.clone(),
        }
    }
}

/// A call of a tool.
pub struct OpenAiToolCall {
    pub id: String,
    pub call_type: String,
    pub function: OpenAiFunctionCall,
}

/// The mathematical content of a [`OpenAiToolCall`].
pub struct OpenAiToolCallView {
    pub id: Seq<char>,
    pub call_type: Seq<char>,
    pub function: OpenAiFunctionCallView,
}

impl View for OpenAiToolCall {
    type V = OpenAiToolCallView;

    open spec fn view(&self) -> OpenAiToolCallView {
        OpenAiToolCallView {
            id: self.id@,
            call_type: self.call_type@,
            function: self.function@,
        }
    }
}

impl Duplicate for OpenAiToolCall {
    fn copy(&self) -> (r: OpenAiToolCall) {
        OpenAiToolCall {
            id: self.id.clone(),
            call_type: self.call_type.clone(),
            function: self.function.copy(),
        }
    }
}

/// A message.
pub struct OpenAiMessage {
    pub role: String,
    pub content: Option<String>,
    pub tool_call_id: Option<String>,
    pub tool_calls: Option<Vec<OpenAiToolCall>>,
}

/// The mathematical content of a [`OpenAiMessage`].
pub struct OpenAiMessageView {
    pub role: Seq<char>,
    pub content: Option<Seq<char>>,
    pub tool_call_id: Option<Seq<char>>,
    pub tool_calls: Option<Seq<OpenAiToolCallView>>,
}

impl View for OpenAiMessage {
    type V = OpenAiMessageView;

    open spec fn view(&self) -> OpenAiMessageView {
        OpenAiMessageView {
            role: self.role@,
            content: view_opt(self.content),
            tool_call_id: view_opt(self.tool_call_id),
            tool_calls: views_opt(self.tool_calls),
        }
    }
}

/// A function that the model may call.
pub struct OpenAiFunctionSchema {
    pub name: String,
    pub description: String,
    pub parameters: Json,
}

/// The mathematical content of a [`OpenAiFunctionSchema`].
pub struct OpenAiFunctionSchemaView {
    pub name: Seq<char>,
    pub description: Seq<char>,
    pub parameters: JsonView,
}

impl View for OpenAiFunctionSchema {
    type V = OpenAiFunctionSchemaView;

    open spec fn view(&self) -> OpenAiFunctionSchemaView {
        OpenAiFunctionSchemaView {
            name: self.name@,
            description: self.description@,
            parameters: self.parameters@,
        }
    }
}

impl Duplicate for OpenAiFunctionSchema {
    fn copy(&self) -> (r: OpenAiFunctionSchema) {
        OpenAiFunctionSchema {
            name: self.name.clone(),
            description: self.description.clone(),
            parameters: self.parameters.copy(),
        }
    }
}

/// A tool that the model may call.
pub struct OpenAiTool {
    pub tool_type: String,
    pub function: OpenAiFunctionSchema,
}

/// The mathematical content of a [`OpenAiTool`].
pub struct OpenAiToolView {
    pub tool_type: Seq<char>,
    pub function: OpenAiFunctionSchemaView,
}

impl View for OpenAiTool {
    type V = OpenAiToolView;

    open spec fn view(&self) -> OpenAiToolView {
        OpenAiToolView {
            tool_type: self.tool_type@,
            function: self.function@,
        }
    }
}

impl Duplicate for OpenAiTool {
    fn copy(&self) -> (r: OpenAiTool) {
        OpenAiTool {
            tool_type: self.tool_type.clone(),
            function: self.function.copy(),
        }
    }
}

/// The result of a call.
pub open spec fn tool_result_message(
    tool_call_id: Seq<char>,
    content: Seq<char>,
) -> OpenAiMessageView {
    OpenAiMessageView {
        role: "tool"@,
        content: Some(content),
        tool_call_id: Some(tool_call_id),
        tool_calls: None,
    }
}

impl OpenAiMessage {
    /// The result of a call.
    pub fn tool_result(tool_call_id: &str, content: &str) -> (r: OpenAiMessage)
        ensures
            r@ == tool_result_message(tool_call_id@, content@),
    {
        OpenAiMessage {
            role: own("tool"),
            content: Some(own(content)),
            tool_call_id: Some(own(tool_call_id)),
            tool_calls: None,
        }
    }
}

/// A call as the API takes it.
pub open spec fn call_view(c: UnifiedToolCallView) -> OpenAiToolCallView {
    OpenAiToolCallView {
        id: c.id,
        call_type: "function"@,
        function: OpenAiFunctionCallView {
            name: c.name,
            arguments: json_to_text(settle(c.arguments)),
        },
    }
}

/// The message without its results.
pub open spec fn main_message(m: UnifiedMessageView) -> OpenAiMessageView {
    OpenAiMessageView {
        role: m.role,
        content: m.content,
        tool_call_id: None,
        tool_calls: match m.tool_calls {
            Some(c) => Some(Seq::new(c.len(), |i: int| call_view(c[i]))),
            None => None,
        },
    }
}

/// The results in a message, a message each.
pub open spec fn result_messages(results: Option<Seq<UnifiedToolResultView>>) -> Seq<
    OpenAiMessageView,
> {
    match results {
        Some(c) => Seq::new(
            c.len(),
            |i: int| tool_result_message(c[i].tool_call_id, c[i].content),
        ),
        None => Seq::empty(),
    }
}

/// The messages as the API takes them: each followed by its results.
pub open spec fn openai_messages(messages: Seq<UnifiedMessageView>) -> Seq<OpenAiMessageView>
    decreases messages.len(),
{
    if messages.len() == 0 {
        Seq::empty()
    } else {
        let m = messages.last();
        openai_messages(messages.drop_last()).push(main_message(m)) + result_messages(
            m.tool_results,
        )
    }
}

/// Converts the calls of a message.
fn convert_calls(calls: &Vec<UnifiedToolCall>) -> (r: Vec<OpenAiToolCall>)
    ensures
        views(r@) == Seq::new(calls@.len(), |i: int| call_view(views(calls@)[i])),
{
    let mut out: Vec<OpenAiToolCall> = Vec::new();
    let mut i: usize = 0;
    while i < calls.len()
        invariant
            i <= calls@.len(),
            out@.len() == i,
            forall|k: int| 0 <= k < i ==> (#[trigger] out@[k])@ == call_view(calls@[k]@),
        decreases calls@.len() - i,
    {
        let c = &calls[i];
        out.push(
            OpenAiToolCall {
                id: c.id.clone(),
                call_type: own("function"),
                function: OpenAiFunctionCall {
                    name: c.name.clone(),
                    arguments: c.arguments.print(),
                },
            },
        );
        i = i + 1;
    }
    assert(views(out@) =~= Seq::new(calls@.len(), |i: int| call_view(views(calls@)[i])));
    out
}

/// Converts messages to the form that the API takes.
pub fn unified_to_openai_messages(messages: &[UnifiedMessage]) -> (r: Vec<OpenAiMessage>)
    ensures
        views(r@) == openai_messages(views(messages@)),
{
    let mut out: Vec<OpenAiMessage> = Vec::new();
    let mut i: usize = 0;
    proof {
        assert(views(out@) =~= openai_messages(views(messages@).subrange(0, 0)));
    }
    while i < messages.len()
        invariant
            i <= messages@.len(),
            views(out@) == openai_messages(views(messages@).subrange(0, i as int)),
        decreases messages@.len() - i,
    {
        let m = &messages[i];
        let ghost before = views(out@);
        proof {
            let t = views(messages@).subrange(0, i + 1);
            assert(t.drop_last() =~= views(messages@).subrange(0, i as int));
            assert(t.last() == m@);
        }
        let tool_calls = match &m.tool_calls {
            Some(calls) => Some(convert_calls(calls)),
            None => None,
        };
        let main = OpenAiMessage {
            role: m.role.clone(),
            content: duplicate_opt(&m.content),
            tool_call_id: None,
            tool_calls,
        };
        out.push(main);
        proof {
            assert(main@.tool_calls == main_message(m@).tool_calls);
            assert(views(out@) =~= before.push(main_message(m@)));
        }
        let ghost mid = views(out@);
        match &m.tool_results {
            Some(results) => {
                let mut k: usize = 0;
                while k < results.len()
                    invariant
                        k <= results@.len(),
                        views(out@) =~= mid + result_messages(Some(views(results@))).subrange(
                            0,
                            k as int,
                        ),
                    decreases results@.len() - k,
                {
                    let ghost old_out = out@;
                    let x = OpenAiMessage::tool_result(
                        &results[k].tool_call_id,
                        &results[k].content,
                    );
                    proof {
                        assert(x@ == result_messages(Some(views(results@)))[k as int]);
                    }
                    out.push(x);
                    proof {
                        assert(views(out@) =~= views(old_out).push(x@));
                    }
                    k = k + 1;
                }
                assert(views(out@) =~= mid + result_messages(m@.tool_results));
            },
            None => {
                assert(views(out@) =~= mid + result_messages(m@.tool_results));
            },
        }
        i = i + 1;
    }
    proof {
        assert(views(messages@).subrange(0, i as int) =~= views(messages@));
    }
    out
}

/// A tool as the API takes it.
pub open spec fn tool_view(t: ToolSchemaView) -> OpenAiToolView {
    OpenAiToolView {
        tool_type: "function"@,
        function: OpenAiFunctionSchemaView {
            name: t.name,
            description: t.description,
            parameters: t.parameters,
        },
    }
}

/// Converts tools to the form that the API takes.
pub fn unified_to_openai_tools(tools: &[ToolSchema]) -> (r: Vec<OpenAiTool>)
    ensures
        views(r@) == Seq::new(tools@.len(), |i: int| tool_view(views(tools@)[i])),
{
    let mut out: Vec<OpenAiTool> = Vec::new();
    let mut i: usize = 0;
    while i < tools.len()
        invariant
            i <= tools@.len(),
            out@.len() == i,
            forall|k: int| 0 <= k < i ==> (#[trigger] out@[k])@ == tool_view(tools@[k]@),
        decreases tools@.len() - i,
    {
        let t = &tools[i];
        out.push(
            OpenAiTool {
                tool_type: own("function"),
                function: OpenAiFunctionSchema {
                    name: t.name.clone(),
                    description: t.description.clone(),
                    parameters: t.parameters.copy(),
                },
            },
        );
        i = i + 1;
    }
    assert(views(out@) =~= Seq::new(tools@.len(), |i: int| tool_view(views(tools@)[i])));
    out
}

/// A call of the model in the form of the platform; arguments that are no
/// document count as an empty object.
pub open spec fn unified_call(c: OpenAiToolCallView) -> UnifiedToolCallView {
    UnifiedToolCallView {
        id: c.id,
        name: c.function.name,
        arguments: match json_of_text(c.function.arguments) {
            Ok(v) => v,
            Err(_) => JsonView::object(),
        },
    }
}

/// Converts the calls of the model.
pub fn openai_tool_calls_to_unified(tool_calls: &[OpenAiToolCall]) -> (r: Vec<UnifiedToolCall>)
    ensures
        views(r@) == Seq::new(tool_calls@.len(), |i: int| unified_call(views(tool_calls@)[i])),
{
    let mut out: Vec<UnifiedToolCall> = Vec::new();
    let mut i: usize = 0;
    while i < tool_calls.len()
        invariant
            i <= tool_calls@.len(),
            out@.len() == i,
            forall|k: int| 0 <= k < i ==> (#[trigger] out@[k])@ == unified_call(tool_calls@[k]@),
        decreases tool_calls@.len() - i,
    {
        let c = &tool_calls[i];
        let arguments = match Json::parse(&c.function.arguments) {
            Ok(v) => v,
            Err(_) => Json::object(),
        };
        out.push(
            UnifiedToolCall { id: c.id.clone(), name: c.function.name.clone(), arguments },
        );
        i = i + 1;
    }
    assert(views(out@) =~= Seq::new(
        tool_calls@.len(),
        |i: int| unified_call(views(tool_calls@)[i]),
    ));
    out
}

/// A message goes to the model with its role, its text and its calls, and behind it stand
/// its results under the ids of their calls; the order of the messages stays.
pub proof fn messages_are_whole(a: Seq<UnifiedMessageView>, m: UnifiedMessageView)
    ensures
        ({
            let before = openai_messages(a);
            let after = openai_messages(a.push(m));
            let n = before.len() as int;
            let k = if m.tool_results is Some {
                m.tool_results->0.len()
            } else {
                0
            };
            &&& after.len() == n + 1 + k
            &&& after.subrange(0, n) == before
            &&& after[n].role == m.role
            &&& after[n].content == m.content
            &&& after[n].tool_calls is Some <==> m.tool_calls is Some
            &&& m.tool_calls matches Some(c) ==> after[n].tool_calls->0.len() == c.len() && forall|
                i: int,
            |
                0 <= i < c.len() ==> (#[trigger] after[n].tool_calls->0[i]).function.name == c[i].name
                    && after[n].tool_calls->0[i].call_type == "function"@
                    && after[n].tool_calls->0[i].function.arguments == json_to_text(
                    settle(c[i].arguments),
                ) && after[n].tool_calls->0[i].id == c[i].id
            &&& m.tool_results matches Some(t) ==> forall|i: int|
                0 <= i < t.len() ==> (#[trigger] after[n + 1 + i]).role == "tool"@ && after[n + 1
                    + i].content == Some(t[i].content) && after[n + 1 + i].tool_call_id == Some(
                    t[i].tool_call_id,
                )
        }),
{
    assert(a.push(m).drop_last() =~= a);
    let before = openai_messages(a);
    let after = openai_messages(a.push(m));
    let n = before.len() as int;
    assert(after.subrange(0, n) =~= before);
    assert(after[n] == main_message(m));
    if m.tool_results is Some {
        let t = m.tool_results->0;
        assert forall|i: int| 0 <= i < t.len() implies (#[trigger] after[n + 1 + i]).role
            == "tool"@ && after[n + 1 + i].content == Some(t[i].content) && after[n + 1
            + i].tool_call_id == Some(t[i].tool_call_id) by {
            assert(after[n + 1 + i] == result_messages(m.tool_results)[i]);
        }
    }
}

/// The model learns of a tool as it is: its name, what it is for and its parameters.
pub proof fn tool_is_declared(t: ToolSchemaView)
    ensures
        tool_view(t).function.name == t.name,
        tool_view(t).function.description == t.description,
        tool_view(t).function.parameters == t.parameters,
        tool_view(t).tool_type == "function"@,
{
}

/// A call is made as the model asked: its arguments are read from their text.
pub proof fn call_is_read(c: OpenAiToolCallView)
    ensures
        unified_call(c).id == c.id,
        unified_call(c).name == c.function.name,
        json_of_text(c.function.arguments) matches Ok(v) ==> unified_call(c).arguments == v,
{
}

} // verus!
