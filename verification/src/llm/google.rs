//! The Gemini API: its messages, the conversion to and from them, and the tool
//! loop.
use crate::duplicate::{
    duplicate_all, duplicate_all_opt, duplicate_opt, views_opt, Duplicate,
};
use crate::events::{
    LlmResponse, TokenUsage, ToolSchema, ToolSchemaView, UnifiedMessage, UnifiedMessageView,
    UnifiedToolCall, UnifiedToolCallView, UnifiedToolResultView,
};
use crate::json::{Json, JsonView};
pub use crate::llm::dispatch::tool_call_to_dispatch_request;
use crate::llm::dispatch::{
    final_response, some_text, text_or_none, tool_answer, tool_response, ToolOutcome,
};
use crate::llm::period::states_differ;
use crate::outside::{json_to_text, settle};
use crate::text::{
    cat2, cat3, cat4, contains, decimal, decimal_of, join, joined, own, part_stands_in_whole,
    pieces_stand_in_join, replace_char, same, swap_char, view_opt, views,
};
use vstd::arithmetic::power::pow;
use vstd::prelude::*;

verus! {

/// A call that the model asks for.
pub struct GeminiFunctionCall {
    pub name: String,
    pub args: Json,
}

/// The mathematical content of a [`GeminiFunctionCall`].
pub struct GeminiFunctionCallView {
    pub name: Seq<char>,
    pub args: JsonView,
}

impl View for GeminiFunctionCall {
    type V = GeminiFunctionCallView;

    open spec fn view(&self) -> GeminiFunctionCallView {
        GeminiFunctionCallView {
            name: self.name@,
            args: self.args@,
        }
    }
}

impl Duplicate for GeminiFunctionCall {
    fn copy(&self) -> (r: GeminiFunctionCall) {
        GeminiFunctionCall {
            name: self.name.clone(),
            args: self.args.copy(),
        }
    }
}

/// What a called function gave back.
pub struct GeminiFunctionResponse {
    pub name: String,
    pub response: Json,
}

/// The mathematical content of a [`GeminiFunctionResponse`].
pub struct GeminiFunctionResponseView {
    pub name: Seq<char>,
    pub response: JsonView,
}

impl View for GeminiFunctionResponse {
    type V = GeminiFunctionResponseView;

    open spec fn view(&self) -> GeminiFunctionResponseView {
        GeminiFunctionResponseView {
            name: self.name@,
            response: self.response@,
        }
    }
}

impl Duplicate for GeminiFunctionResponse {
    fn copy(&self) -> (r: GeminiFunctionResponse) {
        GeminiFunctionResponse {
            name: self.name.clone(),
            response: self.response.copy(),
        }
    }
}

/// A part of a message: text, a call or the answer to one.
pub struct GeminiPart {
    pub text: Option<String>,
    pub function_call: Option<GeminiFunctionCall>,
    pub function_response: Option<GeminiFunctionResponse>,
}

/// The mathematical content of a [`GeminiPart`].
pub struct GeminiPartView {
    pub text: Option<Seq<char>>,
    pub function_call: Option<GeminiFunctionCallView>,
    pub function_response: Option<GeminiFunctionResponseView>,
}

impl View for GeminiPart {
    type V = GeminiPartView;

    open spec fn view(&self) -> GeminiPartView {
        GeminiPartView {
            text: view_opt(self.text),
            function_call: view_opt(self.function_call),
            function_response: view_opt(self.function_response),
        }
    }
}

impl Duplicate for GeminiPart {
    fn copy(&self) -> (r: GeminiPart) {
        GeminiPart {
            text: duplicate_opt(&self.text),
            function_call: duplicate_opt(&self.function_call),
            function_response: duplicate_opt(&self.function_response),
        }
    }
}

/// A message.
pub struct GeminiContent {
    pub role: String,
    pub parts: Vec<GeminiPart>,
}

/// The mathematical content of a [`GeminiContent`].
pub struct GeminiContentView {
    pub role: Seq<char>,
    pub parts: Seq<GeminiPartView>,
}

impl View for GeminiContent {
    type V = GeminiContentView;

    open spec fn view(&self) -> GeminiContentView {
        GeminiContentView {
            role: self.role@,
            parts: views(self.parts@),
        }
    }
}

impl Duplicate for GeminiContent {
    fn copy(&self) -> (r: GeminiContent) {
        GeminiContent {
            role: self.role.clone(),
            parts: duplicate_all(&self.parts),
        }
    }
}

/// A function that the model may call.
pub struct GeminiFunctionDeclaration {
    pub name: String,
    pub description: String,
    pub parameters: Json,
}

/// The mathematical content of a [`GeminiFunctionDeclaration`].
pub struct GeminiFunctionDeclarationView {
    pub name: Seq<char>,
    pub description: Seq<char>,
    pub parameters: JsonView,
}

impl View for GeminiFunctionDeclaration {
    type V = GeminiFunctionDeclarationView;

    open spec fn view(&self) -> GeminiFunctionDeclarationView {
        GeminiFunctionDeclarationView {
            name: self.name@,
            description: self.description@,
            parameters: self.parameters@,
        }
    }
}

impl Duplicate for GeminiFunctionDeclaration {
    fn copy(&self) -> (r: GeminiFunctionDeclaration) {
        GeminiFunctionDeclaration {
            name: self.name.clone(),
            description: self.description.clone(),
            parameters: self.parameters.copy(),
        }
    }
}

/// A group of functions that the model may call.
pub struct GeminiToolDeclaration {
    pub function_declarations: Vec<GeminiFunctionDeclaration>,
}

/// The mathematical content of a [`GeminiToolDeclaration`].
pub struct GeminiToolDeclarationView {
    pub function_declarations: Seq<GeminiFunctionDeclarationView>,
}

impl View for GeminiToolDeclaration {
    type V = GeminiToolDeclarationView;

    open spec fn view(&self) -> GeminiToolDeclarationView {
        GeminiToolDeclarationView {
            function_declarations: views(self.function_declarations@),
        }
    }
}

impl Duplicate for GeminiToolDeclaration {
    fn copy(&self) -> (r: GeminiToolDeclaration) {
        GeminiToolDeclaration {
            function_declarations: duplicate_all(&self.function_declarations),
        }
    }
}

/// The system prompt.
pub struct GeminiSystemInstruction {
    pub parts: Vec<GeminiPart>,
}

/// The mathematical content of a [`GeminiSystemInstruction`].
pub struct GeminiSystemInstructionView {
    pub parts: Seq<GeminiPartView>,
}

impl View for GeminiSystemInstruction {
    type V = GeminiSystemInstructionView;

    open spec fn view(&self) -> GeminiSystemInstructionView {
        GeminiSystemInstructionView {
            parts: views(self.parts@),
        }
    }
}

impl Duplicate for GeminiSystemInstruction {
    fn copy(&self) -> (r: GeminiSystemInstruction) {
        GeminiSystemInstruction {
            parts: duplicate_all(&self.parts),
        }
    }
}

/// The limits of a generation. The temperature travels beside it.
#[derive(Clone, Copy)]
pub struct GeminiGenerationConfig {
    pub max_output_tokens: Option<u32>,
}

/// A request to the API.
pub struct GeminiRequest {
    pub contents: Vec<GeminiContent>,
    pub system_instruction: Option<GeminiSystemInstruction>,
    pub generation_config: Option<GeminiGenerationConfig>,
    pub tools: Option<Vec<GeminiToolDeclaration>>,
}

/// The mathematical content of a [`GeminiRequest`].
pub struct GeminiRequestView {
    pub contents: Seq<GeminiContentView>,
    pub system_instruction: Option<GeminiSystemInstructionView>,
    pub generation_config: Option<GeminiGenerationConfig>,
    pub tools: Option<Seq<GeminiToolDeclarationView>>,
}

impl View for GeminiRequest {
    type V = GeminiRequestView;

    open spec fn view(&self) -> GeminiRequestView {
        GeminiRequestView {
            contents: views(self.contents@),
            system_instruction: view_opt(self.system_instruction),
            generation_config: self.generation_config,
            tools: views_opt(self.tools),
        }
    }
}

/// How many tokens a response took.
#[derive(Clone, Copy)]
pub struct GeminiUsageMetadata {
    pub prompt_token_count: u32,
    pub candidates_token_count: u32,
    pub total_token_count: u32,
}

/// An error that the API reports.
pub struct GeminiErrorDetail {
    pub message: String,
    pub code: Option<i32>,
}

/// The mathematical content of a [`GeminiErrorDetail`].
pub struct GeminiErrorDetailView {
    pub message: Seq<char>,
    pub code: Option<i32>,
}

impl View for GeminiErrorDetail {
    type V = GeminiErrorDetailView;

    open spec fn view(&self) -> GeminiErrorDetailView {
        GeminiErrorDetailView {
            message: self.message@,
            code: self.code,
        }
    }
}

/// One answer of the model.
pub struct GeminiCandidate {
    pub content: GeminiContent,
    pub finish_reason: Option<String>,
}

/// The mathematical content of a [`GeminiCandidate`].
pub struct GeminiCandidateView {
    pub content: GeminiContentView,
    pub finish_reason: Option<Seq<char>>,
}

impl View for GeminiCandidate {
    type V = GeminiCandidateView;

    open spec fn view(&self) -> GeminiCandidateView {
        GeminiCandidateView {
            content: self.content@,
            finish_reason: view_opt(self.finish_reason),
        }
    }
}

/// A response of the API.
pub struct GeminiResponse {
    pub candidates: Vec<GeminiCandidate>,
    pub usage_metadata: Option<GeminiUsageMetadata>,
    pub error: Option<GeminiErrorDetail>,
}

/// The mathematical content of a [`GeminiResponse`].
pub struct GeminiResponseView {
    pub candidates: Seq<GeminiCandidateView>,
    pub usage_metadata: Option<GeminiUsageMetadata>,
    pub error: Option<GeminiErrorDetailView>,
}

impl View for GeminiResponse {
    type V = GeminiResponseView;

    open spec fn view(&self) -> GeminiResponseView {
        GeminiResponseView {
            candidates: views(self.candidates@),
            usage_metadata: self.usage_metadata,
            error: view_opt(self.error),
        }
    }
}

/// A part that is text.
pub open spec fn text_part_view(text: Seq<char>) -> GeminiPartView {
    GeminiPartView { text: Some(text), function_call: None, function_response: None }
}

/// A part that is a call.
pub open spec fn call_part_view(name: Seq<char>, args: JsonView) -> GeminiPartView {
    GeminiPartView {
        text: None,
        function_call: Some(GeminiFunctionCallView { name, args }),
        function_response: None,
    }
}

/// A part that is the answer to a call.
pub open spec fn response_part_view(name: Seq<char>, response: JsonView) -> GeminiPartView {
    GeminiPartView {
        text: None,
        function_call: None,
        function_response: Some(GeminiFunctionResponseView { name, response }),
    }
}

impl GeminiContent {
    /// A message of one text.
    pub fn text(role: &str, content: &str) -> (r: GeminiContent)
        ensures
            r@ == (GeminiContentView { role: role@, parts: seq![text_part_view(content@)] }),
    {
        let r = GeminiContent { role: own(role), parts: vec![GeminiPart::text_part(content)] };
        assert(r@.parts =~= seq![text_part_view(content@)]);
        r
    }
}

impl GeminiPart {
    /// A part that is text.
    pub fn text_part(text: &str) -> (r: GeminiPart)
        ensures
            r@ == text_part_view(text@),
    {
        GeminiPart { text: Some(own(text)), function_call: None, function_response: None }
    }

    /// A part that is a call.
    pub fn function_call_part(name: &str, args: Json) -> (r: GeminiPart)
        ensures
            r@ == call_part_view(name@, args@),
    {
        GeminiPart {
            text: None,
            function_call: Some(GeminiFunctionCall { name: own(name), args }),
            function_response: None,
        }
    }

    /// A part that is the answer to a call.
    pub fn function_response_part(name: &str, response: Json) -> (r: GeminiPart)
        ensures
            r@ == response_part_view(name@, response@),
    {
        GeminiPart {
            text: None,
            function_call: None,
            function_response: Some(GeminiFunctionResponse { name: own(name), response }),
        }
    }
}

// ---------------------------------------------------------------------------
// Conversion
// ---------------------------------------------------------------------------

/// A tool name as the API takes it: hyphens become underscores.
pub open spec fn sanitized(name: Seq<char>) -> Seq<char> {
    replace_char(name, '-', '_')
}

/// A tool name of the platform: underscores become hyphens.
pub open spec fn unsanitized(name: Seq<char>) -> Seq<char> {
    replace_char(name, '_', '-')
}

/// A tool name as the API takes it.
pub fn sanitize_tool_name(name: &str) -> (r: String)
    ensures
        r@ == sanitized(name@),
{
    swap_char(name, '-', '_')
}

/// A tool name of the platform.
pub fn unsanitize_tool_name(name: &str) -> (r: String)
    ensures
        r@ == unsanitized(name@),
{
    swap_char(name, '_', '-')
}

/// A tool name without underscores comes back from the API unchanged.
pub proof fn sanitize_round_trip(name: Seq<char>)
    requires
        !name.contains('_'),
    ensures
        unsanitized(sanitized(name)) == name,
{
    assert(unsanitized(sanitized(name)) =~= name) by {
        assert forall|i: int| 0 <= i < name.len() implies name[i] != '_' by {
            assert(name.contains(name[i]));
        }
    }
}

/// The role of a message as the API names it.
pub open spec fn gemini_role(role: Seq<char>) -> Seq<char> {
    if role == "assistant"@ {
        "model"@
    } else {
        role
    }
}

/// The part of a text, unless it is empty or missing.
pub open spec fn content_parts(content: Option<Seq<char>>) -> Seq<GeminiPartView> {
    match content {
        Some(t) => if t.len() > 0 {
            seq![text_part_view(t)]
        } else {
            Seq::empty()
        },
        None => Seq::empty(),
    }
}

/// The parts of the calls in a message.
pub open spec fn call_parts(calls: Option<Seq<UnifiedToolCallView>>) -> Seq<GeminiPartView> {
    match calls {
        Some(c) => Seq::new(
            c.len(),
            |i: int| call_part_view(sanitized(c[i].name), c[i].arguments),
        ),
        None => Seq::empty(),
    }
}

/// The document that carries a tool's result.
pub open spec fn result_json(result: Seq<char>, is_error: bool) -> JsonView {
    JsonView::object().put("result"@, JsonView::Text(result)).put(
        "is_error"@,
        JsonView::Bool(is_error),
    )
}

/// The document that carries a tool's result.
fn result_document(result: &str, is_error: bool) -> (r: Json)
    ensures
        r@ == result_json(result@, is_error),
{
    Json::object().put("result", Json::text(result)).put("is_error", Json::Bool(is_error))
}

/// The parts of the results in a message.
pub open spec fn result_parts(results: Option<Seq<UnifiedToolResultView>>) -> Seq<GeminiPartView> {
    match results {
        Some(c) => Seq::new(
            c.len(),
            |i: int|
                response_part_view(
                    sanitized(c[i].tool_call_id),
                    result_json(c[i].content, c[i].is_error),
                ),
        ),
        None => Seq::empty(),
    }
}

/// All parts of a message: its text, its calls and its results.
pub open spec fn message_parts(m: UnifiedMessageView) -> Seq<GeminiPartView> {
    content_parts(m.content) + call_parts(m.tool_calls) + result_parts(m.tool_results)
}

/// The messages as the API takes them; one without parts is left out.
pub open spec fn gemini_contents(messages: Seq<UnifiedMessageView>) -> Seq<GeminiContentView>
    decreases messages.len(),
{
    if messages.len() == 0 {
        Seq::empty()
    } else {
        let m = messages.last();
        let rest = gemini_contents(messages.drop_last());
        if message_parts(m).len() == 0 {
            rest
        } else {
            rest.push(GeminiContentView { role: gemini_role(m.role), parts: message_parts(m) })
        }
    }
}

/// Builds the parts of a message.
fn build_parts(m: &UnifiedMessage) -> (r: Vec<GeminiPart>)
    ensures
        views(r@) == message_parts(m@),
{
    let mut parts: Vec<GeminiPart> = Vec::new();
    match &m.content {
        Some(t) => {
            if !t.as_str().is_empty() {
                parts.push(GeminiPart::text_part(t));
            }
        },
        None => {},
    }
    assert(views(parts@) =~= content_parts(m@.content));
    let ghost p1 = views(parts@);
    match &m.tool_calls {
        Some(calls) => {
            let mut i: usize = 0;
            while i < calls.len()
                invariant
                    i <= calls@.len(),
                    views(parts@) =~= p1 + call_parts(Some(views(calls@))).subrange(0, i as int),
                decreases calls@.len() - i,
            {
                let c = &calls[i];
                let ghost before = parts@;
                let name = sanitize_tool_name(&c.name);
                let part = GeminiPart::function_call_part(&name, c.arguments.copy());
                proof {
                    assert(part@ == call_parts(Some(views(calls@)))[i as int]);
                }
                parts.push(part);
                proof {
                    assert(views(parts@) =~= views(before).push(part@));
                }
                i = i + 1;
            }
            assert(views(parts@) =~= p1 + call_parts(m@.tool_calls));
        },
        None => {
            assert(views(parts@) =~= p1 + call_parts(m@.tool_calls));
        },
    }
    let ghost p2 = views(parts@);
    match &m.tool_results {
        Some(results) => {
            let mut i: usize = 0;
            while i < results.len()
                invariant
                    i <= results@.len(),
                    views(parts@) =~= p2 + result_parts(Some(views(results@))).subrange(
                        0,
                        i as int,
                    ),
                decreases results@.len() - i,
            {
                let c = &results[i];
                let ghost before = parts@;
                let name = sanitize_tool_name(&c.tool_call_id);
                let part = GeminiPart::function_response_part(
                    &name,
                    result_document(&c.content, c.is_error),
                );
                proof {
                    assert(part@ == result_parts(Some(views(results@)))[i as int]);
                }
                parts.push(part);
                proof {
                    assert(views(parts@) =~= views(before).push(part@));
                }
                i = i + 1;
            }
            assert(views(parts@) =~= p2 + result_parts(m@.tool_results));
        },
        None => {
            assert(views(parts@) =~= p2 + result_parts(m@.tool_results));
        },
    }
    parts
}

/// Converts messages to the form that the API takes.
pub fn unified_to_gemini_contents(messages: &[UnifiedMessage]) -> (r: Vec<GeminiContent>)
    ensures
        views(r@) == gemini_contents(views(messages@)),
{
    let mut out: Vec<GeminiContent> = Vec::new();
    let mut i: usize = 0;
    proof {
        assert(views(out@) =~= gemini_contents(views(messages@).subrange(0, 0)));
    }
    while i < messages.len()
        invariant
            i <= messages@.len(),
            views(out@) == gemini_contents(views(messages@).subrange(0, i as int)),
        decreases messages@.len() - i,
    {
        let m = &messages[i];
        let ghost before = out@;
        proof {
            let t = views(messages@).subrange(0, i + 1);
            assert(t.drop_last() =~= views(messages@).subrange(0, i as int));
            assert(t.last() == m@);
        }
        let parts = build_parts(m);
        if parts.len() > 0 {
            let role = if same(&m.role, "assistant") {
                own("model")
            } else {
                m.role.clone()
            };
            let content = GeminiContent { role, parts };
            out.push(content);
            proof {
                assert(views(out@) =~= views(before).push(content@));
            }
        }
        i = i + 1;
    }
    proof {
        assert(views(messages@).subrange(0, i as int) =~= views(messages@));
    }
    out
}

/// The declaration of a tool.
pub open spec fn function_declaration(t: ToolSchemaView) -> GeminiFunctionDeclarationView {
    GeminiFunctionDeclarationView {
        name: sanitized(t.name),
        description: t.description,
        parameters: t.parameters,
    }
}

/// The tools as the API takes them: one group, or none when there are no tools.
pub open spec fn gemini_tools(tools: Seq<ToolSchemaView>) -> Seq<GeminiToolDeclarationView> {
    if tools.len() == 0 {
        Seq::empty()
    } else {
        seq![
            GeminiToolDeclarationView {
                function_declarations: Seq::new(
                    tools.len(),
                    |i: int| function_declaration(tools[i]),
                ),
            },
        ]
    }
}

/// Converts tools to the form that the API takes.
pub fn unified_to_gemini_tools(tools: &[ToolSchema]) -> (r: Vec<GeminiToolDeclaration>)
    ensures
        views(r@) == gemini_tools(views(tools@)),
{
    if tools.len() == 0 {
        let none: Vec<GeminiToolDeclaration> = Vec::new();
        assert(views(none@) =~= gemini_tools(views(tools@)));
        return none;
    }
    let mut out: Vec<GeminiFunctionDeclaration> = Vec::new();
    let mut i: usize = 0;
    while i < tools.len()
        invariant
            i <= tools@.len(),
            out@.len() == i,
            forall|k: int| 0 <= k < i ==> (#[trigger] out@[k])@ == function_declaration(tools@[k]@),
        decreases tools@.len() - i,
    {
        let t = &tools[i];
        out.push(
            GeminiFunctionDeclaration {
                name: sanitize_tool_name(&t.name),
                description: t.description.clone(),
                parameters: t.parameters.copy(),
            },
        );
        i = i + 1;
    }
    let group = GeminiToolDeclaration { function_declarations: out };
    let r = vec![group];
    proof {
        assert(group@.function_declarations =~= Seq::new(
            tools@.len(),
            |i: int| function_declaration(views(tools@)[i]),
        ));
        assert(views(r@) =~= gemini_tools(views(tools@)));
    }
    r
}

/// The texts of the parts that are text, in order.
pub open spec fn part_texts(parts: Seq<GeminiPartView>) -> Seq<Seq<char>>
    decreases parts.len(),
{
    if parts.len() == 0 {
        Seq::empty()
    } else {
        match parts.last().text {
            Some(t) => part_texts(parts.drop_last()).push(t),
            None => part_texts(parts.drop_last()),
        }
    }
}

/// The text of a message: its text parts, a line each.
pub open spec fn content_text(parts: Seq<GeminiPartView>) -> Seq<char> {
    join(part_texts(parts), "\n"@)
}

/// The text of a message.
pub fn parts_to_text(parts: &Vec<GeminiPart>) -> (r: String)
    ensures
        r@ == content_text(views(parts@)),
{
    let mut out: Vec<String> = Vec::new();
    let mut i: usize = 0;
    proof {
        assert(views(out@) =~= part_texts(views(parts@).subrange(0, 0)));
    }
    while i < parts.len()
        invariant
            i <= parts@.len(),
            views(out@) == part_texts(views(parts@).subrange(0, i as int)),
        decreases parts@.len() - i,
    {
        let ghost before = out@;
        proof {
            let t = views(parts@).subrange(0, i + 1);
            assert(t.drop_last() =~= views(parts@).subrange(0, i as int));
            assert(t.last() == parts@[i as int]@);
        }
        match &parts[i].text {
            Some(t) => {
                out.push(t.clone());
                proof {
                    assert(views(out@) =~= views(before).push(t@));
                }
            },
            None => {},
        }
        i = i + 1;
    }
    proof {
        assert(views(parts@).subrange(0, i as int) =~= views(parts@));
    }
    joined(&out, "\n")
}

/// What a response says: the text of its first candidate and why it ended.
pub open spec fn response_content(r: GeminiResponseView) -> (Option<Seq<char>>, Seq<char>) {
    if r.candidates.len() == 0 {
        (None, "unknown"@)
    } else {
        (
            some_text(content_text(r.candidates[0].content.parts)),
            r.candidates[0].finish_reason.unwrap_or("unknown"@),
        )
    }
}

/// Converts a response to the form of the platform.
pub fn gemini_to_unified_response(
    response: &GeminiResponse,
    model: &str,
    duration_ms: u64,
    agent_id: &str,
    total_input_tokens: u32,
    total_output_tokens: u32,
) -> (r: LlmResponse)
    requires
        total_input_tokens + total_output_tokens <= u32::MAX,
    ensures
        r@ == final_response(
            "google"@,
            model@,
            agent_id@,
            response_content(response@).0,
            total_input_tokens,
            total_output_tokens,
            duration_ms,
            response_content(response@).1,
            0,
        ),
{
    let (content, finish_reason) = if response.candidates.len() == 0 {
        (None, own("unknown"))
    } else {
        let c = &response.candidates[0];
        assert(c@ == response@.candidates[0]);
        let text = parts_to_text(&c.content.parts);
        let reason = match &c.finish_reason {
            Some(x) => x.clone(),
            None => own("unknown"),
        };
        (text_or_none(text), reason)
    };
    LlmResponse {
        agent_id: own(agent_id),
        content,
        tool_calls: None,
        model_used: own(model),
        provider: own("google"),
        tokens: TokenUsage {
            prompt_tokens: total_input_tokens,
            completion_tokens: total_output_tokens,
            total_tokens: total_input_tokens + total_output_tokens,
        },
        duration_ms,
        finish_reason,
        tool_rounds: 0,
    }
}

// ---------------------------------------------------------------------------
// Call ids
// ---------------------------------------------------------------------------

/// The character of a hexadecimal digit.
pub open spec fn hex_digit(n: nat) -> char {
    if n < 10 {
        ('0' as u8 + n) as u8 as char
    } else {
        ('a' as u8 + (n - 10)) as u8 as char
    }
}

/// The last `width` or more hexadecimal digits of `n`: as many as `n` takes, and
/// zeros in front up to `width`.
pub open spec fn hex(n: nat, width: nat) -> Seq<char>
    decreases n, width,
{
    if n < 16 && width <= 1 {
        seq![hex_digit(n)]
    } else {
        hex(
            n / 16,
            if width > 0 {
                (width - 1) as nat
            } else {
                0
            },
        ).push(hex_digit(n % 16))
    }
}

/// Hexadecimal digits of `n`, at least `width` of them.
fn hex_of(n: u64, width: u8) -> (r: String)
    ensures
        r@ == hex(n as nat, width as nat),
    decreases n, width,
{
    let d: u8 = (n % 16) as u8;
    let c: char = if d < 10 {
        (48u8 + d) as char
    } else {
        (97u8 + (d - 10)) as char
    };
    if n < 16 && width <= 1 {
        let mut out = String::new();
        out.push(c);
        assert(out@ =~= hex(n as nat, width as nat));
        out
    } else {
        let less: u8 = if width > 0 {
            width - 1
        } else {
            0
        };
        let mut out = hex_of(n / 16, less);
        out.push(c);
        out
    }
}

/// One step of the pseudo-random sequence.
pub open spec fn next_random(x: u64) -> u64 {
    let a = x ^ (x << 13);
    let b = a ^ (a >> 7);
    b ^ (b << 17)
}

/// The state after `n` steps.
pub open spec fn random_after(x: u64, n: nat) -> u64
    decreases n,
{
    if n == 0 {
        x
    } else {
        next_random(random_after(x, (n - 1) as nat))
    }
}

/// The id made of a time and a random number.
pub open spec fn call_id(millis: u64, random: u64) -> Seq<char> {
    hex(millis as nat, 12) + "-"@ + hex(random as nat, 16)
}

/// A source of call ids: the current time and the state of the sequence.
pub struct CallIds {
    pub millis: u64,
    pub state: u64,
}

impl CallIds {
    /// The next id.
    pub fn generate_call_id(&mut self) -> (r: String)
        ensures
            final(self).millis == old(self).millis,
            final(self).state == next_random(old(self).state),
            r@ == call_id(old(self).millis, next_random(old(self).state)),
    {
        let mut x: u64 = self.state;
        x = x ^ (x << 13);
        x = x ^ (x >> 7);
        x = x ^ (x << 17);
        self.state = x;
        let time = hex_of(self.millis, 12);
        let random = hex_of(x, 16);
        cat3(&time, "-", &random)
    }
}

/// A numeral of a number below a power of sixteen is as wide as that power asks for.
proof fn hex_is_wide(n: nat, width: nat)
    requires
        width > 0,
        n < pow(16, width),
    ensures
        hex(n, width).len() == width,
    decreases width,
{
    reveal(pow);
    if n >= 16 || width > 1 {
        if width == 1 {
            assert(pow(16, 1) == 16 * pow(16, 0));
        } else {
            assert(n / 16 < pow(16, (width - 1) as nat)) by (nonlinear_arith)
                requires
                    n < 16 * pow(16, (width - 1) as nat),
            ;
            hex_is_wide(n / 16, (width - 1) as nat);
        }
    }
}

/// Different numbers have different numerals.
proof fn hex_is_injective(n: nat, m: nat, width: nat)
    requires
        hex(n, width) == hex(m, width),
    ensures
        n == m,
    decreases n + m + width,
{
    let a = hex(n, width);
    let b = hex(m, width);
    let less: nat = if width > 0 {
        (width - 1) as nat
    } else {
        0
    };
    assert(a.last() == hex_digit(n % 16));
    assert(b.last() == hex_digit(m % 16));
    assert(n % 16 == m % 16);
    let short_n = n < 16 && width <= 1;
    let short_m = m < 16 && width <= 1;
    if !short_n {
        hex_is_there(n / 16, less);
    }
    if !short_m {
        hex_is_there(m / 16, less);
    }
    if !short_n && !short_m {
        assert(a.drop_last() =~= hex(n / 16, less));
        assert(b.drop_last() =~= hex(m / 16, less));
        hex_is_injective(n / 16, m / 16, less);
    }
}

/// A numeral has a digit.
proof fn hex_is_there(n: nat, width: nat)
    ensures
        hex(n, width).len() > 0,
{
}

/// The ids that one source gives are different, whatever the clock says, as long as it
/// started anywhere but at zero and gives fewer than there are states.
pub proof fn call_ids_differ(state: u64, i: nat, j: nat, earlier: u64, later: u64)
    requires
        state != 0,
        i < j,
        j - i < u64::MAX,
    ensures
        call_id(earlier, random_after(state, i)) != call_id(later, random_after(state, j)),
{
    let x = random_after(state, i);
    let y = random_after(state, j);
    states_differ(state, i, j);
    if call_id(earlier, x) == call_id(later, y) {
        let (a, b) = (call_id(earlier, x), call_id(later, y));
        reveal_with_fuel(pow, 17);
        assert(pow(16, 16) == 0x1_0000_0000_0000_0000);
        hex_is_wide(x as nat, 16);
        hex_is_wide(y as nat, 16);
        assert(a.subrange(a.len() - 16, a.len() as int) =~= hex(x as nat, 16));
        assert(b.subrange(b.len() - 16, b.len() as int) =~= hex(y as nat, 16));
        hex_is_injective(x as nat, y as nat, 16);
    }
}

/// The calls among the parts of a message, with an id each.
pub open spec fn part_calls(parts: Seq<GeminiPartView>, millis: u64, state: u64) -> Seq<
    UnifiedToolCallView,
>
    decreases parts.len(),
{
    if parts.len() == 0 {
        Seq::empty()
    } else {
        let rest = part_calls(parts.drop_last(), millis, state);
        match parts.last().function_call {
            Some(c) => rest.push(
                UnifiedToolCallView {
                    id: "call_"@ + call_id(millis, random_after(state, rest.len() + 1)),
                    name: unsanitized(c.name),
                    arguments: c.args,
                },
            ),
            None => rest,
        }
    }
}

/// The calls in a response, with an id each.
pub open spec fn calls_in(response: GeminiResponseView, millis: u64, state: u64) -> Seq<
    UnifiedToolCallView,
> {
    if response.candidates.len() == 0 {
        Seq::empty()
    } else {
        part_calls(response.candidates[0].content.parts, millis, state)
    }
}

/// Converts the calls among the parts of a message.
pub fn gemini_function_calls_to_tool_calls(parts: &[GeminiPart], ids: &mut CallIds) -> (r: Vec<
    UnifiedToolCall,
>)
    ensures
        views(r@) == part_calls(views(parts@), old(ids).millis, old(ids).state),
        final(ids).millis == old(ids).millis,
        final(ids).state == random_after(old(ids).state, r@.len()),
{
    let ghost millis = ids.millis;
    let ghost state = ids.state;
    let mut out: Vec<UnifiedToolCall> = Vec::new();
    let mut i: usize = 0;
    proof {
        assert(views(out@) =~= part_calls(views(parts@).subrange(0, 0), millis, state));
    }
    while i < parts.len()
        invariant
            i <= parts@.len(),
            ids.millis == millis,
            ids.state == random_after(state, out@.len()),
            views(out@) == part_calls(views(parts@).subrange(0, i as int), millis, state),
        decreases parts@.len() - i,
    {
        let ghost before = out@;
        proof {
            let t = views(parts@).subrange(0, i + 1);
            assert(t.drop_last() =~= views(parts@).subrange(0, i as int));
            assert(t.last() == parts@[i as int]@);
        }
        match &parts[i].function_call {
            Some(c) => {
                let id = ids.generate_call_id();
                let call = UnifiedToolCall {
                    id: cat2("call_", &id),
                    name: unsanitize_tool_name(&c.name),
                    arguments: c.args.copy(),
                };
                out.push(call);
                proof {
                    assert(views(out@) =~= views(before).push(call@));
                }
            },
            None => {},
        }
        i = i + 1;
    }
    proof {
        assert(views(parts@).subrange(0, i as int) =~= views(parts@));
    }
    out
}

// ---------------------------------------------------------------------------
// The tool loop
// ---------------------------------------------------------------------------

/// A request being worked on: the conversation so far, the calls that wait for an
/// answer, and what has been used up.
pub struct GeminiRun {
    pub agent_id: String,
    pub correlation_id: Option<String>,
    pub model: String,
    pub contents: Vec<GeminiContent>,
    pub tools: Option<Vec<GeminiToolDeclaration>>,
    pub system_instruction: Option<GeminiSystemInstruction>,
    pub max_output_tokens: u32,
    pub max_rounds: u32,
    pub round: u32,
    pub input_tokens: u32,
    pub output_tokens: u32,
    pub pending: Vec<UnifiedToolCall>,
}

/// The mathematical content of a [`GeminiRun`].
pub struct GeminiRunView {
    pub agent_id: Seq<char>,
    pub correlation_id: Option<Seq<char>>,
    pub model: Seq<char>,
    pub contents: Seq<GeminiContentView>,
    pub tools: Option<Seq<GeminiToolDeclarationView>>,
    pub system_instruction: Option<GeminiSystemInstructionView>,
    pub max_output_tokens: u32,
    pub max_rounds: u32,
    pub round: u32,
    pub input_tokens: u32,
    pub output_tokens: u32,
    pub pending: Seq<UnifiedToolCallView>,
}

impl View for GeminiRun {
    type V = GeminiRunView;

    open spec fn view(&self) -> GeminiRunView {
        GeminiRunView {
            agent_id: self.agent_id@,
            correlation_id: view_opt(self.correlation_id),
            model: self.model@,
            contents: views(self.contents@),
            tools: views_opt(self.tools),
            system_instruction: view_opt(self.system_instruction),
            max_output_tokens: self.max_output_tokens,
            max_rounds: self.max_rounds,
            round: self.round,
            input_tokens: self.input_tokens,
            output_tokens: self.output_tokens,
            pending: views(self.pending@),
        }
    }
}

/// What follows a response of the API.
pub enum RunStep {
    /// The request failed.
    Fail(String),
    /// The model is done.
    Finish(Option<String>),
    /// The pending calls are to be sent out.
    Dispatch,
}

/// The mathematical content of a [`RunStep`].
pub enum RunStepView {
    Fail(Seq<char>),
    Finish(Option<Seq<char>>),
    Dispatch,
}

impl View for RunStep {
    type V = RunStepView;

    open spec fn view(&self) -> RunStepView {
        match *self {
            RunStep::Fail(e) => RunStepView::Fail(e@),
            RunStep::Finish(c) => RunStepView::Finish(view_opt(c)),
            RunStep::Dispatch => RunStepView::Dispatch,
        }
    }
}

/// The system prompt as the API takes it.
pub open spec fn instruction(prompt: Option<Seq<char>>) -> Option<GeminiSystemInstructionView> {
    match prompt {
        Some(p) => Some(GeminiSystemInstructionView { parts: seq![text_part_view(p)] }),
        None => None,
    }
}

/// The tools of a request; without tools there is no list at all.
pub open spec fn tools_option(tools: Seq<ToolSchemaView>) -> Option<Seq<GeminiToolDeclarationView>> {
    if tools.len() == 0 {
        None
    } else {
        Some(gemini_tools(tools))
    }
}

impl GeminiRunView {
    /// The rounds are within the limit and the token counts can be summed.
    pub open spec fn wf(self) -> bool {
        self.round <= self.max_rounds && self.input_tokens + self.output_tokens <= u32::MAX
    }

    /// The request that the run sends next.
    pub open spec fn request(self) -> GeminiRequestView {
        GeminiRequestView {
            contents: self.contents,
            system_instruction: self.system_instruction,
            generation_config: Some(
                GeminiGenerationConfig { max_output_tokens: Some(self.max_output_tokens) },
            ),
            tools: self.tools,
        }
    }

    /// The run with the tokens of a response counted.
    pub open spec fn counted(self, response: GeminiResponseView) -> GeminiRunView {
        match response.usage_metadata {
            Some(u) => GeminiRunView {
                input_tokens: (self.input_tokens + u.prompt_token_count) as u32,
                output_tokens: (self.output_tokens + u.candidates_token_count) as u32,
                ..self
            },
            None => self,
        }
    }

    /// The token counts stay within range when a response is counted.
    pub open spec fn fits(self, response: GeminiResponseView) -> bool {
        match response.usage_metadata {
            Some(u) => self.input_tokens + self.output_tokens + u.prompt_token_count
                + u.candidates_token_count <= u32::MAX,
            None => true,
        }
    }

    /// The run after a response, and what follows: a response without candidates
    /// is an error; one without calls, or in the last round, ends the run; any
    /// other is added to the conversation and its calls wait to be sent out.
    pub open spec fn respond(
        self,
        response: GeminiResponseView,
        millis: u64,
        state: u64,
    ) -> (GeminiRunView, RunStepView) {
        let run = self.counted(response);
        if response.candidates.len() == 0 {
            (run, RunStepView::Fail("No candidates in Gemini response"@))
        } else {
            let content = response.candidates[0].content;
            let calls = part_calls(content.parts, millis, state);
            if calls.len() == 0 || self.round == self.max_rounds {
                (run, RunStepView::Finish(some_text(content_text(content.parts))))
            } else {
                (
                    GeminiRunView { contents: run.contents.push(content), pending: calls, ..run },
                    RunStepView::Dispatch,
                )
            }
        }
    }

    /// The parts that answer the pending calls.
    pub open spec fn answers(self, outcomes: Seq<ToolOutcome>) -> Seq<GeminiPartView> {
        Seq::new(
            self.pending.len(),
            |i: int|
                {
                    let a = tool_answer(self.pending[i].name, outcomes[i]);
                    response_part_view(
                        self.pending[i].name,
                        result_json(json_to_text(settle(a.result)), a.is_error),
                    )
                },
        )
    }

    /// The run once the pending calls are answered.
    pub open spec fn answered(self, outcomes: Seq<ToolOutcome>) -> GeminiRunView {
        GeminiRunView {
            contents: self.contents.push(
                GeminiContentView { role: "user"@, parts: self.answers(outcomes) },
            ),
            round: (self.round + 1) as u32,
            pending: Seq::empty(),
            ..self
        }
    }
}

/// A run never asks for tools in its last round, so it sends at most one request
/// more than it has rounds.
pub proof fn last_round_ends(
    run: GeminiRunView,
    response: GeminiResponseView,
    millis: u64,
    state: u64,
)
    requires
        run.wf(),
        run.round == run.max_rounds,
    ensures
        !(run.respond(response, millis, state).1 is Dispatch),
{
}

/// The state that a run starts from.
pub open spec fn run_start(
    agent_id: Seq<char>,
    correlation_id: Option<Seq<char>>,
    messages: Seq<UnifiedMessageView>,
    tools: Seq<ToolSchemaView>,
    system_prompt: Option<Seq<char>>,
    requested_tokens: Option<u32>,
    model: Seq<char>,
    max_tokens: u32,
    max_rounds: u32,
) -> GeminiRunView {
    GeminiRunView {
        agent_id,
        correlation_id,
        model,
        contents: gemini_contents(messages),
        tools: tools_option(tools),
        system_instruction: instruction(system_prompt),
        max_output_tokens: requested_tokens.unwrap_or(max_tokens),
        max_rounds,
        round: 0,
        input_tokens: 0,
        output_tokens: 0,
        pending: Seq::empty(),
    }
}

impl GeminiRun {
    /// Starts a run for a request.
    pub fn start(
        agent_id: &str,
        correlation_id: &Option<String>,
        messages: &[UnifiedMessage],
        tools: &[ToolSchema],
        system_prompt: &Option<String>,
        requested_tokens: Option<u32>,
        model: &str,
        max_tokens: u32,
        max_rounds: u32,
    ) -> (r: GeminiRun)
        ensures
            r@ == run_start(
                agent_id@,
                view_opt(*correlation_id),
                views(messages@),
                views(tools@),
                view_opt(*system_prompt),
                requested_tokens,
                model@,
                max_tokens,
                max_rounds,
            ),
            r@.wf(),
    {
        let tools = if tools.len() == 0 {
            None
        } else {
            Some(unified_to_gemini_tools(tools))
        };
        let system_instruction = match system_prompt {
            Some(p) => {
                let i = GeminiSystemInstruction { parts: vec![GeminiPart::text_part(p)] };
                assert(i@.parts =~= seq![text_part_view(p@)]);
                Some(i)
            },
            None => None,
        };
        let r = GeminiRun {
            agent_id: own(agent_id),
            correlation_id: duplicate_opt(correlation_id),
            model: own(model),
            contents: unified_to_gemini_contents(messages),
            tools,
            system_instruction,
            max_output_tokens: match requested_tokens {
                Some(n) => n,
                None => max_tokens,
            },
            max_rounds,
            round: 0,
            input_tokens: 0,
            output_tokens: 0,
            pending: Vec::new(),
        };
        assert(r@.pending =~= Seq::empty());
        r
    }

    /// The request to send next.
    pub fn request(&self) -> (r: GeminiRequest)
        ensures
            r@ == self@.request(),
    {
        GeminiRequest {
            contents: duplicate_all(&self.contents),
            system_instruction: duplicate_opt(&self.system_instruction),
            generation_config: Some(
                GeminiGenerationConfig { max_output_tokens: Some(self.max_output_tokens) },
            ),
            tools: duplicate_all_opt(&self.tools),
        }
    }

    /// Takes a response in and decides what follows.
    pub fn on_response(&mut self, response: &GeminiResponse, ids: &mut CallIds) -> (r: RunStep)
        requires
            old(self)@.wf(),
            old(self)@.fits(response@),
        ensures
            (final(self)@, r@) == old(self)@.respond(response@, old(ids).millis, old(ids).state),
            final(self)@.wf(),
            r is Dispatch ==> final(self)@.round < final(self)@.max_rounds,
            final(ids).millis == old(ids).millis,
            final(ids).state == random_after(
                old(ids).state,
                calls_in(response@, old(ids).millis, old(ids).state).len(),
            ),
    {
        match response.usage_metadata {
            Some(u) => {
                self.input_tokens = self.input_tokens + u.prompt_token_count;
                self.output_tokens = self.output_tokens + u.candidates_token_count;
            },
            None => {},
        }
        if response.candidates.len() == 0 {
            return RunStep::Fail(own("No candidates in Gemini response"));
        }
        let content = &response.candidates[0].content;
        assert(content@ == response@.candidates[0].content);
        let text = parts_to_text(&content.parts);
        let calls = gemini_function_calls_to_tool_calls(&content.parts, ids);
        if calls.len() == 0 || self.round == self.max_rounds {
            return RunStep::Finish(text_or_none(text));
        }
        let ghost before = self.contents@;
        self.contents.push(content.copy());
        self.pending = calls;
        assert(views(self.contents@) =~= views(before).push(content@));
        RunStep::Dispatch
    }

    /// Takes the outcomes of the pending calls in, in order.
    pub fn on_tool_results(&mut self, outcomes: &Vec<ToolOutcome>)
        requires
            old(self)@.wf(),
            old(self)@.round < old(self)@.max_rounds,
            outcomes@.len() == old(self)@.pending.len(),
        ensures
            final(self)@ == old(self)@.answered(outcomes@),
            final(self)@.wf(),
    {
        let ghost before = self@;
        let mut parts: Vec<GeminiPart> = Vec::new();
        let mut i: usize = 0;
        while i < self.pending.len()
            invariant
                self@ == before,
                i <= before.pending.len(),
                outcomes@.len() == before.pending.len(),
                parts@.len() == i,
                forall|k: int|
                    0 <= k < i ==> (#[trigger] parts@[k])@ == before.answers(outcomes@)[k],
            decreases before.pending.len() - i,
        {
            assert(self@.pending[i as int] == self.pending@[i as int]@);
            let name = self.pending[i].name.as_str();
            let answer = tool_response(name, &outcomes[i]);
            let result = answer.result.print();
            parts.push(
                GeminiPart::function_response_part(name, result_document(&result, answer.is_error)),
            );
            i = i + 1;
        }
        let content = GeminiContent { role: own("user"), parts };
        let ghost contents = self.contents@;
        assert(content@.parts =~= before.answers(outcomes@));
        self.contents.push(content);
        self.round = self.round + 1;
        self.pending = Vec::new();
        assert(views(self.contents@) =~= views(contents).push(content@));
        assert(self@.pending =~= Seq::empty());
    }

    /// The answer of the provider once the run is over.
    pub fn finish(&self, content: Option<String>, duration_ms: u64) -> (r: LlmResponse)
        requires
            self@.wf(),
        ensures
            r@ == final_response(
                "google"@,
                self@.model,
                self@.agent_id,
                view_opt(content),
                self@.input_tokens,
                self@.output_tokens,
                duration_ms,
                "stop"@,
                0,
            ),
    {
        LlmResponse {
            agent_id: self.agent_id.clone(),
            content,
            tool_calls: None,
            model_used: self.model.clone(),
            provider: own("google"),
            tokens: TokenUsage {
                prompt_tokens: self.input_tokens,
                completion_tokens: self.output_tokens,
                total_tokens: self.input_tokens + self.output_tokens,
            },
            duration_ms,
            finish_reason: own("stop"),
            tool_rounds: 0,
        }
    }
}

/// An optional code as it stands in an error message.
pub open spec fn code_text(code: Option<i32>) -> Seq<char> {
    match code {
        Some(n) => if n < 0 {
            "Some(-"@ + decimal((-(n as int)) as nat) + ")"@
        } else {
            "Some("@ + decimal(n as nat) + ")"@
        },
        None => "None"@,
    }
}

/// An optional code as it stands in an error message.
fn code_text_of(code: Option<i32>) -> (r: String)
    ensures
        r@ == code_text(code),
{
    match code {
        Some(n) => if n < 0 {
            cat3("Some(-", &decimal_of((-(n as i64)) as u64), ")")
        } else {
            cat3("Some(", &decimal_of(n as u64), ")")
        },
        None => own("None"),
    }
}

/// The message of a response that was not a success: what the API reported, or
/// the body of the response.
pub fn api_error(status: &str, error: &Option<GeminiErrorDetail>, body: &str) -> (r: String)
    ensures
        r@ == "Gemini API error ("@ + status@ + "): "@ + match *error {
            Some(e) => "code "@ + code_text(e.code) + ": "@ + e.message@,
            None => body@,
        },
{
    let detail = match error {
        Some(e) => cat4("code ", &code_text_of(e.code), ": ", &e.message),
        None => own(body),
    };
    cat4("Gemini API error (", status, "): ", &detail)
}

/// What each tool replied reaches the model, in the place of its call and under its name,
/// and nothing that was said before is lost.
pub proof fn results_reach_the_model(run: GeminiRunView, outcomes: Seq<ToolOutcome>, i: int)
    requires
        run.wf(),
        run.round < run.max_rounds,
        outcomes.len() == run.pending.len(),
        0 <= i < outcomes.len(),
    ensures
        ({
            let after = run.answered(outcomes);
            let last = after.contents.last();
            &&& after.contents.drop_last() == run.contents
            &&& after.contents.len() == run.contents.len() + 1
            &&& after.round == run.round + 1
            &&& after.input_tokens == run.input_tokens
            &&& after.output_tokens == run.output_tokens
            &&& after.pending.len() == 0
            &&& last.role == "user"@
            &&& last.parts.len() == outcomes.len()
            &&& last.parts[i].function_response is Some
            &&& last.parts[i].function_response->0.name == run.pending[i].name
            &&& match outcomes[i] {
                ToolOutcome::Reply(reply) => last.parts[i].function_response->0.response.text_at(
                    "result"@,
                ) == Some(json_to_text(settle(reply.result@)))
                    && last.parts[i].function_response->0.response.get("is_error"@) == Some(
                    JsonView::Bool(reply.is_error),
                ),
                _ => last.parts[i].function_response->0.response.get("is_error"@) == Some(
                    JsonView::Bool(true),
                ),
            }
        }),
{
    reveal_strlit("result");
    reveal_strlit("is_error");
    assert("result"@.len() == 6);
    assert("is_error"@.len() == 8);
    assert(run.answered(outcomes).contents.drop_last() =~= run.contents);
}

/// A part with a result depends on what came of the call, not on what the call asked.
pub proof fn arguments_are_no_result(
    a: GeminiRunView,
    b: GeminiRunView,
    outcomes: Seq<ToolOutcome>,
    i: int,
)
    requires
        a.pending.len() == b.pending.len() == outcomes.len(),
        0 <= i < outcomes.len(),
        a.pending[i].name == b.pending[i].name,
    ensures
        a.answered(outcomes).contents.last().parts[i] == b.answered(
            outcomes,
        ).contents.last().parts[i],
{
}

/// A message goes to the model with its text, its calls and its results.
pub proof fn message_is_whole(m: UnifiedMessageView, i: int)
    ensures
        m.content is Some && m.content->0.len() > 0 ==> message_parts(m).len() > 0
            && message_parts(m)[0].text == m.content,
        m.tool_calls is Some && 0 <= i < m.tool_calls->0.len() ==> exists|k: int|
            0 <= k < message_parts(m).len() && (
            #[trigger] message_parts(m)[k]).function_call is Some
                && message_parts(m)[k].function_call->0.args == m.tool_calls->0[i].arguments
                && message_parts(m)[k].function_call->0.name == sanitized(m.tool_calls->0[i].name),
        m.tool_results is Some && 0 <= i < m.tool_results->0.len() ==> exists|k: int|
            0 <= k < message_parts(m).len() && (
            #[trigger] message_parts(m)[k]).function_response is Some
                && message_parts(m)[k].function_response->0.response.text_at("result"@) == Some(
                m.tool_results->0[i].content,
            ) && message_parts(m)[k].function_response->0.response.get("is_error"@) == Some(
                JsonView::Bool(m.tool_results->0[i].is_error),
            ),
{
    reveal_strlit("result");
    reveal_strlit("is_error");
    assert("result"@.len() == 6);
    assert("is_error"@.len() == 8);
    let c = content_parts(m.content).len() as int;
    if m.tool_calls is Some && 0 <= i < m.tool_calls->0.len() {
        let p = message_parts(m)[c + i];
        assert(p == call_parts(m.tool_calls)[i]);
        assert(p.function_call is Some);
    }
    if m.tool_results is Some && 0 <= i < m.tool_results->0.len() {
        let p = message_parts(m)[c + call_parts(m.tool_calls).len() + i];
        assert(p == result_parts(m.tool_results)[i]);
        assert(p.function_response is Some);
    }
}

/// No message that says anything is lost on the way to the model, and their order stays.
pub proof fn messages_keep_their_order(a: Seq<UnifiedMessageView>, m: UnifiedMessageView)
    ensures
        message_parts(m).len() > 0 ==> gemini_contents(a.push(m)).len() == gemini_contents(a).len()
            + 1 && gemini_contents(a.push(m)).drop_last() == gemini_contents(a) && gemini_contents(
            a.push(m),
        ).last().parts == message_parts(m) && gemini_contents(a.push(m)).last().role == (if m.role
            == "assistant"@ {
            "model"@
        } else {
            m.role
        }),
        message_parts(m).len() == 0 ==> gemini_contents(a.push(m)) == gemini_contents(a),
{
    assert(a.push(m).drop_last() =~= a);
    assert(gemini_contents(a.push(m)).drop_last() =~= gemini_contents(a) || message_parts(m).len()
        == 0);
}

/// The model learns of every tool: its name, what it is for and its parameters.
pub proof fn tools_are_declared(tools: Seq<ToolSchemaView>, i: int)
    requires
        0 <= i < tools.len(),
    ensures
        gemini_tools(tools).len() == 1,
        gemini_tools(tools)[0].function_declarations.len() == tools.len(),
        gemini_tools(tools)[0].function_declarations[i].name == sanitized(tools[i].name),
        gemini_tools(tools)[0].function_declarations[i].description == tools[i].description,
        gemini_tools(tools)[0].function_declarations[i].parameters == tools[i].parameters,
{
}

/// Every text of an answer stands in what it comes to.
pub proof fn texts_are_read(parts: Seq<GeminiPartView>, i: int)
    requires
        0 <= i < parts.len(),
        parts[i].text is Some,
    ensures
        contains(content_text(parts), parts[i].text->0),
        part_texts(parts).contains(parts[i].text->0),
    decreases parts.len(),
{
    let init = parts.drop_last();
    let rest = part_texts(init);
    if i < parts.len() - 1 {
        assert(init[i] == parts[i]);
        texts_are_read(init, i);
        let k = choose|k: int| 0 <= k < rest.len() && rest[k] == parts[i].text->0;
        assert(part_texts(parts)[k] == parts[i].text->0);
    } else {
        assert(part_texts(parts)[rest.len() as int] == parts[i].text->0);
    }
    let all = part_texts(parts);
    let k = choose|k: int| 0 <= k < all.len() && all[k] == parts[i].text->0;
    pieces_stand_in_join(all, "\n"@, k);
}

/// The calls of an answer are made as the model asked, one for each, in order.
pub proof fn calls_are_read(parts: Seq<GeminiPartView>, p: GeminiPartView, millis: u64, state: u64)
    ensures
        ({
            let before = part_calls(parts, millis, state);
            let after = part_calls(parts.push(p), millis, state);
            match p.function_call {
                Some(c) => after.len() == before.len() + 1 && after.drop_last() == before
                    && after.last().arguments == c.args && after.last().name == unsanitized(c.name),
                None => after == before,
            }
        }),
{
    assert(parts.push(p).drop_last() =~= parts);
    assert(part_calls(parts.push(p), millis, state).drop_last() =~= part_calls(
        parts,
        millis,
        state,
    ) || p.function_call is None);
}

/// An answer without calls ends the run with its text; one with calls has them made, and is
/// remembered. Tokens add up.
pub proof fn response_is_taken_in(
    run: GeminiRunView,
    response: GeminiResponseView,
    millis: u64,
    state: u64,
)
    requires
        run.wf(),
        run.fits(response),
        response.candidates.len() > 0,
    ensures
        ({
            let (after, step) = run.respond(response, millis, state);
            let content = response.candidates[0].content;
            let calls = part_calls(content.parts, millis, state);
            &&& step is Dispatch <==> calls.len() > 0 && run.round < run.max_rounds
            &&& step is Dispatch ==> after.pending == calls && after.contents
                == run.contents.push(content)
            &&& step matches RunStepView::Finish(text) ==> (text matches Some(t) ==> t
                == content_text(content.parts)) && (text is None ==> content_text(
                content.parts,
            ).len() == 0)
            &&& step is Dispatch || step is Finish
            &&& response.usage_metadata matches Some(u) ==> after.input_tokens == run.input_tokens
                + u.prompt_token_count && after.output_tokens == run.output_tokens
                + u.candidates_token_count
            &&& response.usage_metadata is None ==> after.input_tokens == run.input_tokens
                && after.output_tokens == run.output_tokens
            &&& after.round == run.round
            &&& after.tools == run.tools
            &&& after.system_instruction == run.system_instruction
        }),
{
}

/// An answer without candidates fails the run.
pub proof fn empty_answer_fails(run: GeminiRunView, r: GeminiResponseView, millis: u64, state: u64)
    requires
        r.candidates.len() == 0,
    ensures
        run.respond(r, millis, state).1 is Fail,
{
}

/// A request carries all that the run has: the messages, the prompt and the tools.
pub proof fn request_is_complete(
    agent_id: Seq<char>,
    correlation_id: Option<Seq<char>>,
    messages: Seq<UnifiedMessageView>,
    tools: Seq<ToolSchemaView>,
    prompt: Seq<char>,
    requested: Option<u32>,
    model: Seq<char>,
    max_tokens: u32,
    max_rounds: u32,
)
    ensures
        ({
            let run = run_start(
                agent_id,
                correlation_id,
                messages,
                tools,
                Some(prompt),
                requested,
                model,
                max_tokens,
                max_rounds,
            );
            let r = run.request();
            &&& r.contents == gemini_contents(messages)
            &&& r.system_instruction is Some
            &&& r.system_instruction->0.parts.len() == 1
            &&& r.system_instruction->0.parts[0].text == Some(prompt)
            &&& tools.len() > 0 ==> r.tools == Some(gemini_tools(tools))
            &&& tools.len() == 0 ==> r.tools is None
            &&& r.generation_config is Some
            &&& r.generation_config->0.max_output_tokens == Some(requested.unwrap_or(max_tokens))
            &&& run.agent_id == agent_id
            &&& run.correlation_id == correlation_id
            &&& run.model == model
            &&& run.max_rounds == max_rounds
            &&& run.round == 0
            &&& run.pending.len() == 0
            &&& run.input_tokens == 0
            &&& run.output_tokens == 0
        }),
{
}

/// What an answer says, and why it ended, is what the first candidate says.
pub proof fn first_candidate_counts(r: GeminiResponseView)
    requires
        r.candidates.len() > 0,
    ensures
        content_text(r.candidates[0].content.parts).len() > 0 ==> response_content(r).0 == Some(
            content_text(r.candidates[0].content.parts),
        ),
        r.candidates[0].finish_reason matches Some(f) ==> response_content(r).1 == f,
{
}

/// The calls are those of the first candidate.
pub proof fn first_candidate_calls(r: GeminiResponseView, millis: u64, state: u64)
    ensures
        r.candidates.len() > 0 ==> calls_in(r, millis, state) == part_calls(
            r.candidates[0].content.parts,
            millis,
            state,
        ),
        r.candidates.len() == 0 ==> calls_in(r, millis, state).len() == 0,
{
}

/// An error names its code.
pub proof fn code_is_named(n: i32)
    ensures
        n >= 0 ==> contains(code_text(Some(n)), decimal(n as nat)),
        n < 0 ==> contains(code_text(Some(n)), decimal((-(n as int)) as nat)),
        code_text(None) == "None"@,
{
    if n >= 0 {
        part_stands_in_whole("Some("@, decimal(n as nat), ")"@);
    } else {
        part_stands_in_whole("Some(-"@, decimal((-(n as int)) as nat), ")"@);
    }
}

} // verus!
