//! Runs the coding agent of the command line, as a tool.
use crate::duplicate::{duplicate_opt, Duplicate};
use crate::events::{ToolCallRequest, ToolCallResponse, ToolCallResponseView};
use crate::json::{text_or_null, Json, JsonView};
use crate::outside::json_of_text;
use crate::plugins::process::{exit_code, exit_code_of, ProcessOutcome, NO_EXIT_CODE};
use crate::text::{
    cat2, cat3, cat4, contains, decimal, decimal_of, own, part_stands_in_whole, view_opt, views,
};
use crate::wire::{
    as_record, bool_at, default_text_at, i32_at, json_opt_document, json_or_null, optional_json_at,
    optional_text_at, read_bool_at, read_default_text_at, read_i32_at, read_optional_json_at,
    read_optional_text_at, record,
};
use vstd::prelude::*;

verus! {

/// What the agent prints.
pub struct ClaudeCodeOutput {
    pub session_id: Option<String>,
    pub result: String,
    pub model: Option<String>,
    pub usage: Option<Json>,
}

/// The mathematical content of a [`ClaudeCodeOutput`].
pub struct ClaudeCodeOutputView {
    pub session_id: Option<Seq<char>>,
    pub result: Seq<char>,
    pub model: Option<Seq<char>>,
    pub usage: Option<JsonView>,
}

impl View for ClaudeCodeOutput {
    type V = ClaudeCodeOutputView;

    open spec fn view(&self) -> ClaudeCodeOutputView {
        ClaudeCodeOutputView {
            session_id: view_opt(self.session_id),
            result: self.result@,
            model: view_opt(self.model),
            usage: view_opt(self.usage),
        }
    }
}

impl Duplicate for ClaudeCodeOutput {
    fn copy(&self) -> (r: ClaudeCodeOutput) {
        ClaudeCodeOutput {
            session_id: duplicate_opt(&self.session_id),
            result: self.result.clone(),
            model: duplicate_opt(&self.model),
            usage: duplicate_opt(&self.usage),
        }
    }
}

/// What came of a run.
pub struct ClaudeCodeResponse {
    pub result: String,
    pub session_id: Option<String>,
    pub model: Option<String>,
    pub usage: Option<Json>,
    pub exit_code: i32,
    pub timed_out: bool,
}

/// The mathematical content of a [`ClaudeCodeResponse`].
pub struct ClaudeCodeResponseView {
    pub result: Seq<char>,
    pub session_id: Option<Seq<char>>,
    pub model: Option<Seq<char>>,
    pub usage: Option<JsonView>,
    pub exit_code: i32,
    pub timed_out: bool,
}

impl View for ClaudeCodeResponse {
    type V = ClaudeCodeResponseView;

    open spec fn view(&self) -> ClaudeCodeResponseView {
        ClaudeCodeResponseView {
            result: self.result@,
            session_id: view_opt(self.session_id),
            model: view_opt(self.model),
            usage: view_opt(self.usage),
            exit_code: self.exit_code,
            timed_out: self.timed_out,
        }
    }
}

impl Duplicate for ClaudeCodeResponse {
    fn copy(&self) -> (r: ClaudeCodeResponse) {
        ClaudeCodeResponse {
            result: self.result.clone(),
            session_id: duplicate_opt(&self.session_id),
            model: duplicate_opt(&self.model),
            usage: duplicate_opt(&self.usage),
            exit_code: self.exit_code,
            timed_out: self.timed_out,
        }
    }
}

/// The [`ClaudeCodeOutput`] that a document states.
pub open spec fn claude_code_output_of(j: JsonView) -> Option<ClaudeCodeOutputView> {
    let j = record(j, seq!["session_id"@, "result"@, "model"@, "usage"@], 0);
    if j is Object {
        match (
            optional_text_at(j, "session_id"@),
            default_text_at(j, "result"@, ""@),
            optional_text_at(j, "model"@),
            optional_json_at(j, "usage"@),
        ) {
            (Some(session_id), Some(result), Some(model), Some(usage)) => Some(
                ClaudeCodeOutputView { session_id, result, model, usage },
            ),
            _ => None,
        }
    } else {
        None
    }
}

/// Reads the [`ClaudeCodeOutput`] that a document states.
pub fn read_claude_code_output(j: &Json) -> (r: Option<ClaudeCodeOutput>)
    ensures
        view_opt(r) == claude_code_output_of(j@),
{
    let names: Vec<&'static str> = vec!["session_id", "result", "model", "usage"];
    assert(views(names@) =~= seq!["session_id"@, "result"@, "model"@, "usage"@]);
    let spread = as_record(j, &names, 0);
    let j = match &spread {
        Some(x) => x,
        None => j,
    };
    match j {
        Json::Object(_) => {
            match (
                read_optional_text_at(j, "session_id"),
                read_default_text_at(j, "result", ""),
                read_optional_text_at(j, "model"),
                read_optional_json_at(j, "usage"),
            ) {
                (Some(session_id), Some(result), Some(model), Some(usage)) => Some(
                    ClaudeCodeOutput { session_id, result, model, usage },
                ),
                _ => None,
            }
        },
        _ => None,
    }
}

/// The document of a [`ClaudeCodeResponse`].
pub open spec fn claude_code_response_json(x: ClaudeCodeResponseView) -> JsonView {
    JsonView::object().put(
        "result"@,
        JsonView::Text(x.result),
    ).put(
        "session_id"@,
        text_or_null(x.session_id),
    ).put(
        "model"@,
        text_or_null(x.model),
    ).put(
        "usage"@,
        json_or_null(x.usage),
    ).put(
        "exit_code"@,
        JsonView::Int(x.exit_code as int),
    ).put(
        "timed_out"@,
        JsonView::Bool(x.timed_out),
    )
}

/// The [`ClaudeCodeResponse`] that a document states.
pub open spec fn claude_code_response_of(j: JsonView) -> Option<ClaudeCodeResponseView> {
    let j = record(
        j,
        seq!["result"@, "session_id"@, "model"@, "usage"@, "exit_code"@, "timed_out"@],
        6,
    );
    match (
        j.text_at("result"@),
        optional_text_at(j, "session_id"@),
        optional_text_at(j, "model"@),
        optional_json_at(j, "usage"@),
        i32_at(j, "exit_code"@),
        bool_at(j, "timed_out"@),
    ) {
        (Some(result), Some(session_id), Some(model), Some(usage), Some(exit_code), Some(timed_out)) => Some(
            ClaudeCodeResponseView {
                result,
                session_id,
                model,
                usage,
                exit_code: exit_code as i32,
                timed_out,
            },
        ),
        _ => None,
    }
}

/// The document of a [`ClaudeCodeResponse`].
pub fn claude_code_response_document(x: &ClaudeCodeResponse) -> (r: Json)
    ensures
        r@ == claude_code_response_json(x@),
{
    Json::object()
        .put("result", Json::text(&x.result))
        .put("session_id", Json::opt(&x.session_id))
        .put("model", Json::opt(&x.model))
        .put("usage", json_opt_document(&x.usage))
        .put("exit_code", Json::Signed(x.exit_code as i64))
        .put("timed_out", Json::Bool(x.timed_out))
}

/// The [`ClaudeCodeResponse`] that a document states.
pub fn read_claude_code_response(j: &Json) -> (r: Option<ClaudeCodeResponse>)
    ensures
        view_opt(r) == claude_code_response_of(j@),
{
    let names: Vec<&'static str> = vec![
        "result",
        "session_id",
        "model",
        "usage",
        "exit_code",
        "timed_out",
    ];
    assert(
        views(names@) =~= seq![
            "result"@,
            "session_id"@,
            "model"@,
            "usage"@,
            "exit_code"@,
            "timed_out"@,
        ]
    );
    let spread = as_record(j, &names, 6);
    let j = match &spread {
        Some(x) => x,
        None => j,
    };
    match (
        j.text_at("result"),
        read_optional_text_at(j, "session_id"),
        read_optional_text_at(j, "model"),
        read_optional_json_at(j, "usage"),
        read_i32_at(j, "exit_code"),
        read_bool_at(j, "timed_out"),
    ) {
        (Some(result), Some(session_id), Some(model), Some(usage), Some(exit_code), Some(timed_out)) => Some(
            ClaudeCodeResponse { result, session_id, model, usage, exit_code, timed_out },
        ),
        _ => None,
    }
}

/// The names of the fields are different.
proof fn claude_code_response_names_differ()
    ensures
        "exit_code"@ != "model"@,
        "exit_code"@ != "result"@,
        "exit_code"@ != "session_id"@,
        "exit_code"@ != "timed_out"@,
        "exit_code"@ != "usage"@,
        "model"@ != "result"@,
        "model"@ != "session_id"@,
        "model"@ != "timed_out"@,
        "model"@ != "usage"@,
        "result"@ != "session_id"@,
        "result"@ != "timed_out"@,
        "result"@ != "usage"@,
        "session_id"@ != "timed_out"@,
        "session_id"@ != "usage"@,
        "timed_out"@ != "usage"@,
{
    reveal_strlit("exit_code");
    assert("exit_code"@.len() == 9);
    reveal_strlit("model");
    assert("model"@.len() == 5);
    reveal_strlit("result");
    assert("result"@.len() == 6);
    reveal_strlit("session_id");
    assert("session_id"@.len() == 10);
    reveal_strlit("timed_out");
    assert("timed_out"@.len() == 9);
    reveal_strlit("usage");
    assert("usage"@.len() == 5);
    assert("exit_code"@[0] == 'e');
    assert("timed_out"@[0] == 't');
    assert("model"@[0] == 'm');
    assert("usage"@[0] == 'u');
}

/// A [`ClaudeCodeResponse`] is read back from its document.
pub proof fn claude_code_response_round_trip(x: ClaudeCodeResponseView)
    requires
        x.usage != Some(JsonView::Null),
    ensures
        claude_code_response_of(claude_code_response_json(x)) == Some(x),
{
    claude_code_response_names_differ();
    let j = claude_code_response_json(x);
}

/// How the agent is called and run.
pub struct ClaudeConfig {
    /// What users know it as.
    pub name: String,
    /// The id of the tool.
    pub tool_id: String,
    /// The command of chats.
    pub command: String,
    pub working_dir: String,
    pub allowed_tools: String,
    pub max_turns: u32,
    /// The numeral of the budget in dollars, where there is a limit.
    pub max_budget: Option<String>,
    pub timeout_seconds: u64,
    /// Empty for the agent's own choice.
    pub model: String,
}

/// A run that is asked for.
pub struct ClaudeCall {
    pub prompt: String,
    pub working_dir: String,
    pub session_id: Option<String>,
    pub append_system_prompt: Option<String>,
}

/// The prompt in the arguments of a call: a tool call names it the prompt, a chat
/// command has it as its arguments.
pub open spec fn prompt_in(a: JsonView) -> Seq<char> {
    match a.text_at("prompt"@) {
        Some(p) => p,
        None => a.text_or("args"@, Seq::empty()),
    }
}

/// The prompt in the arguments of a call.
pub fn extract_prompt(a: &Json) -> (r: String)
    ensures
        r@ == prompt_in(a@),
{
    match a.text_at("prompt") {
        Some(p) => p,
        None => match a.text_at("args") {
            Some(p) => p,
            None => String::new(),
        },
    }
}

/// The run that a tool call asks for, or the answer to one without a prompt.
pub fn plan_call(request: &ToolCallRequest, config: &ClaudeConfig) -> (r: Result<
    ClaudeCall,
    ToolCallResponse,
>)
    ensures
        if prompt_in(request@.arguments).len() == 0 {
            r matches Err(x) && x@ == (ToolCallResponseView {
                tool_id: request@.tool_id,
                result: JsonView::Text(
                    "Please provide a prompt. Usage: /"@ + config.command@
                        + " <task or question>"@,
                ),
                is_error: true,
            })
        } else {
            r matches Ok(c) && c.prompt@ == prompt_in(request@.arguments) && c.working_dir@
                == request@.arguments.text_or("working_dir"@, config.working_dir@) && view_opt(
                c.session_id,
            ) == request@.arguments.text_at("session_id"@) && view_opt(c.append_system_prompt)
                == request@.arguments.text_at("append_system_prompt"@)
        },
{
    let a = &request.arguments;
    let prompt = extract_prompt(a);
    if prompt.as_str().is_empty() {
        Err(
            ToolCallResponse {
                tool_id: request.tool_id.clone(),
                result: Json::text(
                    &cat3(
                        "Please provide a prompt. Usage: /",
                        &config.command,
                        " <task or question>",
                    ),
                ),
                is_error: true,
            },
        )
    } else {
        Ok(
            ClaudeCall {
                prompt,
                working_dir: a.text_or("working_dir", &config.working_dir),
                session_id: a.text_at("session_id"),
                append_system_prompt: a.text_at("append_system_prompt"),
            },
        )
    }
}

/// A switch with its value, where there is one.
pub open spec fn switch(name: Seq<char>, value: Option<Seq<char>>) -> Seq<Seq<char>> {
    match value {
        Some(v) => seq![name, v],
        None => Seq::empty(),
    }
}

/// The arguments of the agent.
pub open spec fn agent_arguments(config: ClaudeConfig, call: ClaudeCall) -> Seq<Seq<char>> {
    switch("-p"@, Some(call.prompt@)) + switch("--output-format"@, Some("json"@)) + switch(
        "--allowedTools"@,
        Some(config.allowed_tools@),
    ) + switch("--max-turns"@, Some(decimal(config.max_turns as nat))) + switch(
        "--max-budget-usd"@,
        view_opt(config.max_budget),
    ) + switch(
        "--model"@,
        if config.model@.len() == 0 {
            None
        } else {
            Some(config.model@)
        },
    ) + switch("--resume"@, view_opt(call.session_id)) + switch(
        "--append-system-prompt"@,
        view_opt(call.append_system_prompt),
    )
}

/// Puts a switch with its value behind some arguments.
fn push_switch(args: &mut Vec<String>, name: &str, value: Option<&String>)
    ensures
        views(final(args)@) == views(old(args)@) + switch(
            name@,
            match value {
                Some(v) => Some(v@),
                None => None,
            },
        ),
{
    let ghost before = args@;
    match value {
        Some(v) => {
            args.push(own(name));
            args.push(v.clone());
            assert(views(args@) =~= views(before) + seq![name@, v@]);
        },
        None => {
            assert(views(args@) =~= views(before) + Seq::empty());
        },
    }
}

/// The arguments of the agent.
pub fn build_arguments(config: &ClaudeConfig, call: &ClaudeCall) -> (r: Vec<String>)
    ensures
        views(r@) == agent_arguments(*config, *call),
{
    let mut args: Vec<String> = Vec::new();
    assert(views(args@) + switch("-p"@, Some(call.prompt@)) =~= switch(
        "-p"@,
        Some(call.prompt@),
    ));
    push_switch(&mut args, "-p", Some(&call.prompt));
    let format = own("json");
    push_switch(&mut args, "--output-format", Some(&format));
    push_switch(&mut args, "--allowedTools", Some(&config.allowed_tools));
    let turns = decimal_of(config.max_turns as u64);
    push_switch(&mut args, "--max-turns", Some(&turns));
    push_switch(&mut args, "--max-budget-usd", config.max_budget.as_ref());
    if config.model.as_str().is_empty() {
        push_switch(&mut args, "--model", None);
    } else {
        push_switch(&mut args, "--model", Some(&config.model));
    }
    push_switch(&mut args, "--resume", call.session_id.as_ref());
    push_switch(&mut args, "--append-system-prompt", call.append_system_prompt.as_ref());
    args
}

/// A text as the result of a run.
pub open spec fn plain_result(
    result: Seq<char>,
    exit_code: i32,
    timed_out: bool,
) -> ClaudeCodeResponseView {
    ClaudeCodeResponseView {
        result,
        session_id: None,
        model: None,
        usage: None,
        exit_code,
        timed_out,
    }
}

/// A text as the result of a run.
fn plain(result: String, exit_code: i32, timed_out: bool) -> (r: ClaudeCodeResponse)
    ensures
        r@ == plain_result(result@, exit_code, timed_out),
{
    ClaudeCodeResponse { result, session_id: None, model: None, usage: None, exit_code, timed_out }
}

/// The result when the agent could not be started.
pub fn not_started(config: &ClaudeConfig, detail: &str) -> (r: ClaudeCodeResponse)
    ensures
        r@ == plain_result(
            "Failed to start "@ + config.name@ + " CLI: "@ + detail@,
            NO_EXIT_CODE,
            false,
        ),
{
    plain(cat4("Failed to start ", &config.name, " CLI: ", detail), NO_EXIT_CODE, false)
}

/// The result of a successful run: what its output states, or the output itself
/// where that is no statement.
pub open spec fn output_result(
    body: Result<JsonView, Seq<char>>,
    stdout: Seq<char>,
) -> ClaudeCodeResponseView {
    match body {
        Ok(j) => match claude_code_output_of(j) {
            Some(o) => ClaudeCodeResponseView {
                result: o.result,
                session_id: o.session_id,
                model: o.model,
                usage: o.usage,
                exit_code: 0,
                timed_out: false,
            },
            None => plain_result(stdout, 0, false),
        },
        Err(_) => plain_result(stdout, 0, false),
    }
}

/// The result of a successful run with a decoded output.
pub fn finish_output(body: Result<Json, String>, stdout: String) -> (r: ClaudeCodeResponse)
    ensures
        r@ == output_result(
            match body {
                Ok(j) => Ok(j@),
                Err(e) => Err(e@),
            },
            stdout@,
        ),
{
    match body {
        Ok(j) => match read_claude_code_output(&j) {
            Some(o) => ClaudeCodeResponse {
                result: o.result,
                session_id: o.session_id,
                model: o.model,
                usage: o.usage,
                exit_code: 0,
                timed_out: false,
            },
            None => plain(stdout, 0, false),
        },
        Err(_) => plain(stdout, 0, false),
    }
}

/// The result of a run.
pub open spec fn run_result(outcome: ProcessOutcome, config: ClaudeConfig) -> ClaudeCodeResponseView {
    match outcome {
        ProcessOutcome::Exited { code, stdout, stderr } => if exit_code_of(code) == 0 {
            output_result(json_of_text(stdout@), stdout@)
        } else if stderr@.len() == 0 {
            plain_result(stdout@, exit_code_of(code), false)
        } else {
            plain_result(stderr@, exit_code_of(code), false)
        },
        ProcessOutcome::Failed(e) => plain_result("Process error: "@ + e@, NO_EXIT_CODE, false),
        ProcessOutcome::TimedOut => plain_result(
            config.name@ + " timed out after "@ + decimal(config.timeout_seconds as nat) + "s"@,
            NO_EXIT_CODE,
            true,
        ),
    }
}

/// The result of a run.
pub fn finish_run(outcome: ProcessOutcome, config: &ClaudeConfig) -> (r: ClaudeCodeResponse)
    ensures
        r@ == run_result(outcome, *config),
{
    match outcome {
        ProcessOutcome::Exited { code, stdout, stderr } => {
            let c: i32 = exit_code(code);
            if c == 0 {
                let body = Json::parse(&stdout);
                finish_output(body, stdout)
            } else if stderr.as_str().is_empty() {
                plain(stdout, c, false)
            } else {
                plain(stderr, c, false)
            }
        },
        ProcessOutcome::Failed(e) => plain(cat2("Process error: ", &e), NO_EXIT_CODE, false),
        ProcessOutcome::TimedOut => plain(
            cat4(&config.name, " timed out after ", &decimal_of(config.timeout_seconds), "s"),
            NO_EXIT_CODE,
            true,
        ),
    }
}

/// The answer to a tool call: an error unless the agent ran to its end with
/// success.
pub fn tool_response(tool_id: &str, x: &ClaudeCodeResponse) -> (r: ToolCallResponse)
    ensures
        r@ == (ToolCallResponseView {
            tool_id: tool_id@,
            result: claude_code_response_json(x@),
            is_error: x@.exit_code != 0,
        }),
{
    ToolCallResponse {
        tool_id: own(tool_id),
        result: claude_code_response_document(x),
        is_error: x.exit_code != 0,
    }
}

/// What the program printed is read field by field.
pub proof fn output_is_read(j: JsonView)
    requires
        j is Object,
    ensures
        match claude_code_output_of(j) {
            Some(x) => {
            &&& optional_text_at(j, "session_id"@) == Some(x.session_id)
            &&& default_text_at(j, "result"@, ""@) == Some(x.result)
            &&& optional_text_at(j, "model"@) == Some(x.model)
            &&& optional_json_at(j, "usage"@) == Some(x.usage)
            },
            None => optional_text_at(j, "session_id"@) is None || default_text_at(j, "result"@, ""@) is None || optional_text_at(j, "model"@) is None || optional_json_at(j, "usage"@) is None,
        },
{
}

/// A run that went well tells what the program printed, parsed where it can be and as it is
/// where it cannot; one that failed tells what went wrong.
pub proof fn run_is_told(
    config: ClaudeConfig,
    code: Option<i32>,
    stdout: String,
    stderr: String,
    e: String,
)
    ensures
        ({
            let r = run_result(ProcessOutcome::Exited { code, stdout, stderr }, config);
            &&& !r.timed_out
            &&& code == Some(0i32) ==> r.exit_code == 0
            &&& code == Some(0i32) && json_of_text(stdout@) is Err ==> r.result == stdout@
            &&& code == Some(0i32) && json_of_text(stdout@) is Ok && claude_code_output_of(
                json_of_text(stdout@)->Ok_0,
            ) is Some ==> {
                let o = claude_code_output_of(json_of_text(stdout@)->Ok_0)->0;
                r.result == o.result && r.session_id == o.session_id && r.model == o.model
                    && r.usage == o.usage
            }
            &&& code is Some && code->0 != 0 ==> r.exit_code == code->0 && r.result == if stderr@.len()
                == 0 {
                stdout@
            } else {
                stderr@
            }
            &&& code is None ==> r.exit_code != 0
        }),
        run_result(ProcessOutcome::TimedOut, config).timed_out,
        run_result(ProcessOutcome::TimedOut, config).exit_code != 0,
        run_result(ProcessOutcome::Failed(e), config).exit_code != 0,
        contains(run_result(ProcessOutcome::Failed(e), config).result, e@),
{
    part_stands_in_whole("Process error: "@, e@, Seq::empty());
    assert("Process error: "@ + e@ + Seq::<char>::empty() =~= "Process error: "@ + e@);
}

/// The prompt is asked for under its own name, and else under that of the arguments.
pub proof fn prompt_is_found(a: JsonView)
    ensures
        a.text_at("prompt"@) is Some ==> Some(prompt_in(a)) == a.text_at("prompt"@),
        a.text_at("prompt"@) is None && a.text_at("args"@) is Some ==> Some(prompt_in(a))
            == a.text_at("args"@),
        a.text_at("prompt"@) is None && a.text_at("args"@) is None ==> prompt_in(a).len() == 0,
{
}

/// A switch with a value stands before its value.
pub proof fn switches_are_passed(config: ClaudeConfig, call: ClaudeCall)
    ensures
        ({
            let a = agent_arguments(config, call);
            &&& a.len() >= 8
            &&& a[0] == "-p"@ && a[1] == call.prompt@
            &&& a[2] == "--output-format"@ && a[3] == "json"@
            &&& a[4] == "--allowedTools"@ && a[5] == config.allowed_tools@
            &&& a[6] == "--max-turns"@ && a[7] == decimal(config.max_turns as nat)
            &&& config.max_budget is Some ==> passes(a, "--max-budget-usd"@, config.max_budget->0@)
            &&& config.model@.len() > 0 ==> passes(a, "--model"@, config.model@)
            &&& call.session_id is Some ==> passes(a, "--resume"@, call.session_id->0@)
            &&& call.append_system_prompt is Some ==> passes(
                a,
                "--append-system-prompt"@,
                call.append_system_prompt->0@,
            )
        }),
{
    let four = switch("-p"@, Some(call.prompt@)) + switch("--output-format"@, Some("json"@))
        + switch("--allowedTools"@, Some(config.allowed_tools@)) + switch(
        "--max-turns"@,
        Some(decimal(config.max_turns as nat)),
    );
    let five = four + switch("--max-budget-usd"@, view_opt(config.max_budget));
    let model = if config.model@.len() == 0 {
        None
    } else {
        Some(config.model@)
    };
    let six = five + switch("--model"@, model);
    let seven = six + switch("--resume"@, view_opt(call.session_id));
    let a = agent_arguments(config, call);
    assert(four.len() == 8);
    if config.max_budget is Some {
        assert(a[four.len() as int] == "--max-budget-usd"@);
        assert(a[four.len() as int + 1] == config.max_budget->0@);
    }
    if config.model@.len() > 0 {
        assert(a[five.len() as int] == "--model"@);
        assert(a[five.len() as int + 1] == config.model@);
    }
    if call.session_id is Some {
        assert(a[six.len() as int] == "--resume"@);
        assert(a[six.len() as int + 1] == call.session_id->0@);
    }
    if call.append_system_prompt is Some {
        assert(a[seven.len() as int] == "--append-system-prompt"@);
        assert(a[seven.len() as int + 1] == call.append_system_prompt->0@);
    }
}

/// Somewhere among the arguments a switch stands before a value.
pub open spec fn passes(a: Seq<Seq<char>>, name: Seq<char>, value: Seq<char>) -> bool {
    exists|i: int| 0 <= i < a.len() - 1 && #[trigger] a[i] == name && a[i + 1] == value
}

/// Each field of a response stands under its own name.
pub proof fn response_is_written(x: ClaudeCodeResponseView)
    ensures
        claude_code_response_json(x).text_at("result"@) == Some(x.result),
        optional_text_at(claude_code_response_json(x), "session_id"@) == Some(x.session_id),
        optional_text_at(claude_code_response_json(x), "model"@) == Some(x.model),
        claude_code_response_json(x).get("usage"@) == Some(json_or_null(x.usage)),
        claude_code_response_json(x).get("exit_code"@) == Some(JsonView::Int(x.exit_code as int)),
        claude_code_response_json(x).get("timed_out"@) == Some(JsonView::Bool(x.timed_out)),
{
    reveal_strlit("result");
    reveal_strlit("session_id");
    reveal_strlit("model");
    reveal_strlit("usage");
    reveal_strlit("exit_code");
    reveal_strlit("timed_out");
    assert("result"@.len() == 6);
    assert("session_id"@.len() == 10);
    assert("model"@.len() == 5);
    assert("usage"@.len() == 5);
    assert("exit_code"@.len() == 9);
    assert("timed_out"@.len() == 9);
    assert("model"@[0] != "usage"@[0]);
    assert("exit_code"@[0] != "timed_out"@[0]);

}

} // verus!
