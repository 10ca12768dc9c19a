//! Runs code in a child process, as a tool.
use crate::duplicate::{duplicate_all, Duplicate};
use crate::events::{ToolCallResponse, ToolCallResponseView};
use crate::json::{Json, JsonView};
use crate::plugins::process::{exit_code, exit_code_of, ProcessOutcome, NO_EXIT_CODE};
use crate::text::{
    cat2, cat3, contains, decimal, decimal_of, has_part, own, part_stands_in_whole, same, view_opt,
    views,
};
use crate::wire::{
    as_record, bool_at, default_u64_at, i32_at, read_bool_at, read_default_u64_at, read_i32_at,
    record,
};
use vstd::prelude::*;

verus! {

/// Seconds that code may run when nothing is said.
pub const DEFAULT_TIMEOUT_SECONDS: u64 = 10;

/// Seconds that code may run at most.
pub const MAX_TIMEOUT_SECONDS: u64 = 30;

/// Code to run.
pub struct CodeExecuteRequest {
    pub language: String,
    pub code: String,
    pub timeout_seconds: u64,
}

/// The mathematical content of a [`CodeExecuteRequest`].
pub struct CodeExecuteRequestView {
    pub language: Seq<char>,
    pub code: Seq<char>,
    pub timeout_seconds: u64,
}

impl View for CodeExecuteRequest {
    type V = CodeExecuteRequestView;

    open spec fn view(&self) -> CodeExecuteRequestView {
        CodeExecuteRequestView {
            language: self.language@,
            code: self.code@,
            timeout_seconds: self.timeout_seconds,
        }
    }
}

impl Duplicate for CodeExecuteRequest {
    fn copy(&self) -> (r: CodeExecuteRequest) {
        CodeExecuteRequest {
            language: self.language.clone(),
            code: self.code.clone(),
            timeout_seconds: self.timeout_seconds,
        }
    }
}

/// What came of it.
pub struct CodeExecuteResponse {
    pub stdout: String,
    pub stderr: String,
    pub exit_code: i32,
    pub timed_out: bool,
}

/// The mathematical content of a [`CodeExecuteResponse`].
pub struct CodeExecuteResponseView {
    pub stdout: Seq<char>,
    pub stderr: Seq<char>,
    pub exit_code: i32,
    pub timed_out: bool,
}

impl View for CodeExecuteResponse {
    type V = CodeExecuteResponseView;

    open spec fn view(&self) -> CodeExecuteResponseView {
        CodeExecuteResponseView {
            stdout: self.stdout@,
            stderr: self.stderr@,
            exit_code: self.exit_code,
            timed_out: self.timed_out,
        }
    }
}

impl Duplicate for CodeExecuteResponse {
    fn copy(&self) -> (r: CodeExecuteResponse) {
        CodeExecuteResponse {
            stdout: self.stdout.clone(),
            stderr: self.stderr.clone(),
            exit_code: self.exit_code,
            timed_out: self.timed_out,
        }
    }
}

/// The document of a [`CodeExecuteRequest`].
pub open spec fn code_execute_request_json(x: CodeExecuteRequestView) -> JsonView {
    JsonView::object().put(
        "language"@,
        JsonView::Text(x.language),
    ).put(
        "code"@,
        JsonView::Text(x.code),
    ).put(
        "timeout_seconds"@,
        JsonView::Int(x.timeout_seconds as int),
    )
}

/// The [`CodeExecuteRequest`] that a document states.
pub open spec fn code_execute_request_of(j: JsonView) -> Option<CodeExecuteRequestView> {
    let j = record(j, seq!["language"@, "code"@, "timeout_seconds"@], 2);
    match (
        j.text_at("language"@),
        j.text_at("code"@),
        default_u64_at(j, "timeout_seconds"@, 10),
    ) {
        (Some(language), Some(code), Some(timeout_seconds)) => Some(
            CodeExecuteRequestView { language, code, timeout_seconds: timeout_seconds as u64 },
        ),
        _ => None,
    }
}

/// The document of a [`CodeExecuteRequest`].
pub fn code_execute_request_document(x: &CodeExecuteRequest) -> (r: Json)
    ensures
        r@ == code_execute_request_json(x@),
{
    Json::object()
        .put("language", Json::text(&x.language))
        .put("code", Json::text(&x.code))
        .put("timeout_seconds", Json::Unsigned(x.timeout_seconds))
}

/// The [`CodeExecuteRequest`] that a document states.
pub fn read_code_execute_request(j: &Json) -> (r: Option<CodeExecuteRequest>)
    ensures
        view_opt(r) == code_execute_request_of(j@),
{
    let names: Vec<&'static str> = vec!["language", "code", "timeout_seconds"];
    assert(views(names@) =~= seq!["language"@, "code"@, "timeout_seconds"@]);
    let spread = as_record(j, &names, 2);
    let j = match &spread {
        Some(x) => x,
        None => j,
    };
    match (
        j.text_at("language"),
        j.text_at("code"),
        read_default_u64_at(j, "timeout_seconds", 10),
    ) {
        (Some(language), Some(code), Some(timeout_seconds)) => Some(
            CodeExecuteRequest { language, code, timeout_seconds },
        ),
        _ => None,
    }
}

/// The names of the fields are different.
proof fn code_execute_request_names_differ()
    ensures
        "code"@ != "language"@,
        "code"@ != "timeout_seconds"@,
        "language"@ != "timeout_seconds"@,
{
    reveal_strlit("code");
    assert("code"@.len() == 4);
    reveal_strlit("language");
    assert("language"@.len() == 8);
    reveal_strlit("timeout_seconds");
    assert("timeout_seconds"@.len() == 15);
}

/// A [`CodeExecuteRequest`] is read back from its document.
pub proof fn code_execute_request_round_trip(x: CodeExecuteRequestView)
    ensures
        code_execute_request_of(code_execute_request_json(x)) == Some(x),
{
    code_execute_request_names_differ();
    let j = code_execute_request_json(x);
}

/// The document of a [`CodeExecuteResponse`].
pub open spec fn code_execute_response_json(x: CodeExecuteResponseView) -> JsonView {
    JsonView::object().put(
        "stdout"@,
        JsonView::Text(x.stdout),
    ).put(
        "stderr"@,
        JsonView::Text(x.stderr),
    ).put(
        "exit_code"@,
        JsonView::Int(x.exit_code as int),
    ).put(
        "timed_out"@,
        JsonView::Bool(x.timed_out),
    )
}

/// The [`CodeExecuteResponse`] that a document states.
pub open spec fn code_execute_response_of(j: JsonView) -> Option<CodeExecuteResponseView> {
    let j = record(j, seq!["stdout"@, "stderr"@, "exit_code"@, "timed_out"@], 4);
    match (
        j.text_at("stdout"@),
        j.text_at("stderr"@),
        i32_at(j, "exit_code"@),
        bool_at(j, "timed_out"@),
    ) {
        (Some(stdout), Some(stderr), Some(exit_code), Some(timed_out)) => Some(
            CodeExecuteResponseView { stdout, stderr, exit_code: exit_code as i32, timed_out },
        ),
        _ => None,
    }
}

/// The document of a [`CodeExecuteResponse`].
pub fn code_execute_response_document(x: &CodeExecuteResponse) -> (r: Json)
    ensures
        r@ == code_execute_response_json(x@),
{
    Json::object()
        .put("stdout", Json::text(&x.stdout))
        .put("stderr", Json::text(&x.stderr))
        .put("exit_code", Json::Signed(x.exit_code as i64))
        .put("timed_out", Json::Bool(x.timed_out))
}

/// The [`CodeExecuteResponse`] that a document states.
pub fn read_code_execute_response(j: &Json) -> (r: Option<CodeExecuteResponse>)
    ensures
        view_opt(r) == code_execute_response_of(j@),
{
    let names: Vec<&'static str> = vec!["stdout", "stderr", "exit_code", "timed_out"];
    assert(views(names@) =~= seq!["stdout"@, "stderr"@, "exit_code"@, "timed_out"@]);
    let spread = as_record(j, &names, 4);
    let j = match &spread {
        Some(x) => x,
        None => j,
    };
    match (
        j.text_at("stdout"),
        j.text_at("stderr"),
        read_i32_at(j, "exit_code"),
        read_bool_at(j, "timed_out"),
    ) {
        (Some(stdout), Some(stderr), Some(exit_code), Some(timed_out)) => Some(
            CodeExecuteResponse { stdout, stderr, exit_code, timed_out },
        ),
        _ => None,
    }
}

/// The names of the fields are different.
proof fn code_execute_response_names_differ()
    ensures
        "exit_code"@ != "stderr"@,
        "exit_code"@ != "stdout"@,
        "exit_code"@ != "timed_out"@,
        "stderr"@ != "stdout"@,
        "stderr"@ != "timed_out"@,
        "stdout"@ != "timed_out"@,
{
    reveal_strlit("exit_code");
    assert("exit_code"@.len() == 9);
    reveal_strlit("stderr");
    assert("stderr"@.len() == 6);
    reveal_strlit("stdout");
    assert("stdout"@.len() == 6);
    reveal_strlit("timed_out");
    assert("timed_out"@.len() == 9);
    assert("exit_code"@[0] == 'e');
    assert("timed_out"@[0] == 't');
    assert("stderr"@[3] == 'e');
    assert("stdout"@[3] == 'o');
}

/// A [`CodeExecuteResponse`] is read back from its document.
pub proof fn code_execute_response_round_trip(x: CodeExecuteResponseView)
    ensures
        code_execute_response_of(code_execute_response_json(x)) == Some(x),
{
    code_execute_response_names_differ();
    let j = code_execute_response_json(x);
}

/// The request in the arguments of a tool call.
pub open spec fn request_in(a: JsonView) -> CodeExecuteRequestView {
    CodeExecuteRequestView {
        language: a.text_or("language"@, "bash"@),
        code: a.text_or("code"@, Seq::empty()),
        timeout_seconds: a.u64_at("timeout_seconds"@).unwrap_or(
            DEFAULT_TIMEOUT_SECONDS as int,
        ) as u64,
    }
}

/// The request in the arguments of a tool call.
pub fn request_from_arguments(a: &Json) -> (r: CodeExecuteRequest)
    ensures
        r@ == request_in(a@),
{
    let code = match a.text_at("code") {
        Some(c) => c,
        None => String::new(),
    };
    let timeout_seconds: u64 = match a.u64_at("timeout_seconds") {
        Some(n) => n,
        None => DEFAULT_TIMEOUT_SECONDS,
    };
    CodeExecuteRequest { language: a.text_or("language", "bash"), code, timeout_seconds }
}

/// A program to start.
pub struct ExecutionPlan {
    pub program: String,
    pub args: Vec<String>,
    pub timeout_seconds: u64,
}

/// The program that runs a language, and the switch before the code.
pub open spec fn interpreter(language: Seq<char>) -> Option<(Seq<char>, Seq<char>)> {
    if language == "python"@ {
        Some(("python3"@, "-c"@))
    } else if language == "bash"@ {
        Some(("bash"@, "-c"@))
    } else if language == "javascript"@ {
        Some(("node"@, "-e"@))
    } else {
        None
    }
}

/// A failure without output.
pub open spec fn failure(stderr: Seq<char>, timed_out: bool) -> CodeExecuteResponseView {
    CodeExecuteResponseView { stdout: Seq::empty(), stderr, exit_code: NO_EXIT_CODE, timed_out }
}

/// A failure without output.
fn failed(stderr: String, timed_out: bool) -> (r: CodeExecuteResponse)
    ensures
        r@ == failure(stderr@, timed_out),
{
    CodeExecuteResponse { stdout: String::new(), stderr, exit_code: NO_EXIT_CODE, timed_out }
}

/// How to run a request, or what to answer where its language is not known. The
/// time is cut to the maximum.
pub fn plan_execution(request: &CodeExecuteRequest) -> (r: Result<
    ExecutionPlan,
    CodeExecuteResponse,
>)
    ensures
        match interpreter(request@.language) {
            Some((program, switch)) => r matches Ok(p) && p.program@ == program && views(p.args@)
                == seq![switch, request@.code] && p.timeout_seconds == if request.timeout_seconds
                <= MAX_TIMEOUT_SECONDS {
                request.timeout_seconds
            } else {
                MAX_TIMEOUT_SECONDS
            },
            None => r matches Err(e) && e@ == failure(
                "Unsupported language: "@ + request@.language
                    + ". Supported: python, bash, javascript"@,
                false,
            ),
        },
{
    let timeout_seconds: u64 = if request.timeout_seconds <= MAX_TIMEOUT_SECONDS {
        request.timeout_seconds
    } else {
        MAX_TIMEOUT_SECONDS
    };
    let (program, switch) = if same(&request.language, "python") {
        ("python3", "-c")
    } else if same(&request.language, "bash") {
        ("bash", "-c")
    } else if same(&request.language, "javascript") {
        ("node", "-e")
    } else {
        return Err(
            failed(
                cat3(
                    "Unsupported language: ",
                    &request.language,
                    ". Supported: python, bash, javascript",
                ),
                false,
            ),
        );
    };
    let mut args: Vec<String> = Vec::new();
    args.push(own(switch));
    args.push(request.code.clone());
    assert(views(args@) =~= seq![switch@, request@.code]);
    Ok(ExecutionPlan { program: own(program), args, timeout_seconds })
}

/// The program and the arguments of an attempt: without the network where it is
/// isolated.
pub fn command_line(plan: &ExecutionPlan, isolated: bool) -> (r: (String, Vec<String>))
    ensures
        if isolated {
            r.0@ == "unshare"@ && views(r.1@) == seq!["--net"@, plan.program@] + views(plan.args@)
        } else {
            r.0@ == plan.program@ && views(r.1@) == views(plan.args@)
        },
{
    if isolated {
        let mut args: Vec<String> = Vec::new();
        args.push(own("--net"));
        args.push(plan.program.clone());
        let ghost head = args@;
        let mut rest = duplicate_all(&plan.args);
        let ghost tail = rest@;
        args.append(&mut rest);
        assert(views(args@) =~= seq!["--net"@, plan.program@] + views(tail));
        (own("unshare"), args)
    } else {
        (plan.program.clone(), duplicate_all(&plan.args))
    }
}

/// What to do next about a request.
pub enum ExecutorStep {
    /// Run it without isolation.
    RunPlain,
    /// Answer it.
    Done(CodeExecuteResponse),
}

/// What follows when a process could not be started: an isolated attempt is
/// repeated without isolation.
pub fn after_spawn_failure(isolated: bool) -> (r: ExecutorStep)
    ensures
        if isolated {
            r is RunPlain
        } else {
            r matches ExecutorStep::Done(x) && x@ == failure(
                "Execution error: Failed to spawn subprocess"@,
                false,
            )
        },
{
    if isolated {
        ExecutorStep::RunPlain
    } else {
        ExecutorStep::Done(failed(own("Execution error: Failed to spawn subprocess"), false))
    }
}

/// What a finished process answers.
pub open spec fn process_response(
    outcome: ProcessOutcome,
    timeout_seconds: u64,
) -> CodeExecuteResponseView {
    match outcome {
        ProcessOutcome::Exited { code, stdout, stderr } => CodeExecuteResponseView {
            stdout: stdout@,
            stderr: stderr@,
            exit_code: exit_code_of(code),
            timed_out: false,
        },
        ProcessOutcome::Failed(e) => failure("Process error: "@ + e@, false),
        ProcessOutcome::TimedOut => failure(
            "Execution timed out after "@ + decimal(timeout_seconds as nat) + "s"@,
            true,
        ),
    }
}

/// The failure of an attempt is one of the isolation.
pub open spec fn isolation_failed(x: CodeExecuteResponseView) -> bool {
    x.exit_code != 0 && (contains(x.stderr, "unshare"@) || contains(
        x.stderr,
        "Operation not permitted"@,
    ))
}

/// What follows when a process has ended: an attempt that its isolation made fail
/// is repeated without it.
pub fn after_run(isolated: bool, outcome: ProcessOutcome, timeout_seconds: u64) -> (r: ExecutorStep)
    ensures
        ({
            let x = process_response(outcome, timeout_seconds);
            if isolated && isolation_failed(x) {
                r is RunPlain
            } else {
                r matches ExecutorStep::Done(y) && y@ == x
            }
        }),
{
    let x = match outcome {
        ProcessOutcome::Exited { code, stdout, stderr } => CodeExecuteResponse {
            stdout,
            stderr,
            exit_code: exit_code(code),
            timed_out: false,
        },
        ProcessOutcome::Failed(e) => failed(cat2("Process error: ", &e), false),
        ProcessOutcome::TimedOut => failed(
            cat3("Execution timed out after ", &decimal_of(timeout_seconds), "s"),
            true,
        ),
    };
    if isolated && x.exit_code != 0 && (has_part(&x.stderr, "unshare") || has_part(
        &x.stderr,
        "Operation not permitted",
    )) {
        ExecutorStep::RunPlain
    } else {
        ExecutorStep::Done(x)
    }
}

/// The answer to a tool call: an error unless the code ran to its end with success.
pub fn tool_response(tool_id: &str, x: &CodeExecuteResponse) -> (r: ToolCallResponse)
    ensures
        r@ == (ToolCallResponseView {
            tool_id: tool_id@,
            result: code_execute_response_json(x@),
            is_error: x@.exit_code != 0,
        }),
{
    ToolCallResponse {
        tool_id: own(tool_id),
        result: code_execute_response_document(x),
        is_error: x.exit_code != 0,
    }
}

/// What a program printed and how it ended is told as it is; a run that did not end is told to
/// have failed.
pub proof fn run_is_told(
    code: Option<i32>,
    stdout: String,
    stderr: String,
    e: String,
    timeout_seconds: u64,
)
    ensures
        ({
            let r = process_response(
                ProcessOutcome::Exited { code, stdout, stderr },
                timeout_seconds,
            );
            let f = process_response(ProcessOutcome::Failed(e), timeout_seconds);
            let t = process_response(ProcessOutcome::TimedOut, timeout_seconds);
            &&& r.stdout == stdout@
            &&& r.stderr == stderr@
            &&& code is Some ==> r.exit_code == code->0
            &&& code is None ==> r.exit_code != 0
            &&& !r.timed_out
            &&& f.exit_code != 0 && !f.timed_out && contains(f.stderr, e@)
            &&& t.exit_code != 0 && t.timed_out && contains(
                t.stderr,
                decimal(timeout_seconds as nat),
            )
        }),
{
    part_stands_in_whole("Process error: "@, e@, Seq::empty());
    assert("Process error: "@ + e@ + Seq::<char>::empty() =~= "Process error: "@ + e@);
    part_stands_in_whole(
        "Execution timed out after "@,
        decimal(timeout_seconds as nat),
        "s"@,
    );
}

/// Code is run in the language and for the time that the arguments name.
pub proof fn arguments_are_read(a: JsonView)
    ensures
        a.text_at("language"@) is Some ==> Some(request_in(a).language) == a.text_at("language"@),
        a.text_at("code"@) is Some ==> Some(request_in(a).code) == a.text_at("code"@),
        a.u64_at("timeout_seconds"@) is Some ==> request_in(a).timeout_seconds == a.u64_at(
            "timeout_seconds"@,
        )->0,
        a.text_at("language"@) is None ==> request_in(a).language == "bash"@,
{
}

/// A plain run follows only where the isolated one failed and blames the isolation.
pub proof fn isolation_is_blamed(x: CodeExecuteResponseView)
    ensures
        x.exit_code == 0 ==> !isolation_failed(x),
        x.exit_code != 0 && contains(x.stderr, "unshare"@) ==> isolation_failed(x),
        x.exit_code != 0 && contains(x.stderr, "Operation not permitted"@) ==> isolation_failed(x),
        !contains(x.stderr, "unshare"@) && !contains(x.stderr, "Operation not permitted"@)
            ==> !isolation_failed(x),
{
}

/// Each field of a request stands under its own name.
pub proof fn request_is_written(x: CodeExecuteRequestView)
    ensures
        code_execute_request_json(x).text_at("language"@) == Some(x.language),
        code_execute_request_json(x).text_at("code"@) == Some(x.code),
        code_execute_request_json(x).get("timeout_seconds"@) == Some(JsonView::Int(x.timeout_seconds as int)),
{
    reveal_strlit("language");
    reveal_strlit("code");
    reveal_strlit("timeout_seconds");
    assert("language"@.len() == 8);
    assert("code"@.len() == 4);
    assert("timeout_seconds"@.len() == 15);

}

/// Each field of a response stands under its own name.
pub proof fn response_is_written(x: CodeExecuteResponseView)
    ensures
        code_execute_response_json(x).text_at("stdout"@) == Some(x.stdout),
        code_execute_response_json(x).text_at("stderr"@) == Some(x.stderr),
        code_execute_response_json(x).get("exit_code"@) == Some(JsonView::Int(x.exit_code as int)),
        code_execute_response_json(x).get("timed_out"@) == Some(JsonView::Bool(x.timed_out)),
{
    reveal_strlit("stdout");
    reveal_strlit("stderr");
    reveal_strlit("exit_code");
    reveal_strlit("timed_out");
    assert("stdout"@.len() == 6);
    assert("stderr"@.len() == 6);
    assert("exit_code"@.len() == 9);
    assert("timed_out"@.len() == 9);
    assert("stdout"@[3] != "stderr"@[3]);
    assert("exit_code"@[0] != "timed_out"@[0]);

}

/// Each language has its interpreter; other languages have none.
pub proof fn languages_are_known(language: Seq<char>)
    ensures
        language == "python"@ ==> interpreter(language) == Some(("python3"@, "-c"@)),
        language == "bash"@ ==> interpreter(language) == Some(("bash"@, "-c"@)),
        language == "javascript"@ ==> interpreter(language) == Some(("node"@, "-e"@)),
        language != "python"@ && language != "bash"@ && language != "javascript"@ ==> interpreter(
            language,
        ) is None,
{
    reveal_strlit("python");
    reveal_strlit("bash");
    reveal_strlit("javascript");
    assert("python"@.len() == 6);
    assert("bash"@.len() == 4);
    assert("javascript"@.len() == 10);
}

} // verus!
