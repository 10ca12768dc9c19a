//! Code execution and the coding agent.
use seidrum::events::ToolCallRequest;
use seidrum::json::Json;
use seidrum::plugins::claude_code::{
    build_arguments, claude_code_response_document, extract_prompt, finish_run, not_started,
    plan_call, read_claude_code_output, read_claude_code_response, ClaudeCodeResponse, ClaudeConfig,
};
use seidrum::plugins::code_executor::{
    after_run, after_spawn_failure, code_execute_request_document, code_execute_response_document,
    command_line, plan_execution, read_code_execute_request, read_code_execute_response,
    request_from_arguments, tool_response, CodeExecuteRequest, CodeExecuteResponse, ExecutorStep,
    DEFAULT_TIMEOUT_SECONDS,
};
use seidrum::plugins::process::ProcessOutcome;

#[test]
fn roundtrip_code_execute_request() {
    let req = CodeExecuteRequest {
        language: "python".to_string(),
        code: "print('hello')".to_string(),
        timeout_seconds: 5,
    };
    let json = code_execute_request_document(&req).print();
    let deserialized = read_code_execute_request(&Json::parse(&json).unwrap()).unwrap();
    assert_eq!(req.language, deserialized.language);
    assert_eq!(req.code, deserialized.code);
    assert_eq!(req.timeout_seconds, deserialized.timeout_seconds);
}

#[test]
fn roundtrip_code_execute_response() {
    let resp = CodeExecuteResponse {
        stdout: "hello\n".to_string(),
        stderr: String::new(),
        exit_code: 0,
        timed_out: false,
    };
    let json = code_execute_response_document(&resp).print();
    let deserialized = read_code_execute_response(&Json::parse(&json).unwrap()).unwrap();
    assert_eq!(resp.stdout, deserialized.stdout);
    assert_eq!(resp.exit_code, deserialized.exit_code);
    assert_eq!(resp.timed_out, deserialized.timed_out);
}

#[test]
fn default_timeout_applied() {
    let json = r#"{"language": "python", "code": "print(1)"}"#;
    let req = read_code_execute_request(&Json::parse(json).unwrap()).unwrap();
    assert_eq!(req.timeout_seconds, DEFAULT_TIMEOUT_SECONDS);
    assert_eq!(req.timeout_seconds, 10);
}

#[test]
fn unsupported_language_returns_error() {
    let req = CodeExecuteRequest {
        language: "cobol".to_string(),
        code: "DISPLAY 'HI'".to_string(),
        timeout_seconds: 5,
    };
    let resp = match plan_execution(&req) {
        Ok(_) => panic!("planned"),
        Err(r) => r,
    };
    assert_eq!(resp.exit_code, -1);
    assert!(resp.stderr.contains("Unsupported language"));
}

fn exited(code: Option<i32>, stdout: &str, stderr: &str) -> ProcessOutcome {
    ProcessOutcome::Exited {
        code,
        stdout: stdout.to_string(),
        stderr: stderr.to_string(),
    }
}

#[test]
fn code_runs_isolated_first() {
    let req = request_from_arguments(
        &Json::parse(r#"{"language":"javascript","code":"1","timeout_seconds":99}"#).unwrap(),
    );
    let plan = match plan_execution(&req) {
        Ok(p) => p,
        Err(r) => panic!("{}", r.stderr),
    };
    assert_eq!(plan.timeout_seconds, 30);
    let (program, args) = command_line(&plan, true);
    assert_eq!(program, "unshare");
    assert_eq!(args, vec!["--net", "node", "-e", "1"]);
    let (program, args) = command_line(&plan, false);
    assert_eq!(program, "node");
    assert_eq!(args, vec!["-e", "1"]);

    assert!(matches!(after_spawn_failure(true), ExecutorStep::RunPlain));
    let refused = exited(Some(1), "", "unshare: unshare failed: Operation not permitted");
    assert!(matches!(after_run(true, refused, 30), ExecutorStep::RunPlain));
    match after_run(true, exited(Some(0), "unshare", ""), 30) {
        ExecutorStep::Done(r) => {
            assert_eq!(r.stdout, "unshare");
            assert!(!tool_response("execute-code", &r).is_error);
        }
        _ => panic!("not done"),
    }
    match after_run(false, ProcessOutcome::TimedOut, 30) {
        ExecutorStep::Done(r) => {
            assert_eq!(r.stderr, "Execution timed out after 30s");
            assert!(r.timed_out);
            assert!(tool_response("execute-code", &r).is_error);
        }
        _ => panic!("not done"),
    }
    match after_run(false, exited(None, "", "unshare"), 30) {
        ExecutorStep::Done(r) => assert_eq!(r.exit_code, -1),
        _ => panic!("not done"),
    }
    match after_spawn_failure(false) {
        ExecutorStep::Done(r) => {
            assert_eq!(r.stderr, "Execution error: Failed to spawn subprocess")
        }
        _ => panic!("not done"),
    }
}

#[test]
fn roundtrip_claude_code_output() {
    let raw = r#"{"session_id":"s1","result":"Done","model":"sonnet-4-20250514","usage":{"input_tokens":10}}"#;
    let parsed = read_claude_code_output(&Json::parse(raw).unwrap()).unwrap();
    assert_eq!(parsed.result, "Done");
    assert_eq!(parsed.session_id.unwrap(), "s1");
    assert!(parsed.model.is_some());
    assert!(parsed.usage.is_some());
}

#[test]
fn parse_minimal_output() {
    let raw = r#"{"result":"Hello"}"#;
    let parsed = read_claude_code_output(&Json::parse(raw).unwrap()).unwrap();
    assert_eq!(parsed.result, "Hello");
    assert!(parsed.session_id.is_none());
    assert!(parsed.model.is_none());
}

#[test]
fn roundtrip_claude_code_response() {
    let resp = ClaudeCodeResponse {
        result: "Fixed the bug".to_string(),
        session_id: Some("sess-1".to_string()),
        model: Some("sonnet-4-20250514".to_string()),
        usage: Some(Json::parse(r#"{"input_tokens": 100, "output_tokens": 50}"#).unwrap()),
        exit_code: 0,
        timed_out: false,
    };
    let json = claude_code_response_document(&resp).print();
    let de = read_claude_code_response(&Json::parse(&json).unwrap()).unwrap();
    assert_eq!(resp.result, de.result);
    assert_eq!(resp.session_id, de.session_id);
    assert_eq!(resp.exit_code, de.exit_code);
    assert_eq!(resp.timed_out, de.timed_out);
}

#[test]
fn prompt_extraction_from_tool_call() {
    let args = Json::object().put("prompt", Json::text("fix bug"));
    assert_eq!(extract_prompt(&args), "fix bug");
}

#[test]
fn prompt_extraction_from_telegram() {
    let args = Json::object()
        .put("args", Json::text("fix bug"))
        .put("chat_id", Json::text("123"));
    assert_eq!(extract_prompt(&args), "fix bug");
}

#[test]
fn empty_prompt_detected() {
    let args = Json::object()
        .put("args", Json::text(""))
        .put("chat_id", Json::text("123"));
    assert!(extract_prompt(&args).is_empty());
}

fn config() -> ClaudeConfig {
    ClaudeConfig {
        name: "Coder".to_string(),
        tool_id: "coder".to_string(),
        command: "code".to_string(),
        working_dir: ".".to_string(),
        allowed_tools: "Read,Edit".to_string(),
        max_turns: 25,
        max_budget: Some("1".to_string()),
        timeout_seconds: 300,
        model: String::new(),
    }
}

fn request(arguments: &str) -> ToolCallRequest {
    ToolCallRequest {
        tool_id: "coder".to_string(),
        plugin_id: "coder".to_string(),
        arguments: Json::parse(arguments).unwrap(),
        correlation_id: None,
    }
}

#[test]
fn the_agent_gets_its_arguments() {
    let call = match plan_call(&request(r#"{"prompt":"fix","session_id":"s"}"#), &config()) {
        Ok(c) => c,
        Err(_) => panic!("refused"),
    };
    assert_eq!(call.working_dir, ".");
    assert_eq!(
        build_arguments(&config(), &call),
        vec![
            "-p",
            "fix",
            "--output-format",
            "json",
            "--allowedTools",
            "Read,Edit",
            "--max-turns",
            "25",
            "--max-budget-usd",
            "1",
            "--resume",
            "s"
        ]
    );
    match plan_call(&request("{}"), &config()) {
        Ok(_) => panic!("accepted"),
        Err(r) => assert_eq!(
            r.result.print(),
            r#""Please provide a prompt. Usage: /code <task or question>""#
        ),
    }
}

#[test]
fn runs_of_the_agent_end() {
    let ok = finish_run(exited(Some(0), r#"{"result":"Hi","session_id":"s"}"#, ""), &config());
    assert_eq!(ok.result, "Hi");
    assert_eq!(ok.session_id.as_deref(), Some("s"));
    let raw = finish_run(exited(Some(0), "plain text", "noise"), &config());
    assert_eq!(raw.result, "plain text");
    assert_eq!(raw.exit_code, 0);
    assert_eq!(finish_run(exited(Some(2), "out", "err"), &config()).result, "err");
    assert_eq!(finish_run(exited(Some(2), "out", ""), &config()).result, "out");
    assert_eq!(finish_run(exited(None, "out", ""), &config()).exit_code, -1);
    let late = finish_run(ProcessOutcome::TimedOut, &config());
    assert_eq!(late.result, "Coder timed out after 300s");
    assert!(late.timed_out);
    let failed = finish_run(ProcessOutcome::Failed("pipe".to_string()), &config());
    assert_eq!(failed.result, "Process error: pipe");
    assert_eq!(not_started(&config(), "gone").result, "Failed to start Coder CLI: gone");
}
