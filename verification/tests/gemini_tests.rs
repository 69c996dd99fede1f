use friday::gemini::{
    advance, arg_text, last_part, tool_request, CallArg, Candidate, CandidateContent,
    CandidatePart, Exchange, ExchangeAction, ExchangeEvent, FridayBrain, FunctionCall,
    GeminiResponse, ToolRequest,
};

fn arg(key: &str, text: Option<&str>) -> CallArg {
    CallArg { key: key.to_string(), text: text.map(|t| t.to_string()) }
}

fn call(name: &str, args: Vec<CallArg>) -> FunctionCall {
    FunctionCall { name: name.to_string(), args }
}

fn reply(parts: Vec<CandidatePart>) -> GeminiResponse {
    GeminiResponse {
        candidates: Some(vec![Candidate { content: Some(CandidateContent { parts: Some(parts) }) }]),
    }
}

fn text_part(t: &str) -> CandidatePart {
    CandidatePart { text: Some(t.to_string()), function_call: None }
}

fn complete(a: ExchangeAction) -> Result<String, String> {
    match a {
        ExchangeAction::Complete(r) => r,
        _ => panic!("the exchange did not complete"),
    }
}

#[test]
fn brain_keeps_its_key_and_endpoint() {
    let b = FridayBrain::new("k123".to_string());
    assert_eq!(b.api_key, "k123");
    assert_eq!(
        b.endpoint(),
        "https://generativelanguage.googleapis.com/v1beta/models/gemini-3.7-flash:generateContent?key=k123"
    );
}

#[test]
fn tool_declarations_name_three_tools() {
    let t = FridayBrain::get_tool_declarations();
    assert_eq!(t.len(), 1);
    let d = &t[0].function_declarations;
    let names: Vec<&str> = d.iter().map(|x| x.name.as_str()).collect();
    assert_eq!(names, vec!["run_terminal_command", "open_application", "read_system_info"]);
    assert_eq!(d[0].parameters.schema_type, "OBJECT");
    assert_eq!(d[0].parameters.properties[0].name, "command");
    assert_eq!(d[0].parameters.properties[0].schema_type, "STRING");
    assert_eq!(d[0].parameters.required, Some(vec!["command".to_string()]));
    assert_eq!(d[1].parameters.properties[0].name, "target");
    assert_eq!(
        d[1].parameters.properties[0].description,
        "Executable name (e.g., 'spotify', 'notepad') or full URL (e.g., 'https://youtube.com')."
    );
    assert!(d[2].parameters.properties.is_empty());
    assert!(d[2].parameters.required.is_none());
}

#[test]
fn every_declared_tool_is_dispatched() {
    for d in &FridayBrain::get_tool_declarations()[0].function_declarations {
        let r = tool_request(&call(&d.name, vec![]));
        assert!(!matches!(r, ToolRequest::Unknown), "{}", d.name);
    }
}

#[test]
fn request_asks_as_user_with_tools() {
    let r = FridayBrain::build_request("What time is it?");
    assert_eq!(r.contents.len(), 1);
    assert_eq!(r.contents[0].role, "user");
    assert_eq!(r.contents[0].parts[0].text.as_deref(), Some("What time is it?"));
    assert_eq!(r.tools.as_ref().map(|t| t.len()), Some(1));
}

#[test]
fn asking_posts_to_the_endpoint() {
    let b = FridayBrain::new("abc".to_string());
    let (s, a) = b.ask_gemini("hi");
    assert!(matches!(s, Exchange::AwaitingStatus));
    match a {
        ExchangeAction::Post { url, request } => {
            assert!(url.ends_with("?key=abc"));
            assert_eq!(request.contents[0].parts[0].text.as_deref(), Some("hi"));
        }
        _ => panic!("expected a post"),
    }
}

#[test]
fn arguments_are_looked_up_by_key() {
    let args = vec![arg("x", Some("1")), arg("command", Some("dir")), arg("command", Some("later"))];
    assert_eq!(arg_text(&args, "command"), "dir");
    assert_eq!(arg_text(&args, "missing"), "");
    assert_eq!(arg_text(&vec![arg("command", None)], "command"), "");
}

#[test]
fn the_last_part_of_the_last_candidate_counts() {
    let resp = GeminiResponse {
        candidates: Some(vec![
            Candidate { content: Some(CandidateContent { parts: Some(vec![text_part("first")]) }) },
            Candidate {
                content: Some(CandidateContent { parts: Some(vec![text_part("a"), text_part("b")]) }),
            },
        ]),
    };
    assert_eq!(last_part(resp).and_then(|p| p.text).as_deref(), Some("b"));
    assert!(last_part(GeminiResponse { candidates: None }).is_none());
    assert!(last_part(GeminiResponse { candidates: Some(vec![]) }).is_none());
    assert!(last_part(GeminiResponse { candidates: Some(vec![Candidate { content: None }]) }).is_none());
}

#[test]
fn tools_are_dispatched_by_name() {
    match tool_request(&call("run_terminal_command", vec![arg("command", Some("Get-Date"))])) {
        ToolRequest::RunTerminalCommand { command } => assert_eq!(command, "Get-Date"),
        _ => panic!("wrong tool"),
    }
    match tool_request(&call("open_application", vec![arg("target", Some("notepad"))])) {
        ToolRequest::OpenApplication { target } => assert_eq!(target, "notepad"),
        _ => panic!("wrong tool"),
    }
    assert!(matches!(tool_request(&call("read_system_info", vec![])), ToolRequest::ReadSystemInfo));
    assert!(matches!(tool_request(&call("format_disk", vec![])), ToolRequest::Unknown));
}

#[test]
fn network_failure_fails() {
    let (s, a) = advance(Exchange::AwaitingStatus, ExchangeEvent::SendFailed("timeout".to_string()));
    assert!(matches!(s, Exchange::Finished));
    assert_eq!(complete(a), Err("Network request failed: timeout".to_string()));
}

#[test]
fn http_error_fails() {
    let (s, a) = advance(
        Exchange::AwaitingStatus,
        ExchangeEvent::StatusReceived { code: 404, text: "404 Not Found".to_string() },
    );
    assert!(matches!(s, Exchange::Finished));
    assert_eq!(complete(a), Err("Gemini returned HTTP error: 404 Not Found".to_string()));
}

#[test]
fn success_status_reads_the_body() {
    let (s, a) = advance(
        Exchange::AwaitingStatus,
        ExchangeEvent::StatusReceived { code: 200, text: "200 OK".to_string() },
    );
    assert!(matches!(s, Exchange::AwaitingBody));
    assert!(matches!(a, ExchangeAction::ReadBody));
}

#[test]
fn unreadable_body_fails() {
    let (_, a) = advance(Exchange::AwaitingBody, ExchangeEvent::BodyUnreadable("eof".to_string()));
    assert_eq!(complete(a), Err("Failed to parse Gemini response: eof".to_string()));
}

#[test]
fn text_reply_is_the_answer() {
    let (s, a) = advance(Exchange::AwaitingBody, ExchangeEvent::BodyParsed(reply(vec![text_part("Hello!")])));
    assert!(matches!(s, Exchange::Finished));
    assert_eq!(complete(a), Ok("Hello!".to_string()));
}

#[test]
fn empty_reply_has_a_note() {
    let (_, a) = advance(Exchange::AwaitingBody, ExchangeEvent::BodyParsed(GeminiResponse { candidates: None }));
    assert_eq!(complete(a), Ok("No readable response or tool call received.".to_string()));
    let empty = CandidatePart { text: None, function_call: None };
    let (_, a) = advance(Exchange::AwaitingBody, ExchangeEvent::BodyParsed(reply(vec![empty])));
    assert_eq!(complete(a), Ok("No readable response or tool call received.".to_string()));
}

#[test]
fn tool_call_runs_the_tool_then_answers() {
    let part = CandidatePart {
        text: Some("ignored".to_string()),
        function_call: Some(call("run_terminal_command", vec![arg("command", Some("Get-Date"))])),
    };
    let (s, a) = advance(Exchange::AwaitingBody, ExchangeEvent::BodyParsed(reply(vec![part])));
    match a {
        ExchangeAction::RunTool(ToolRequest::RunTerminalCommand { command }) => assert_eq!(command, "Get-Date"),
        _ => panic!("expected the terminal tool"),
    }
    let (s, a) = advance(s, ExchangeEvent::ToolFinished("Monday".to_string()));
    assert!(matches!(s, Exchange::Finished));
    assert_eq!(complete(a), Ok("[Action Executed: run_terminal_command]\nMonday".to_string()));
}

#[test]
fn unknown_tool_is_answered_without_running() {
    let part = CandidatePart { text: None, function_call: Some(call("launch_rocket", vec![])) };
    let (s, a) = advance(Exchange::AwaitingBody, ExchangeEvent::BodyParsed(reply(vec![part])));
    assert!(matches!(s, Exchange::Finished));
    assert_eq!(
        complete(a),
        Ok("[Action Executed: launch_rocket]\nUnknown tool call: launch_rocket".to_string())
    );
}

#[test]
fn finished_exchange_ignores_events() {
    let (s, a) = advance(Exchange::Finished, ExchangeEvent::ToolFinished("x".to_string()));
    assert!(matches!(s, Exchange::Finished));
    assert!(matches!(a, ExchangeAction::Ignore));
    let (s, a) = advance(Exchange::AwaitingStatus, ExchangeEvent::ToolFinished("x".to_string()));
    assert!(matches!(s, Exchange::AwaitingStatus));
    assert!(matches!(a, ExchangeAction::Ignore));
}
