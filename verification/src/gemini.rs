//! The assistant's exchange with the Gemini service: the request it sends,
//! how it reads the reply, and which tool a reply asks for.
use vstd::prelude::*;
use crate::text::{join2, join3};
use crate::desktop::{is_success_status, status_success_spec};

verus! {

/// One argument of a function call in a reply: its key, and its value when
/// that value is a JSON string.
pub struct CallArg {
    pub key: String,
    pub text: Option<String>,
}

/// A function call that the model asks for.
pub struct FunctionCall {
    pub name: String,
    /// The entries of the call's argument object, each key once; empty when
    /// the arguments are not a JSON object.
    pub args: Vec<CallArg>,
}

/// One part of a candidate's content.
pub struct CandidatePart {
    pub text: Option<String>,
    pub function_call: Option<FunctionCall>,
}

/// The content of a candidate reply.
pub struct CandidateContent {
    pub parts: Option<Vec<CandidatePart>>,
}

/// One candidate reply.
pub struct Candidate {
    pub content: Option<CandidateContent>,
}

/// A reply of the `generateContent` endpoint.
pub struct GeminiResponse {
    pub candidates: Option<Vec<Candidate>>,
}

/// One part of a request's content.
pub struct ContentPart {
    pub text: Option<String>,
}

/// One turn of a conversation.
pub struct Content {
    pub role: String,
    pub parts: Vec<ContentPart>,
}

/// One parameter of a declared function.
pub struct PropertySchema {
    pub name: String,
    pub schema_type: String,
    pub description: String,
}

/// The parameter object of a declared function.
pub struct ParameterSchema {
    pub schema_type: String,
    pub properties: Vec<PropertySchema>,
    pub required: Option<Vec<String>>,
}

/// A function that the model may ask the assistant to call.
pub struct FunctionDeclaration {
    pub name: String,
    pub description: String,
    pub parameters: ParameterSchema,
}

/// A group of function declarations.
pub struct ToolSet {
    pub function_declarations: Vec<FunctionDeclaration>,
}

/// A request to the `generateContent` endpoint.
pub struct GeminiRequest {
    pub contents: Vec<Content>,
    pub tools: Option<Vec<ToolSet>>,
}

/// The assistant's link to the model: the key it speaks with.
pub struct FridayBrain {
    pub api_key: String,
}

/// A tool that a reply asks for, with the arguments it reads.
pub enum ToolRequest {
    RunTerminalCommand { command: String },
    OpenApplication { target: String },
    ReadSystemInfo,
    Unknown,
}

/// A tool request, as a value of the specification.
pub enum ToolRequestView {
    RunTerminalCommand { command: Seq<char> },
    OpenApplication { target: Seq<char> },
    ReadSystemInfo,
    Unknown,
}

impl View for ToolRequest {
    type V = ToolRequestView;

    open spec fn view(&self) -> ToolRequestView {
        match self {
            ToolRequest::RunTerminalCommand { command } => ToolRequestView::RunTerminalCommand {
                command: command@,
            },
            ToolRequest::OpenApplication { target } => ToolRequestView::OpenApplication {
                target: target@,
            },
            ToolRequest::ReadSystemInfo => ToolRequestView::ReadSystemInfo,
            ToolRequest::Unknown => ToolRequestView::Unknown,
        }
    }
}

/// The address of the `generateContent` endpoint for `key`.
pub open spec fn endpoint_spec(key: Seq<char>) -> Seq<char> {
    "https://generativelanguage.googleapis.com/v1beta/models/gemini-3.7-flash:generateContent?key="@
        + key
}

/// The names of the functions the assistant declares, in order.
pub open spec fn declared_tool_names() -> Seq<Seq<char>> {
    seq!["run_terminal_command"@, "open_application"@, "read_system_info"@]
}

/// `p` is a string parameter named `name`, described by `description`.
pub open spec fn is_string_property(p: PropertySchema, name: Seq<char>, description: Seq<char>) -> bool {
    &&& p.name@ == name
    &&& p.schema_type@ == "STRING"@
    &&& p.description@ == description
}

/// `d` declares the function `name`, described by `description`, whose one
/// required string parameter is `param`, described by `param_description`.
pub open spec fn declares_one_param(
    d: FunctionDeclaration,
    name: Seq<char>,
    description: Seq<char>,
    param: Seq<char>,
    param_description: Seq<char>,
) -> bool {
    &&& d.name@ == name
    &&& d.description@ == description
    &&& d.parameters.schema_type@ == "OBJECT"@
    &&& d.parameters.properties@.len() == 1
    &&& is_string_property(d.parameters.properties@[0], param, param_description)
    &&& d.parameters.required is Some
    &&& d.parameters.required->0@.len() == 1
    &&& d.parameters.required->0@[0]@ == param
}

/// `d` declares the function `name`, described by `description`, with no
/// parameters and no list of required ones.
pub open spec fn declares_no_param(d: FunctionDeclaration, name: Seq<char>, description: Seq<char>) -> bool {
    &&& d.name@ == name
    &&& d.description@ == description
    &&& d.parameters.schema_type@ == "OBJECT"@
    &&& d.parameters.properties@.len() == 0
    &&& d.parameters.required is None
}

/// `t` is the assistant's tool list: one group declaring its three tools.
pub open spec fn is_tool_declarations(t: Seq<ToolSet>) -> bool {
    &&& t.len() == 1
    &&& t[0].function_declarations@.len() == 3
    &&& declares_one_param(
        t[0].function_declarations@[0],
        declared_tool_names()[0],
        "Execute a silent Windows PowerShell command in the background."@,
        "command"@,
        "The exact PowerShell command to run."@,
    )
    &&& declares_one_param(
        t[0].function_declarations@[1],
        declared_tool_names()[1],
        "Launch an application, executable path, or website URL in the default browser."@,
        "target"@,
        "Executable name (e.g., 'spotify', 'notepad') or full URL (e.g., 'https://youtube.com')."@,
    )
    &&& declares_no_param(
        t[0].function_declarations@[2],
        declared_tool_names()[2],
        "Retrieve current CPU load, RAM utilization, and disk storage metrics."@,
    )
}

/// `r` asks the model about `prompt`, as the user, offering the assistant's tools.
pub open spec fn is_prompt_request(r: GeminiRequest, prompt: Seq<char>) -> bool {
    &&& r.contents@.len() == 1
    &&& r.contents@[0].role@ == "user"@
    &&& r.contents@[0].parts@.len() == 1
    &&& r.contents@[0].parts@[0].text is Some
    &&& r.contents@[0].parts@[0].text->0@ == prompt
    &&& r.tools is Some
    &&& is_tool_declarations(r.tools->0@)
}

fn string_property(name: &str, description: &str) -> (p: PropertySchema)
    ensures
        is_string_property(p, name@, description@),
{
    PropertySchema {
        name: String::from_str(name),
        schema_type: String::from_str("STRING"),
        description: String::from_str(description),
    }
}

fn one_param_declaration(
    name: &str,
    description: &str,
    param: &str,
    param_description: &str,
) -> (d: FunctionDeclaration)
    ensures
        declares_one_param(d, name@, description@, param@, param_description@),
{
    let mut properties: Vec<PropertySchema> = Vec::new();
    properties.push(string_property(param, param_description));
    let mut required: Vec<String> = Vec::new();
    required.push(String::from_str(param));
    FunctionDeclaration {
        name: String::from_str(name),
        description: String::from_str(description),
        parameters: ParameterSchema {
            schema_type: String::from_str("OBJECT"),
            properties,
            required: Some(required),
        },
    }
}

impl FridayBrain {
    /// A brain that speaks to the model with `api_key`.
    pub fn new(api_key: String) -> (b: Self)
        ensures
            b.api_key == api_key,
    {
        FridayBrain { api_key }
    }

    /// The tools the assistant offers the model.
    pub fn get_tool_declarations() -> (t: Vec<ToolSet>)
        ensures
            is_tool_declarations(t@),
    {
        let mut decls: Vec<FunctionDeclaration> = Vec::new();
        decls.push(
            one_param_declaration(
                "run_terminal_command",
                "Execute a silent Windows PowerShell command in the background.",
                "command",
                "The exact PowerShell command to run.",
            ),
        );
        decls.push(
            one_param_declaration(
                "open_application",
                "Launch an application, executable path, or website URL in the default browser.",
                "target",
                "Executable name (e.g., 'spotify', 'notepad') or full URL (e.g., 'https://youtube.com').",
            ),
        );
        decls.push(
            FunctionDeclaration {
                name: String::from_str("read_system_info"),
                description: String::from_str(
                    "Retrieve current CPU load, RAM utilization, and disk storage metrics.",
                ),
                parameters: ParameterSchema {
                    schema_type: String::from_str("OBJECT"),
                    properties: Vec::new(),
                    required: None,
                },
            },
        );
        let mut t: Vec<ToolSet> = Vec::new();
        t.push(ToolSet { function_declarations: decls });
        t
    }

    /// The address this brain posts its requests to.
    pub fn endpoint(&self) -> (u: String)
        ensures
            u@ == endpoint_spec(self.api_key@),
    {
        join2(
            "https://generativelanguage.googleapis.com/v1beta/models/gemini-3.7-flash:generateContent?key=",
            self.api_key.as_str(),
        )
    }

    /// The request that asks the model about `prompt`.
    pub fn build_request(prompt: &str) -> (r: GeminiRequest)
        ensures
            is_prompt_request(r, prompt@),
    {
        let mut parts: Vec<ContentPart> = Vec::new();
        parts.push(ContentPart { text: Some(String::from_str(prompt)) });
        let mut contents: Vec<Content> = Vec::new();
        contents.push(Content { role: String::from_str("user"), parts });
        GeminiRequest { contents, tools: Some(Self::get_tool_declarations()) }
    }
}

/// The text of the argument `key` among `args`: the first entry with that key,
/// when its value is a string; the empty text otherwise.
pub open spec fn arg_text_spec(args: Seq<CallArg>, key: Seq<char>) -> Seq<char>
    decreases args.len(),
{
    if args.len() == 0 {
        Seq::empty()
    } else if args[0].key@ == key {
        match args[0].text {
            Some(t) => t@,
            None => Seq::empty(),
        }
    } else {
        arg_text_spec(args.drop_first(), key)
    }
}

/// The text of the argument `key` of a call, or the empty text where there is
/// no string argument of that key.
pub fn arg_text(args: &Vec<CallArg>, key: &str) -> (r: String)
    ensures
        r@ == arg_text_spec(args@, key@),
{
    let wanted = String::from_str(key);
    let mut i: usize = 0;
    assert(args@.subrange(0, args@.len() as int) =~= args@);
    while i < args.len()
        invariant
            i <= args@.len(),
            wanted@ == key@,
            arg_text_spec(args@, key@) == arg_text_spec(args@.subrange(i as int, args@.len() as int), key@),
        decreases args@.len() - i,
    {
        let ghost rest = args@.subrange(i as int, args@.len() as int);
        assert(rest[0] == args@[i as int]);
        if args[i].key == wanted {
            return match &args[i].text {
                Some(t) => t.clone(),
                None => String::new(),
            };
        }
        assert(rest.drop_first() =~= args@.subrange(i + 1, args@.len() as int));
        i = i + 1;
    }
    String::new()
}

/// The last part of the last candidate of a reply, if there is one.
pub open spec fn last_part_spec(resp: GeminiResponse) -> Option<CandidatePart> {
    match resp.candidates {
        None => None,
        Some(cands) => if cands@.len() == 0 {
            None
        } else {
            match cands@.last().content {
                None => None,
                Some(content) => match content.parts {
                    None => None,
                    Some(parts) => if parts@.len() == 0 {
                        None
                    } else {
                        Some(parts@.last())
                    },
                },
            }
        },
    }
}

/// The part of a reply that the assistant acts on: the last part of the
/// last candidate.
pub fn last_part(resp: GeminiResponse) -> (r: Option<CandidatePart>)
    ensures
        r == last_part_spec(resp),
{
    match resp.candidates {
        None => None,
        Some(mut cands) => match cands.pop() {
            None => None,
            Some(c) => match c.content {
                None => None,
                Some(content) => match content.parts {
                    None => None,
                    Some(mut parts) => parts.pop(),
                },
            },
        },
    }
}

/// The tool that `call` asks for.
pub open spec fn tool_request_spec(call: FunctionCall) -> ToolRequestView {
    if call.name@ == declared_tool_names()[0] {
        ToolRequestView::RunTerminalCommand { command: arg_text_spec(call.args@, "command"@) }
    } else if call.name@ == declared_tool_names()[1] {
        ToolRequestView::OpenApplication { target: arg_text_spec(call.args@, "target"@) }
    } else if call.name@ == declared_tool_names()[2] {
        ToolRequestView::ReadSystemInfo
    } else {
        ToolRequestView::Unknown
    }
}

/// The tool that `call` asks for, with the arguments that tool reads.
pub fn tool_request(call: &FunctionCall) -> (r: ToolRequest)
    ensures
        r@ == tool_request_spec(*call),
{
    if call.name == String::from_str("run_terminal_command") {
        ToolRequest::RunTerminalCommand { command: arg_text(&call.args, "command") }
    } else if call.name == String::from_str("open_application") {
        ToolRequest::OpenApplication { target: arg_text(&call.args, "target") }
    } else if call.name == String::from_str("read_system_info") {
        ToolRequest::ReadSystemInfo
    } else {
        ToolRequest::Unknown
    }
}

/// Where an exchange with the model stands.
pub enum Exchange {
    /// The request is out; its status is awaited.
    AwaitingStatus,
    /// The status was a success; the body is awaited.
    AwaitingBody,
    /// The reply asked for the tool `name`; its output is awaited.
    AwaitingTool { name: String },
    /// The exchange has its answer.
    Finished,
}

/// An exchange's stage, as a value of the specification.
pub enum ExchangeView {
    AwaitingStatus,
    AwaitingBody,
    AwaitingTool { name: Seq<char> },
    Finished,
}

impl View for Exchange {
    type V = ExchangeView;

    open spec fn view(&self) -> ExchangeView {
        match self {
            Exchange::AwaitingStatus => ExchangeView::AwaitingStatus,
            Exchange::AwaitingBody => ExchangeView::AwaitingBody,
            Exchange::AwaitingTool { name } => ExchangeView::AwaitingTool { name: name@ },
            Exchange::Finished => ExchangeView::Finished,
        }
    }
}

/// What the outside world reports to an exchange.
pub enum ExchangeEvent {
    /// The request could not be sent; the error's message.
    SendFailed(String),
    /// The reply's status code, and its display form.
    StatusReceived { code: u16, text: String },
    /// The reply's body could not be read as a reply; the error's message.
    BodyUnreadable(String),
    /// The reply's body.
    BodyParsed(GeminiResponse),
    /// What the requested tool reported.
    ToolFinished(String),
}

/// What an exchange asks the outside world to do next.
pub enum ExchangeAction {
    /// Post `request` to `url`.
    Post { url: String, request: GeminiRequest },
    /// Read the reply's body.
    ReadBody,
    /// Run the tool and report its output.
    RunTool(ToolRequest),
    /// The exchange's answer.
    Complete(Result<String, String>),
    /// Nothing: the event does not belong to this stage.
    Ignore,
}

/// An action other than a post, as a value of the specification.
pub enum ExchangeActionView {
    Post { url: Seq<char> },
    ReadBody,
    RunTool(ToolRequestView),
    Complete(Result<Seq<char>, Seq<char>>),
    Ignore,
}

impl View for ExchangeAction {
    type V = ExchangeActionView;

    open spec fn view(&self) -> ExchangeActionView {
        match self {
            ExchangeAction::Post { url, .. } => ExchangeActionView::Post { url: url@ },
            ExchangeAction::ReadBody => ExchangeActionView::ReadBody,
            ExchangeAction::RunTool(t) => ExchangeActionView::RunTool(t@),
            ExchangeAction::Complete(r) => ExchangeActionView::Complete(
                match r {
                    Ok(s) => Ok(s@),
                    Err(e) => Err(e@),
                },
            ),
            ExchangeAction::Ignore => ExchangeActionView::Ignore,
        }
    }
}

/// The answer when the model's reply holds neither text nor a tool call.
pub open spec fn no_reply_text() -> Seq<char> {
    "No readable response or tool call received."@
}

/// The answer after tool `name` reported `output`.
pub open spec fn tool_answer_spec(name: Seq<char>, output: Seq<char>) -> Seq<char> {
    "[Action Executed: "@ + name + "]\n"@ + output
}

/// What a parsed reply leads to.
pub open spec fn on_reply_spec(resp: GeminiResponse) -> (ExchangeView, ExchangeActionView) {
    match last_part_spec(resp) {
        Some(part) => match part.function_call {
            Some(call) => if tool_request_spec(call) is Unknown {
                (
                    ExchangeView::Finished,
                    ExchangeActionView::Complete(
                        Ok(tool_answer_spec(call.name@, "Unknown tool call: "@ + call.name@)),
                    ),
                )
            } else {
                (
                    ExchangeView::AwaitingTool { name: call.name@ },
                    ExchangeActionView::RunTool(tool_request_spec(call)),
                )
            },
            None => match part.text {
                Some(t) => (ExchangeView::Finished, ExchangeActionView::Complete(Ok(t@))),
                None => (ExchangeView::Finished, ExchangeActionView::Complete(Ok(no_reply_text()))),
            },
        },
        None => (ExchangeView::Finished, ExchangeActionView::Complete(Ok(no_reply_text()))),
    }
}

/// The next stage of an exchange, and what it asks for, after `event`.
pub open spec fn advance_spec(state: ExchangeView, event: ExchangeEvent) -> (
    ExchangeView,
    ExchangeActionView,
) {
    match (state, event) {
        (ExchangeView::AwaitingStatus, ExchangeEvent::SendFailed(m)) => (
            ExchangeView::Finished,
            ExchangeActionView::Complete(Err("Network request failed: "@ + m@)),
        ),
        (ExchangeView::AwaitingStatus, ExchangeEvent::StatusReceived { code, text }) => if status_success_spec(code) {
            (ExchangeView::AwaitingBody, ExchangeActionView::ReadBody)
        } else {
            (
                ExchangeView::Finished,
                ExchangeActionView::Complete(Err("Gemini returned HTTP error: "@ + text@)),
            )
        },
        (ExchangeView::AwaitingBody, ExchangeEvent::BodyUnreadable(m)) => (
            ExchangeView::Finished,
            ExchangeActionView::Complete(Err("Failed to parse Gemini response: "@ + m@)),
        ),
        (ExchangeView::AwaitingBody, ExchangeEvent::BodyParsed(resp)) => on_reply_spec(resp),
        (ExchangeView::AwaitingTool { name }, ExchangeEvent::ToolFinished(out)) => (
            ExchangeView::Finished,
            ExchangeActionView::Complete(Ok(tool_answer_spec(name, out@))),
        ),
        (s, _) => (s, ExchangeActionView::Ignore),
    }
}

fn tool_answer(name: &str, output: &str) -> (r: String)
    ensures
        r@ == tool_answer_spec(name@, output@),
{
    join3("[Action Executed: ", name, "]\n").concat(output)
}

/// What a parsed reply leads to: the requested tool, the reply's text, or a
/// note that the reply held neither.
pub fn on_reply(resp: GeminiResponse) -> (r: (Exchange, ExchangeAction))
    ensures
        (r.0@, r.1@) == on_reply_spec(resp),
{
    match last_part(resp) {
        Some(part) => match part.function_call {
            Some(call) => {
                let req = tool_request(&call);
                match req {
                    ToolRequest::Unknown => {
                        let out = join2("Unknown tool call: ", call.name.as_str());
                        (
                            Exchange::Finished,
                            ExchangeAction::Complete(
                                Ok(tool_answer(call.name.as_str(), out.as_str())),
                            ),
                        )
                    },
                    _ => (Exchange::AwaitingTool { name: call.name }, ExchangeAction::RunTool(req)),
                }
            },
            None => match part.text {
                Some(t) => (Exchange::Finished, ExchangeAction::Complete(Ok(t))),
                None => (
                    Exchange::Finished,
                    ExchangeAction::Complete(
                        Ok(String::from_str("No readable response or tool call received.")),
                    ),
                ),
            },
        },
        None => (
            Exchange::Finished,
            ExchangeAction::Complete(
                Ok(String::from_str("No readable response or tool call received.")),
            ),
        ),
    }
}

/// The next stage of an exchange after `event`, and what to do next.
pub fn advance(state: Exchange, event: ExchangeEvent) -> (r: (Exchange, ExchangeAction))
    ensures
        (r.0@, r.1@) == advance_spec(state@, event),
{
    match state {
        Exchange::AwaitingStatus => match event {
            ExchangeEvent::SendFailed(m) => (
                Exchange::Finished,
                ExchangeAction::Complete(Err(join2("Network request failed: ", m.as_str()))),
            ),
            ExchangeEvent::StatusReceived { code, text } => {
                if is_success_status(code) {
                    (Exchange::AwaitingBody, ExchangeAction::ReadBody)
                } else {
                    (
                        Exchange::Finished,
                        ExchangeAction::Complete(
                            Err(join2("Gemini returned HTTP error: ", text.as_str())),
                        ),
                    )
                }
            },
            _ => (Exchange::AwaitingStatus, ExchangeAction::Ignore),
        },
        Exchange::AwaitingBody => match event {
            ExchangeEvent::BodyUnreadable(m) => (
                Exchange::Finished,
                ExchangeAction::Complete(Err(join2("Failed to parse Gemini response: ", m.as_str()))),
            ),
            ExchangeEvent::BodyParsed(resp) => on_reply(resp),
            _ => (Exchange::AwaitingBody, ExchangeAction::Ignore),
        },
        Exchange::AwaitingTool { name } => match event {
            ExchangeEvent::ToolFinished(out) => {
                let answer = tool_answer(name.as_str(), out.as_str());
                (Exchange::Finished, ExchangeAction::Complete(Ok(answer)))
            },
            _ => (Exchange::AwaitingTool { name }, ExchangeAction::Ignore),
        },
        Exchange::Finished => (Exchange::Finished, ExchangeAction::Ignore),
    }
}

/// How many stages an exchange has still to pass before it is finished.
pub open spec fn stages_left(state: ExchangeView) -> nat {
    match state {
        ExchangeView::AwaitingStatus => 3,
        ExchangeView::AwaitingBody => 2,
        ExchangeView::AwaitingTool { .. } => 1,
        ExchangeView::Finished => 0,
    }
}

/// Every function the assistant declares to the model is one it knows how to
/// run: a call of that name never falls to the unknown-tool answer.
pub proof fn lemma_declared_tools_are_dispatched(tools: Seq<ToolSet>, i: int, call: FunctionCall)
    requires
        is_tool_declarations(tools),
        0 <= i < tools[0].function_declarations@.len(),
        call.name@ == tools[0].function_declarations@[i].name@,
    ensures
        !(tool_request_spec(call) is Unknown),
{
}

/// A call whose name the assistant did not declare is answered as an unknown
/// tool, and nothing is run for it.
pub proof fn lemma_undeclared_tools_are_unknown(call: FunctionCall)
    requires
        !declared_tool_names().contains(call.name@),
    ensures
        tool_request_spec(call) is Unknown,
{
    assert(declared_tool_names()[0] == "run_terminal_command"@);
    assert(declared_tool_names()[1] == "open_application"@);
    assert(declared_tool_names()[2] == "read_system_info"@);
}

/// An exchange only moves forward: an event it reacts to takes it to a later
/// stage, and one it ignores leaves it where it was. So every exchange has
/// its answer after at most three events that it reacts to.
pub proof fn lemma_exchange_moves_forward(state: ExchangeView, event: ExchangeEvent)
    ensures
        advance_spec(state, event).1 is Ignore ==> advance_spec(state, event).0 == state,
        !(advance_spec(state, event).1 is Ignore) ==> stages_left(advance_spec(state, event).0)
            < stages_left(state),
{
}

/// An exchange gives its answer exactly when it finishes, and once finished
/// it ignores everything.
pub proof fn lemma_answer_comes_with_finish(state: ExchangeView, event: ExchangeEvent)
    ensures
        (advance_spec(state, event).0 is Finished && !(state is Finished)) <==> advance_spec(
            state,
            event,
        ).1 is Complete,
        state is Finished ==> advance_spec(state, event) == (state, ExchangeActionView::Ignore),
{
}

/// A status outside the success class never yields an answer from the model:
/// the exchange fails with the status in its message.
pub proof fn lemma_http_error_fails(code: u16, text: String)
    requires
        !(200 <= code <= 299),
    ensures
        advance_spec(ExchangeView::AwaitingStatus, ExchangeEvent::StatusReceived { code, text })
            == (ExchangeView::Finished, ExchangeActionView::Complete(
            Err("Gemini returned HTTP error: "@ + text@),
        )),
{
}

/// Only a failed send, a failed status or an unreadable body make an exchange
/// fail; a parsed reply and a tool's report always give an answer.
pub proof fn lemma_failures_come_from_transport(state: ExchangeView, event: ExchangeEvent)
    requires
        advance_spec(state, event).1 matches ExchangeActionView::Complete(Err(_)),
    ensures
        event is SendFailed || event is StatusReceived || event is BodyUnreadable,
{
}

/// A reply whose last part is plain text is answered with that text, unchanged.
pub proof fn lemma_text_reply_is_answer(resp: GeminiResponse, t: String)
    requires
        last_part_spec(resp) matches Some(part) && part.function_call is None && part.text
            == Some(t),
    ensures
        advance_spec(ExchangeView::AwaitingBody, ExchangeEvent::BodyParsed(resp)) == (
            ExchangeView::Finished,
            ExchangeActionView::Complete(Ok(t@)),
        ),
{
}

/// The argument looked up under `key` is the text of the first entry with
/// that key, or empty when that entry's value is not a string.
pub proof fn lemma_arg_text_is_first_match(args: Seq<CallArg>, key: Seq<char>, i: int)
    requires
        0 <= i < args.len(),
        args[i].key@ == key,
        forall|j: int| 0 <= j < i ==> (#[trigger] args[j]).key@ != key,
    ensures
        arg_text_spec(args, key) == match args[i].text {
            Some(t) => t@,
            None => Seq::<char>::empty(),
        },
    decreases i,
{
    if i > 0 {
        assert(args[0].key@ != key);
        let rest = args.drop_first();
        assert forall|j: int| 0 <= j < i - 1 implies (#[trigger] rest[j]).key@ != key by {
            assert(rest[j] == args[j + 1]);
        }
        lemma_arg_text_is_first_match(rest, key, i - 1);
    }
}

/// An argument that no entry carries is looked up as the empty text.
pub proof fn lemma_arg_text_absent(args: Seq<CallArg>, key: Seq<char>)
    requires
        forall|j: int| 0 <= j < args.len() ==> (#[trigger] args[j]).key@ != key,
    ensures
        arg_text_spec(args, key) == Seq::<char>::empty(),
    decreases args.len(),
{
    if args.len() > 0 {
        assert(args[0].key@ != key);
        let rest = args.drop_first();
        assert forall|j: int| 0 <= j < rest.len() implies (#[trigger] rest[j]).key@ != key by {
            assert(rest[j] == args[j + 1]);
        }
        lemma_arg_text_absent(rest, key);
    }
}

/// The parameter each declared tool asks the model for is the argument the
/// assistant reads when that tool is called: a call of a declared tool with a
/// string under the declared parameter's name passes exactly that string on.
pub proof fn lemma_declared_parameter_is_read(tools: Seq<ToolSet>, i: int, call: FunctionCall, j: int)
    requires
        is_tool_declarations(tools),
        0 <= i < 2,
        call.name@ == tools[0].function_declarations@[i].name@,
        0 <= j < call.args@.len(),
        call.args@[j].key@ == tools[0].function_declarations@[i].parameters.properties@[0].name@,
        forall|k: int| 0 <= k < j ==> (#[trigger] call.args@[k]).key@ != call.args@[j].key@,
        (call.args@[j].text is Some),
    ensures
        i == 0 ==> tool_request_spec(call) == (ToolRequestView::RunTerminalCommand {
            command: call.args@[j].text->0@,
        }),
        i == 1 ==> tool_request_spec(call) == (ToolRequestView::OpenApplication {
            target: call.args@[j].text->0@,
        }),
{
    lemma_arg_text_is_first_match(call.args@, call.args@[j].key@, j);
    reveal_strlit("run_terminal_command");
    reveal_strlit("open_application");
    assert("run_terminal_command"@[0] != "open_application"@[0]);
}

/// A reply whose last candidate's last part calls one of the three declared
/// tools sets that very tool to work, whatever else the part holds: the
/// exchange then awaits the tool named in the call, and the tool run is the
/// one of that name, with the call's `command` or `target` argument.
pub proof fn lemma_declared_call_runs_its_tool(
    resp: GeminiResponse,
    cands: Vec<Candidate>,
    content: CandidateContent,
    parts: Vec<CandidatePart>,
    call: FunctionCall,
)
    requires
        resp.candidates == Some(cands),
        cands@.len() > 0,
        cands@.last().content == Some(content),
        content.parts == Some(parts),
        parts@.len() > 0,
        parts@.last().function_call == Some(call),
        call.name@ == "run_terminal_command"@ || call.name@ == "open_application"@ || call.name@
            == "read_system_info"@,
    ensures
        advance_spec(ExchangeView::AwaitingBody, ExchangeEvent::BodyParsed(resp)).0
            == (ExchangeView::AwaitingTool { name: call.name@ }),
        call.name@ == "read_system_info"@ ==> advance_spec(
            ExchangeView::AwaitingBody,
            ExchangeEvent::BodyParsed(resp),
        ).1 == ExchangeActionView::RunTool(ToolRequestView::ReadSystemInfo),
        call.name@ == "run_terminal_command"@ ==> advance_spec(
            ExchangeView::AwaitingBody,
            ExchangeEvent::BodyParsed(resp),
        ).1 == ExchangeActionView::RunTool(
            ToolRequestView::RunTerminalCommand { command: arg_text_spec(call.args@, "command"@) },
        ),
        call.name@ == "open_application"@ ==> advance_spec(
            ExchangeView::AwaitingBody,
            ExchangeEvent::BodyParsed(resp),
        ).1 == ExchangeActionView::RunTool(
            ToolRequestView::OpenApplication { target: arg_text_spec(call.args@, "target"@) },
        ),
{
    reveal_strlit("run_terminal_command");
    reveal_strlit("open_application");
    reveal_strlit("read_system_info");
    assert("run_terminal_command"@[0] != "open_application"@[0]);
    assert("run_terminal_command"@ != "open_application"@);
    assert("run_terminal_command"@[1] != "read_system_info"@[1]);
    assert("run_terminal_command"@ != "read_system_info"@);
    assert("open_application"@[0] != "read_system_info"@[0]);
    assert("open_application"@ != "read_system_info"@);
}

/// A reply whose last candidate's last part holds text and no call is
/// answered with that text, unchanged.
pub proof fn lemma_last_text_is_answer(
    resp: GeminiResponse,
    cands: Vec<Candidate>,
    content: CandidateContent,
    parts: Vec<CandidatePart>,
    t: String,
)
    requires
        resp.candidates == Some(cands),
        cands@.len() > 0,
        cands@.last().content == Some(content),
        content.parts == Some(parts),
        parts@.len() > 0,
        parts@.last().function_call is None,
        parts@.last().text == Some(t),
    ensures
        advance_spec(ExchangeView::AwaitingBody, ExchangeEvent::BodyParsed(resp)) == (
            ExchangeView::Finished,
            ExchangeActionView::Complete(Ok(t@)),
        ),
{
}

/// A call of a name the assistant did not declare is answered at once, as an
/// unknown tool call, without running anything.
pub proof fn lemma_unknown_call_is_answered(
    resp: GeminiResponse,
    cands: Vec<Candidate>,
    content: CandidateContent,
    parts: Vec<CandidatePart>,
    call: FunctionCall,
)
    requires
        resp.candidates == Some(cands),
        cands@.len() > 0,
        cands@.last().content == Some(content),
        content.parts == Some(parts),
        parts@.len() > 0,
        parts@.last().function_call == Some(call),
        call.name@ != "run_terminal_command"@,
        call.name@ != "open_application"@,
        call.name@ != "read_system_info"@,
    ensures
        advance_spec(ExchangeView::AwaitingBody, ExchangeEvent::BodyParsed(resp)) == (
            ExchangeView::Finished,
            ExchangeActionView::Complete(
                Ok("[Action Executed: "@ + call.name@ + "]\n"@ + "Unknown tool call: "@ + call.name@),
            ),
        ),
{
    let n = call.name@;
    assert(tool_answer_spec(n, "Unknown tool call: "@ + n) =~= "[Action Executed: "@ + n + "]\n"@
        + "Unknown tool call: "@ + n);
}

/// A reply without candidates, or whose last candidate has no parts, is
/// answered with the note that nothing readable came.
pub proof fn lemma_empty_reply_has_note(resp: GeminiResponse)
    requires
        resp.candidates is None || resp.candidates->0@.len() == 0 || resp.candidates->0@.last().content
            is None,
    ensures
        advance_spec(ExchangeView::AwaitingBody, ExchangeEvent::BodyParsed(resp)) == (
            ExchangeView::Finished,
            ExchangeActionView::Complete(Ok("No readable response or tool call received."@)),
        ),
{
}

/// What the tool reported is the answer, headed by the tool's name.
pub proof fn lemma_tool_output_is_answered(name: Seq<char>, out: String)
    ensures
        advance_spec(ExchangeView::AwaitingTool { name }, ExchangeEvent::ToolFinished(out)) == (
            ExchangeView::Finished,
            ExchangeActionView::Complete(Ok("[Action Executed: "@ + name + "]\n"@ + out@)),
        ),
{
}

/// The transport's outcomes: a failed send and an unreadable body fail with
/// their error in the message, and a success status leads to reading the body.
pub proof fn lemma_transport_outcomes(m: String, code: u16, text: String)
    ensures
        advance_spec(ExchangeView::AwaitingStatus, ExchangeEvent::SendFailed(m)) == (
            ExchangeView::Finished,
            ExchangeActionView::Complete(Err("Network request failed: "@ + m@)),
        ),
        advance_spec(ExchangeView::AwaitingBody, ExchangeEvent::BodyUnreadable(m)) == (
            ExchangeView::Finished,
            ExchangeActionView::Complete(Err("Failed to parse Gemini response: "@ + m@)),
        ),
        200 <= code <= 299 ==> advance_spec(
            ExchangeView::AwaitingStatus,
            ExchangeEvent::StatusReceived { code, text },
        ) == (ExchangeView::AwaitingBody, ExchangeActionView::ReadBody),
{
}

impl FridayBrain {
    /// Starts asking the model about `prompt`: the exchange then awaits the
    /// status of the request it posts to this brain's endpoint.
    pub fn ask_gemini(&self, prompt: &str) -> (r: (Exchange, ExchangeAction))
        ensures
            r.0 is AwaitingStatus,
            r.1 matches ExchangeAction::Post { url, request } && url@ == endpoint_spec(self.api_key@)
                && is_prompt_request(request, prompt@),
    {
        (
            Exchange::AwaitingStatus,
            ExchangeAction::Post { url: self.endpoint(), request: Self::build_request(prompt) },
        )
    }
}

} // verus!
