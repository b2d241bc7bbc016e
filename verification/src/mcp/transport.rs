//! Failures of the MCP transport, their stable classes, and which of them mean
//! that the arena session was lost.

use vstd::prelude::*;

use crate::json::{
    json_parse_error, json_value_of, json_view, lemma_object_of, member, member_views, parse_json_document,
    string_member, text_member, JsonValue, JsonView,
};
use crate::mcp::protocol::{id_matches, JsonRpcResponse, ToolCallEnvelope, ToolContent};
use crate::text::{
    append_decimal, contains_text, decimal_text, optional_text, text_contains, text_equals, text_views, trim_leading,
    trim_start,
};

verus! {

/// A failed MCP exchange.
#[derive(Debug, Clone, PartialEq, Eq)]
pub enum McpError {
    Timeout { timeout_ms: u64 },
    Transport { message: String },
    HttpStatus { status: u16, message: String },
    Protocol { message: String },
    JsonRpc { code: i64, message: String },
    Tool { tool: String, message: String },
}

/// The decimal numeral of a signed integer.
pub open spec fn signed_decimal_text(value: int) -> Seq<char> {
    if value < 0 {
        "-"@ + decimal_text((-value) as nat)
    } else {
        decimal_text(value as nat)
    }
}

/// The human-readable text of an MCP failure.
pub open spec fn mcp_error_text(error: McpError) -> Seq<char> {
    match error {
        McpError::Timeout { timeout_ms } => "MCP request timed out after "@ + decimal_text(timeout_ms as nat)
            + " ms"@,
        McpError::Transport { message } => "MCP transport failed: "@ + message@,
        McpError::HttpStatus { status, message } => "MCP endpoint returned HTTP "@ + decimal_text(
            status as nat,
        ) + ": "@ + message@,
        McpError::Protocol { message } => "MCP protocol error: "@ + message@,
        McpError::JsonRpc { code, message } => "MCP JSON-RPC error "@ + signed_decimal_text(code as int)
            + ": "@ + message@,
        McpError::Tool { tool, message } => "MCP tool "@ + tool@ + " failed: "@ + message@,
    }
}

pub open spec fn mcp_error_class(error: McpError) -> Seq<char> {
    match error {
        McpError::Timeout { .. } => "timeout"@,
        McpError::Transport { .. } => "transport"@,
        McpError::HttpStatus { .. } => "http_status"@,
        McpError::Protocol { .. } => "protocol"@,
        McpError::JsonRpc { .. } => "json_rpc"@,
        McpError::Tool { .. } => "tool"@,
    }
}

/// The failure means the arena session is gone: the endpoint no longer knows
/// it, refuses its session identifier, or reports the agent disconnected.
pub open spec fn session_lost(error: McpError) -> bool {
    ||| error matches McpError::HttpStatus { status, .. } && status == 404
    ||| error matches McpError::HttpStatus { status, message } && status == 400 && contains_text(
        message@,
        "Invalid or missing MCP session ID"@,
    )
    ||| contains_text(mcp_error_text(error), "AGENT_NOT_CONNECTED"@)
}

fn append_signed_decimal(out: &mut String, value: i64)
    ensures
        final(out)@ == old(out)@ + signed_decimal_text(value as int),
{
    if value < 0 {
        out.append("-");
        let magnitude: u64 = if value == i64::MIN {
            9223372036854775808u64
        } else {
            (-value) as u64
        };
        append_decimal(out, magnitude);
        assert(final(out)@ =~= old(out)@ + signed_decimal_text(value as int));
    } else {
        append_decimal(out, value as u64);
    }
}

impl McpError {
    /// The stable class of the failure.
    pub fn class(&self) -> (class: &'static str)
        ensures
            class@ == mcp_error_class(*self),
    {
        match self {
            McpError::Timeout { .. } => "timeout",
            McpError::Transport { .. } => "transport",
            McpError::HttpStatus { .. } => "http_status",
            McpError::Protocol { .. } => "protocol",
            McpError::JsonRpc { .. } => "json_rpc",
            McpError::Tool { .. } => "tool",
        }
    }

    /// The human-readable text of the failure.
    pub fn message(&self) -> (text: String)
        ensures
            text@ == mcp_error_text(*self),
    {
        match self {
            McpError::Timeout { timeout_ms } => {
                let mut text = String::from_str("MCP request timed out after ");
                append_decimal(&mut text, *timeout_ms);
                text.append(" ms");
                text
            },
            McpError::Transport { message } => {
                let text = String::from_str("MCP transport failed: ");
                text.concat(message.as_str())
            },
            McpError::HttpStatus { status, message } => {
                let mut text = String::from_str("MCP endpoint returned HTTP ");
                append_decimal(&mut text, *status as u64);
                text.append(": ");
                text.append(message.as_str());
                text
            },
            McpError::Protocol { message } => {
                let text = String::from_str("MCP protocol error: ");
                text.concat(message.as_str())
            },
            McpError::JsonRpc { code, message } => {
                let mut text = String::from_str("MCP JSON-RPC error ");
                append_signed_decimal(&mut text, *code);
                text.append(": ");
                text.append(message.as_str());
                text
            },
            McpError::Tool { tool, message } => {
                let mut text = String::from_str("MCP tool ");
                text.append(tool.as_str());
                text.append(" failed: ");
                text.append(message.as_str());
                text
            },
        }
    }

    /// Whether the failure means the arena session was lost.
    pub fn is_session_loss(&self) -> (lost: bool)
        ensures
            lost == session_lost(*self),
    {
        let rejected_session = match self {
            McpError::HttpStatus { status, message } => *status == 404 || (*status == 400 && text_contains(
                message.as_str(),
                "Invalid or missing MCP session ID",
            )),
            _ => false,
        };
        if rejected_session {
            return true;
        }
        let text = self.message();
        text_contains(text.as_str(), "AGENT_NOT_CONNECTED")
    }
}

/// The text of a failed tool's error: its message (or, without one, its code,
/// or a fixed phrase), prefixed by the code when the code says something else.
pub open spec fn tool_error_text(code: Option<Seq<char>>, message: Option<Seq<char>>) -> Seq<char> {
    let text = match message {
        Some(m) => m,
        None => match code {
            Some(c) => c,
            None => "tool returned an error"@,
        },
    };
    match code {
        Some(c) => if c == text {
            text
        } else {
            c + ": "@ + text
        },
        None => text,
    }
}

/// Compose the error text of a failed tool from its code and message.
pub fn tool_error_message(code: Option<&str>, message: Option<&str>) -> (text: String)
    ensures
        text@ == tool_error_text(
            match code {
                Some(c) => Some(c@),
                None => None,
            },
            match message {
                Some(m) => Some(m@),
                None => None,
            },
        ),
{
    let chosen: &str = match message {
        Some(m) => m,
        None => match code {
            Some(c) => c,
            None => "tool returned an error",
        },
    };
    match code {
        Some(c) => if text_equals(c, chosen) {
            String::from_str(chosen)
        } else {
            let mut text = String::from_str(c);
            text.append(": ");
            text.append(chosen);
            text
        },
        None => String::from_str(chosen),
    }
}


// ---------------------------------------------------------------------------
// Tool results and JSON-RPC responses
// ---------------------------------------------------------------------------

/// The first content block of kind `text`.
pub open spec fn first_text_block(content: Seq<ToolContent>) -> Option<ToolContent>
    decreases content.len(),
{
    if content.len() == 0 {
        None
    } else if content[0].kind@ == "text"@ {
        Some(content[0])
    } else {
        first_text_block(content.drop_first())
    }
}

/// The text of a tool result's first text block, if it has one.
pub open spec fn tool_text(content: Seq<ToolContent>) -> Option<Seq<char>> {
    match first_text_block(content) {
        Some(block) => optional_text(block.text),
        None => None,
    }
}

/// Text that, past its leading white space, opens a JSON object or array.
pub open spec fn opens_json(text: Seq<char>) -> bool {
    let t = trim_start(text);
    t.len() > 0 && (t[0] == '{' || t[0] == '[')
}

pub open spec fn protocol_error_is(error: McpError, text: Seq<char>) -> bool {
    error matches McpError::Protocol { message } && message@ == text
}

pub open spec fn protocol_error_starts(error: McpError, prefix: Seq<char>) -> bool {
    error matches McpError::Protocol { message } && prefix.is_prefix_of(message@)
}

/// The object that wraps a plain-text tool reply: `{"message": text}`.
pub open spec fn message_view(text: Seq<char>) -> JsonView {
    JsonView::Object(seq![("message"@, JsonView::Text(text))])
}

/// What a tool reply with `body` gives: the body itself, or, where the
/// envelope reports an error, a tool failure whose text is composed from the
/// body's `error` code and `message`.
pub open spec fn body_decoded(tool: Seq<char>, is_error: bool, body: JsonView, result: Result<JsonValue, McpError>) -> bool {
    if is_error {
        result matches Err(McpError::Tool { tool: t, message }) && t@ == tool && message@ == tool_error_text(
            text_member(body, "error"@),
            text_member(body, "message"@),
        )
    } else {
        result matches Ok(v) && json_view(v) == body
    }
}

/// What decoding the result of `tool` from `envelope` gives: the structured
/// content when there is one; else the first text block, as the JSON value it
/// holds where it is JSON, refused where it only looks like JSON, and
/// otherwise wrapped as `{"message": text}`; and a tool failure wherever the
/// envelope says it is an error.
pub open spec fn tool_result_decoded(
    tool: Seq<char>,
    envelope: ToolCallEnvelope,
    result: Result<JsonValue, McpError>,
) -> bool {
    match envelope.structured_content {
        Some(value) => body_decoded(tool, envelope.is_error, json_view(value), result),
        None => match tool_text(envelope.content@) {
            None => result matches Err(e) && protocol_error_is(
                e,
                "tool "@ + tool + " returned no text or structured content"@,
            ),
            Some(text) => match json_value_of(text) {
                Some(body) => body_decoded(tool, envelope.is_error, body, result),
                None => if opens_json(text) {
                    result matches Err(e) && protocol_error_starts(e, "tool "@ + tool + " returned invalid JSON text: "@)
                } else {
                    body_decoded(tool, envelope.is_error, message_view(text), result)
                },
            },
        },
    }
}

/// The object `{"message": text}`.
fn message_object(text: &str) -> (object: JsonValue)
    ensures
        json_view(object) == message_view(text@),
{
    proof {
        reveal_strlit("message");
    }
    let mut members: Vec<(String, JsonValue)> = Vec::new();
    members.push(member("message", JsonValue::Text(String::from_str(text))));
    proof {
        lemma_object_of(members);
        assert(member_views(members@) =~= seq![("message"@, JsonView::Text(text@))]);
    }
    JsonValue::Object(members)
}

fn text_block(content: &Vec<ToolContent>) -> (text: Option<&String>)
    ensures
        match text {
            Some(t) => tool_text(content@) == Some(t@),
            None => tool_text(content@) is None,
        },
{
    let mut i: usize = 0;
    assert(content@.skip(0) =~= content@);
    while i < content.len()
        invariant
            i <= content@.len(),
            first_text_block(content@) == first_text_block(content@.skip(i as int)),
        decreases content@.len() - i,
    {
        assert(content@.skip(i as int)[0] == content@[i as int]);
        proof {
            reveal_strlit("text");
        }
        if text_equals(content[i].kind.as_str(), "text") {
            return match &content[i].text {
                Some(t) => Some(t),
                None => None,
            };
        }
        assert(content@.skip(i as int).drop_first() =~= content@.skip(i + 1));
        i = i + 1;
    }
    None
}

fn opens_json_text(text: &str) -> (opens: bool)
    ensures
        opens == opens_json(text@),
{
    let t = trim_leading(text);
    if t.as_str().unicode_len() == 0 {
        false
    } else {
        let c = t.as_str().get_char(0);
        c == '{' || c == '['
    }
}

/// The error that reports an envelope the decoder refused, with its text.
pub fn invalid_envelope(message: &str) -> (error: McpError)
    ensures
        protocol_error_is(error, "tools/call returned an invalid envelope: "@ + message@),
{
    let mut text = String::from_str("tools/call returned an invalid envelope: ");
    text.append(message);
    McpError::Protocol { message: text }
}

/// Decode the result of `tool` from its envelope.
pub fn decode_tool_result(tool: &str, envelope: ToolCallEnvelope) -> (result: Result<JsonValue, McpError>)
    ensures
        tool_result_decoded(tool@, envelope, result),
{
    let ToolCallEnvelope { is_error, content, structured_content } = envelope;
    let body = match structured_content {
        Some(value) => value,
        None => {
            let text = match text_block(&content) {
                Some(t) => t,
                None => {
                    let mut message = String::from_str("tool ");
                    message.append(tool);
                    message.append(" returned no text or structured content");
                    return Err(McpError::Protocol { message });
                },
            };
            match parse_json_document(text.as_str()) {
                Ok(value) => value,
                Err(error) => {
                    let error = json_parse_error(&error).message;
                    if opens_json_text(text.as_str()) {
                        let mut message = String::from_str("tool ");
                        message.append(tool);
                        message.append(" returned invalid JSON text: ");
                        let ghost prefix = message@;
                        message.append(error.as_str());
                        assert(prefix.is_prefix_of(message@));
                        return Err(McpError::Protocol { message });
                    }
                    message_object(text.as_str())
                },
            }
        },
    };
    if is_error {
        proof {
            reveal_strlit("error");
            reveal_strlit("message");
        }
        let code_text: Option<&str> = match string_member(&body, "error") {
            Some(c) => Some(c.as_str()),
            None => None,
        };
        let message_text: Option<&str> = match string_member(&body, "message") {
            Some(m) => Some(m.as_str()),
            None => None,
        };
        return Err(McpError::Tool { tool: String::from_str(tool), message: tool_error_message(code_text, message_text) });
    }
    Ok(body)
}

/// What a JSON-RPC response yields: its error, else its result, else a
/// protocol error for a response that holds neither.
pub open spec fn response_yields(response: JsonRpcResponse, result: Result<serde_json::Value, McpError>) -> bool {
    match response.error {
        Some(e) => result matches Err(McpError::JsonRpc { code, message }) && code == e.code && message@
            == e.message@,
        None => match response.result {
            Some(value) => result == Ok::<serde_json::Value, McpError>(value),
            None => result matches Err(e) && protocol_error_is(
                e,
                "JSON-RPC response contained neither result nor error"@,
            ),
        },
    }
}

/// The value a JSON-RPC response carries, or its failure.
pub fn response_value(response: JsonRpcResponse) -> (result: Result<serde_json::Value, McpError>)
    ensures
        response_yields(response, result),
{
    let JsonRpcResponse { id, result, error } = response;
    match error {
        Some(e) => Err(McpError::JsonRpc { code: e.code, message: e.message }),
        None => match result {
            Some(value) => Ok(value),
            None => Err(
                McpError::Protocol {
                    message: String::from_str("JSON-RPC response contained neither result nor error"),
                },
            ),
        },
    }
}

/// The error that reports a response the decoder refused, with its text.
pub fn invalid_response(message: &str) -> (error: McpError)
    ensures
        protocol_error_is(error, "invalid JSON-RPC response: "@ + message@),
{
    let mut text = String::from_str("invalid JSON-RPC response: ");
    text.append(message);
    McpError::Protocol { message: text }
}

/// The value of the response to request `request_id`, refusing a response to
/// any other request.
pub fn parse_matching_response(response: JsonRpcResponse, request_id: u64) -> (result: Result<
    serde_json::Value,
    McpError,
>)
    ensures
        id_matches(response.id, request_id) ==> response_yields(response, result),
        !id_matches(response.id, request_id) ==> (result matches Err(e) && protocol_error_is(
            e,
            "response did not match request id "@ + decimal_text(request_id as nat),
        )),
{
    if !response.has_id(request_id) {
        let mut message = String::from_str("response did not match request id ");
        append_decimal(&mut message, request_id);
        return Err(McpError::Protocol { message });
    }
    response_value(response)
}

/// One event of a response stream: nothing yet when it is no JSON-RPC
/// response or answers another request; else what the response yields.
pub fn try_sse_value(response: Option<JsonRpcResponse>, request_id: u64) -> (step: Result<
    Option<serde_json::Value>,
    McpError,
>)
    ensures
        match response {
            None => step == Ok::<Option<serde_json::Value>, McpError>(None),
            Some(r) => if !id_matches(r.id, request_id) {
                step == Ok::<Option<serde_json::Value>, McpError>(None)
            } else {
                match r.error {
                    Some(e) => step matches Err(McpError::JsonRpc { code, message }) && code == e.code && message@
                        == e.message@,
                    None => match r.result {
                        Some(value) => step == Ok::<Option<serde_json::Value>, McpError>(Some(value)),
                        None => step matches Err(e) && protocol_error_is(
                            e,
                            "JSON-RPC response contained neither result nor error"@,
                        ),
                    },
                }
            },
        },
{
    match response {
        None => Ok(None),
        Some(r) => {
            if !r.has_id(request_id) {
                return Ok(None);
            }
            match response_value(r) {
                Ok(value) => Ok(Some(value)),
                Err(e) => Err(e),
            }
        },
    }
}

/// The error for a response stream that ended before answering.
pub fn stream_closed_error() -> (error: McpError)
    ensures
        protocol_error_is(error, "MCP event stream closed without the matching response"@),
{
    McpError::Protocol { message: String::from_str("MCP event stream closed without the matching response") }
}

/// Whether a response's content type announces an event stream.
pub fn is_event_stream(content_type: Option<&str>) -> (stream: bool)
    ensures
        stream == (content_type matches Some(t) && contains_text(t@, "text/event-stream"@)),
{
    match content_type {
        Some(t) => text_contains(t, "text/event-stream"),
        None => false,
    }
}


// ---------------------------------------------------------------------------
// Server-sent event framing
// ---------------------------------------------------------------------------

/// Names what `String::from_utf8_lossy` makes of `bytes`.
pub uninterp spec fn utf8_lossy_text(bytes: Seq<u8>) -> Seq<char>;

/// Decodes `bytes` as UTF-8 with `String::from_utf8_lossy`, replacing each
/// invalid sequence. Claimed: the text is the one that function gives for
/// these bytes, named by `utf8_lossy_text`.
#[verifier::external_body]
fn decode_utf8_lossy(bytes: &[u8]) -> (text: String)
    ensures
        text@ == utf8_lossy_text(bytes@),
{
    String::from_utf8_lossy(bytes).into_owned()
}

/// The position of the first line feed in `s`.
pub open spec fn first_newline(s: Seq<char>) -> Option<int>
    decreases s.len(),
{
    if s.len() == 0 {
        None
    } else if s[0] == '\n' {
        Some(0)
    } else {
        match first_newline(s.drop_first()) {
            Some(i) => Some(i + 1),
            None => None,
        }
    }
}

pub proof fn lemma_first_newline(s: Seq<char>)
    ensures
        match first_newline(s) {
            Some(i) => 0 <= i < s.len() && s[i] == '\n' && forall|j: int| 0 <= j < i ==> s[j] != '\n',
            None => forall|j: int| 0 <= j < s.len() ==> s[j] != '\n',
        },
    decreases s.len(),
{
    if s.len() > 0 && s[0] != '\n' {
        lemma_first_newline(s.drop_first());
        assert forall|j: int| 1 <= j < s.len() implies s[j] == s.drop_first()[j - 1] by {}
    }
}

/// `s` without its trailing carriage returns.
pub open spec fn without_trailing_cr(s: Seq<char>) -> Seq<char>
    decreases s.len(),
{
    if s.len() > 0 && s.last() == '\r' {
        without_trailing_cr(s.drop_last())
    } else {
        s
    }
}

/// The data a line of the stream carries: what follows `data:`, without its
/// leading white space.
pub open spec fn line_data(line: Seq<char>) -> Option<Seq<char>> {
    if line.len() >= 5 && line.take(5) == "data:"@ {
        Some(trim_start(line.skip(5)))
    } else {
        None
    }
}

/// The lines joined with line feeds.
pub open spec fn joined_lines(lines: Seq<Seq<char>>) -> Seq<char>
    decreases lines.len(),
{
    if lines.len() == 0 {
        Seq::empty()
    } else if lines.len() == 1 {
        lines[0]
    } else {
        joined_lines(lines.drop_last()) + "\n"@ + lines.last()
    }
}

/// What reading complete lines from a buffer leaves: the unread rest, the
/// data lines of the event being read, and the payload to try, if a data
/// line was read.
pub struct SseScan {
    pub rest: Seq<char>,
    pub data: Seq<Seq<char>>,
    pub payload: Option<Seq<char>>,
}

/// Read complete lines from `buffered` until a data line: each data line
/// adds to the event's data and offers all of it as a payload; a blank line
/// ends the event; any other line is ignored. Without a complete line,
/// nothing happens.
pub open spec fn sse_scan(buffered: Seq<char>, data: Seq<Seq<char>>) -> SseScan
    decreases buffered.len(),
{
    match first_newline(buffered) {
        None => SseScan { rest: buffered, data, payload: None },
        Some(nl) => {
            proof {
                lemma_first_newline(buffered);
            }
            let line = without_trailing_cr(buffered.take(nl));
            let rest = buffered.skip(nl + 1);
            match line_data(line) {
                Some(d) => SseScan { rest, data: data.push(d), payload: Some(joined_lines(data.push(d))) },
                None => if line.len() == 0 {
                    sse_scan(rest, Seq::empty())
                } else {
                    sse_scan(rest, data)
                },
            }
        },
    }
}

/// A reader of server-sent events: text received but not yet read as lines,
/// and the data lines of the event being read.
pub struct SseReader {
    buffered: String,
    data_lines: Vec<String>,
}

pub struct SseReaderView {
    pub buffered: Seq<char>,
    pub data: Seq<Seq<char>>,
}

impl View for SseReader {
    type V = SseReaderView;

    closed spec fn view(&self) -> SseReaderView {
        SseReaderView { buffered: self.buffered@, data: text_views(self.data_lines@) }
    }
}

fn join_lines(lines: &Vec<String>) -> (text: String)
    ensures
        text@ == joined_lines(text_views(lines@)),
{
    let mut text = String::new();
    let mut i: usize = 0;
    while i < lines.len()
        invariant
            i <= lines@.len(),
            text@ == joined_lines(text_views(lines@.take(i as int))),
        decreases lines@.len() - i,
    {
        proof {
            assert(text_views(lines@.take(i + 1)).drop_last() =~= text_views(lines@.take(i as int)));
            assert(text_views(lines@.take(i + 1)).last() == lines@[i as int]@);
            reveal_strlit("\n");
        }
        if i > 0 {
            text.append("\n");
        }
        text.append(lines[i].as_str());
        proof {
            if i == 0 {
                assert(text@ =~= lines@[0]@);
            }
        }
        i = i + 1;
    }
    assert(lines@.take(i as int) =~= lines@);
    text
}

fn has_data_prefix(line: &str) -> (prefix: bool)
    ensures
        prefix == (line@.len() >= 5 && line@.take(5) == "data:"@),
{
    proof {
        reveal_strlit("data:");
    }
    if line.unicode_len() < 5 {
        return false;
    }
    let prefix = line.get_char(0) == 'd' && line.get_char(1) == 'a' && line.get_char(2) == 't' && line.get_char(3)
        == 'a' && line.get_char(4) == ':';
    proof {
        if prefix {
            assert(line@.take(5) =~= "data:"@);
        } else {
            if line@.take(5) == "data:"@ {
                assert(line@.take(5)[0] == 'd');
                assert(line@.take(5)[1] == 'a');
                assert(line@.take(5)[2] == 't');
                assert(line@.take(5)[3] == 'a');
                assert(line@.take(5)[4] == ':');
            }
        }
    }
    prefix
}

proof fn lemma_without_trailing_cr(s: Seq<char>, end: int)
    requires
        0 <= end <= s.len(),
        forall|j: int| end <= j < s.len() ==> s[j] == '\r',
        end == 0 || s[end - 1] != '\r',
    ensures
        without_trailing_cr(s) == s.take(end),
    decreases s.len(),
{
    if s.len() > end {
        let t = s.drop_last();
        assert forall|j: int| end <= j < t.len() implies t[j] == '\r' by {}
        if end > 0 {
            assert(t[end - 1] == s[end - 1]);
        }
        lemma_without_trailing_cr(t, end);
        assert(t.take(end) =~= s.take(end));
    } else {
        assert(s.take(end) =~= s);
    }
}

impl SseReader {
    /// A reader that has received nothing.
    pub fn new() -> (reader: SseReader)
        ensures
            reader@.buffered.len() == 0,
            reader@.data.len() == 0,
    {
        let reader = SseReader { buffered: String::new(), data_lines: Vec::new() };
        assert(reader@.data =~= Seq::<Seq<char>>::empty());
        reader
    }

    /// Receive the next chunk of the stream.
    pub fn push_chunk(&mut self, bytes: &[u8])
        ensures
            final(self)@.buffered == old(self)@.buffered + utf8_lossy_text(bytes@),
            final(self)@.data == old(self)@.data,
    {
        let text = decode_utf8_lossy(bytes);
        self.buffered.append(text.as_str());
    }

    /// Read complete lines until the next payload to try, as `sse_scan` says.
    pub fn next_payload(&mut self) -> (payload: Option<String>)
        ensures
            final(self)@.buffered == sse_scan(old(self)@.buffered, old(self)@.data).rest,
            final(self)@.data == sse_scan(old(self)@.buffered, old(self)@.data).data,
            optional_text(payload) == sse_scan(old(self)@.buffered, old(self)@.data).payload,
    {
        let ghost goal = sse_scan(self@.buffered, self@.data);
        loop
            invariant
                sse_scan(self@.buffered, self@.data) == goal,
                goal == sse_scan(old(self)@.buffered, old(self)@.data),
            decreases self@.buffered.len(),
        {
            let n = self.buffered.as_str().unicode_len();
            let mut nl: usize = 0;
            while nl < n && self.buffered.as_str().get_char(nl) != '\n'
                invariant
                    n == self@.buffered.len(),
                    nl <= n,
                    forall|j: int| 0 <= j < nl ==> self@.buffered[j] != '\n',
                decreases n - nl,
            {
                nl = nl + 1;
            }
            proof {
                lemma_first_newline(self@.buffered);
            }
            if nl == n {
                proof {
                    if first_newline(self@.buffered) is Some {
                        let k = first_newline(self@.buffered)->0;
                        assert(self@.buffered[k] == '\n');
                    }
                }
                return None;
            }
            let ghost buffered = self@.buffered;
            let ghost data = self@.data;
            proof {
                let k = first_newline(buffered)->0;
                if k < nl {
                    assert(buffered[k] == '\n');
                }
                if k > nl {
                    assert(buffered[nl as int] == '\n');
                }
                assert(k == nl);
            }
            let raw = self.buffered.as_str().substring_char(0, nl);
            let mut end: usize = nl;
            while end > 0 && raw.get_char(end - 1) == '\r'
                invariant
                    raw@.len() == nl,
                    end <= nl,
                    forall|j: int| end <= j < nl ==> raw@[j] == '\r',
                decreases end,
            {
                end = end - 1;
            }
            proof {
                lemma_without_trailing_cr(raw@, end as int);
                assert(raw@ =~= buffered.take(nl as int));
            }
            let line = String::from_str(raw.substring_char(0, end));
            let rest = String::from_str(self.buffered.as_str().substring_char(nl + 1, n));
            assert(line@ =~= without_trailing_cr(buffered.take(nl as int)));
            assert(rest@ =~= buffered.skip(nl + 1));
            self.buffered = rest;
            if has_data_prefix(line.as_str()) {
                let m = line.as_str().unicode_len();
                let d = trim_leading(line.as_str().substring_char(5, m));
                assert(line@.subrange(5, m as int) =~= line@.skip(5));
                self.data_lines.push(d);
                assert(text_views(self.data_lines@) =~= data.push(d@));
                let payload = join_lines(&self.data_lines);
                return Some(payload);
            } else if line.as_str().unicode_len() == 0 {
                self.data_lines = Vec::new();
                assert(text_views(self.data_lines@) =~= Seq::<Seq<char>>::empty());
            }
        }
    }
}

/// A scan that offers no payload has read every complete line: what it
/// leaves holds no line feed.
pub proof fn law_scan_reads_every_complete_line(buffered: Seq<char>, data: Seq<Seq<char>>)
    requires
        sse_scan(buffered, data).payload is None,
    ensures
        first_newline(sse_scan(buffered, data).rest) is None,
    decreases buffered.len(),
{
    lemma_first_newline(buffered);
    match first_newline(buffered) {
        None => {},
        Some(nl) => {
            let line = without_trailing_cr(buffered.take(nl));
            let rest = buffered.skip(nl + 1);
            if line_data(line) is None {
                if line.len() == 0 {
                    law_scan_reads_every_complete_line(rest, Seq::empty());
                } else {
                    law_scan_reads_every_complete_line(rest, data);
                }
            }
        },
    }
}

} // verus!
