//! The JSON-RPC 2.0 messages that brokers and workers exchange, their
//! error codes, and the `Content-Length` framing that carries them over TCP.

use crate::text::{
    all_digits, chars_of, decimal, decimal_chars, digits_value, is_digit, is_ws, lemma_decimal_roundtrip,
    parse_usize, parse_usize_chars, starts_with, str_eq, strip_all_prefix, trim, trim_bounds,
    trim_end, trim_start, vec_starts_with,
};
use vstd::prelude::*;
use vstd::string::StringSliceAdditionalSpecFns;

verus! {

/// The JSON-RPC error kinds the broker uses.
#[derive(Clone, Copy, Debug, PartialEq, Eq, Structural)]
pub enum JsonRpcErrorCode {
    ParseError,
    InvalidRequest,
    MethodNotFound,
    InvalidParams,
    InternalError,
    ServerError,
}

/// The numeric code of each kind; server errors use -32001.
pub open spec fn code_value(c: JsonRpcErrorCode) -> int {
    match c {
        JsonRpcErrorCode::ParseError => -32700,
        JsonRpcErrorCode::InvalidRequest => -32600,
        JsonRpcErrorCode::MethodNotFound => -32601,
        JsonRpcErrorCode::InvalidParams => -32602,
        JsonRpcErrorCode::InternalError => -32603,
        JsonRpcErrorCode::ServerError => -32001,
    }
}

/// The numeric codes that name a kind: the five standard ones and the
/// server range from -32099 up to, not including, -32000.
pub open spec fn known_code(v: int) -> bool {
    v == -32700 || v == -32600 || v == -32601 || v == -32602 || v == -32603 || (-32099 <= v
        < -32000)
}

/// The kind a known numeric code names.
pub open spec fn code_kind(v: int) -> JsonRpcErrorCode {
    if v == -32700 {
        JsonRpcErrorCode::ParseError
    } else if v == -32600 {
        JsonRpcErrorCode::InvalidRequest
    } else if v == -32601 {
        JsonRpcErrorCode::MethodNotFound
    } else if v == -32602 {
        JsonRpcErrorCode::InvalidParams
    } else if v == -32603 {
        JsonRpcErrorCode::InternalError
    } else {
        JsonRpcErrorCode::ServerError
    }
}

impl JsonRpcErrorCode {
    /// The kind a numeric code names. Codes outside the known ones are not
    /// accepted.
    pub fn from_code(value: isize) -> (r: JsonRpcErrorCode)
        requires
            known_code(value as int),
        ensures
            r == code_kind(value as int),
    {
        if value == -32700 {
            JsonRpcErrorCode::ParseError
        } else if value == -32600 {
            JsonRpcErrorCode::InvalidRequest
        } else if value == -32601 {
            JsonRpcErrorCode::MethodNotFound
        } else if value == -32602 {
            JsonRpcErrorCode::InvalidParams
        } else if value == -32603 {
            JsonRpcErrorCode::InternalError
        } else {
            JsonRpcErrorCode::ServerError
        }
    }

    /// The kind a numeric code names, or `None` for an unknown code.
    pub fn try_from_code(value: isize) -> (r: Option<JsonRpcErrorCode>)
        ensures
            r == (if known_code(value as int) {
                Some(code_kind(value as int))
            } else {
                None
            }),
    {
        if value == -32700 || value == -32600 || value == -32601 || value == -32602 || value
            == -32603 || (-32099 <= value && value < -32000) {
            Some(JsonRpcErrorCode::from_code(value))
        } else {
            None
        }
    }

    /// The human readable name of the kind, with its code.
    pub fn description(&self) -> (r: String)
        ensures
            r@ == code_description(*self),
    {
        match self {
            JsonRpcErrorCode::ParseError => "Parse Error (-32700)".to_owned(),
            JsonRpcErrorCode::InvalidRequest => "InvalidRequest Error (-32600)".to_owned(),
            JsonRpcErrorCode::MethodNotFound => "MethodNotFound Error (-32601)".to_owned(),
            JsonRpcErrorCode::InvalidParams => "InvalidParams Error (-32602)".to_owned(),
            JsonRpcErrorCode::InternalError => "Internal Error (-32603)".to_owned(),
            JsonRpcErrorCode::ServerError => "Server Error".to_owned(),
        }
    }
}

/// The text shown for each kind.
pub open spec fn code_description(c: JsonRpcErrorCode) -> Seq<char> {
    match c {
        JsonRpcErrorCode::ParseError => "Parse Error (-32700)"@,
        JsonRpcErrorCode::InvalidRequest => "InvalidRequest Error (-32600)"@,
        JsonRpcErrorCode::MethodNotFound => "MethodNotFound Error (-32601)"@,
        JsonRpcErrorCode::InvalidParams => "InvalidParams Error (-32602)"@,
        JsonRpcErrorCode::InternalError => "Internal Error (-32603)"@,
        JsonRpcErrorCode::ServerError => "Server Error"@,
    }
}

impl From<JsonRpcErrorCode> for isize {
    fn from(value: JsonRpcErrorCode) -> (r: isize) {
        match value {
            JsonRpcErrorCode::ParseError => -32700,
            JsonRpcErrorCode::InvalidRequest => -32600,
            JsonRpcErrorCode::MethodNotFound => -32601,
            JsonRpcErrorCode::InvalidParams => -32602,
            JsonRpcErrorCode::InternalError => -32603,
            JsonRpcErrorCode::ServerError => -32001,
        }
    }
}

impl vstd::std_specs::convert::FromSpecImpl<JsonRpcErrorCode> for isize {
    open spec fn obeys_from_spec() -> bool {
        true
    }

    open spec fn from_spec(v: JsonRpcErrorCode) -> isize {
        code_value(v) as isize
    }
}

/// Reading back the code of a kind gives the kind.
pub proof fn law_error_code_roundtrip(c: JsonRpcErrorCode)
    ensures
        known_code(code_value(c)),
        code_kind(code_value(c)) == c,
{
}

/// The code of the kind a standard code names is that code.
pub proof fn law_standard_code_roundtrip(v: int)
    requires
        v == -32700 || v == -32600 || v == -32601 || v == -32602 || v == -32603,
    ensures
        code_value(code_kind(v)) == v,
{
}

/// A JSON-RPC error object.
#[derive(Clone, Debug)]
pub struct JsonRpcError {
    pub code: JsonRpcErrorCode,
    pub message: String,
    pub data: Option<serde_json::Value>,
}

/// A JSON-RPC request.
#[derive(Clone, Debug)]
pub struct JsonRpcRequest {
    pub jsonrpc: String,
    pub id: String,
    pub method: String,
    pub params: serde_json::Value,
}

/// A JSON-RPC response.
#[derive(Clone, Debug)]
pub struct JsonRpcResponse {
    pub jsonrpc: String,
    pub id: String,
    pub result: Option<serde_json::Value>,
    pub error: Option<JsonRpcError>,
}

/// A JSON-RPC notification.
#[derive(Clone, Debug)]
pub struct JsonRpcNotification {
    pub jsonrpc: String,
    pub method: String,
    pub params: serde_json::Value,
}

/// The requests the broker serves.
#[derive(Debug)]
pub enum RequestMethod<'a> {
    RegisterWorker,
    FetchTask,
    Unknown(&'a str),
}

/// The notifications the broker acts on.
#[derive(Debug, Clone, Copy)]
pub enum NotificationMethod {
    Heartbeat,
    ReportResult,
    WorkerShutdown,
    Unknown(()),
}

/// The request method a method name names.
pub open spec fn request_method_of<'a>(name: &'a str) -> RequestMethod<'a> {
    if name@ == "register_worker"@ {
        RequestMethod::RegisterWorker
    } else if name@ == "fetch_task"@ {
        RequestMethod::FetchTask
    } else {
        RequestMethod::Unknown(name)
    }
}

/// The notification method a method name names.
pub open spec fn notification_method_of(name: Seq<char>) -> NotificationMethod {
    if name == "heartbeat"@ {
        NotificationMethod::Heartbeat
    } else if name == "report_result"@ {
        NotificationMethod::ReportResult
    } else if name == "worker_shutdown"@ {
        NotificationMethod::WorkerShutdown
    } else {
        NotificationMethod::Unknown(())
    }
}

impl<'a> From<&'a str> for RequestMethod<'a> {
    fn from(value: &'a str) -> (r: Self) {
        if str_eq(value, "register_worker") {
            RequestMethod::RegisterWorker
        } else if str_eq(value, "fetch_task") {
            RequestMethod::FetchTask
        } else {
            RequestMethod::Unknown(value)
        }
    }
}

impl<'a> vstd::std_specs::convert::FromSpecImpl<&'a str> for RequestMethod<'a> {
    open spec fn obeys_from_spec() -> bool {
        true
    }

    open spec fn from_spec(v: &'a str) -> RequestMethod<'a> {
        request_method_of(v)
    }
}

impl<'a> From<&'a str> for NotificationMethod {
    fn from(value: &'a str) -> (r: Self) {
        if str_eq(value, "heartbeat") {
            NotificationMethod::Heartbeat
        } else if str_eq(value, "report_result") {
            NotificationMethod::ReportResult
        } else if str_eq(value, "worker_shutdown") {
            NotificationMethod::WorkerShutdown
        } else {
            NotificationMethod::Unknown(())
        }
    }
}

impl<'a> vstd::std_specs::convert::FromSpecImpl<&'a str> for NotificationMethod {
    open spec fn obeys_from_spec() -> bool {
        true
    }

    open spec fn from_spec(v: &'a str) -> NotificationMethod {
        notification_method_of(v@)
    }
}

/// The header that opens every framed message.
pub open spec fn length_prefix() -> Seq<char> {
    "Content-Length: "@
}

/// A framed message: the header with the body's length in bytes, an empty
/// line, then the body.
pub open spec fn framed(body: Seq<char>, byte_len: nat) -> Seq<char> {
    length_prefix() + decimal_chars(byte_len) + "\r\n\r\n"@ + body
}

/// Frames a serialized message for the wire.
pub fn frame_message(body: &str) -> (r: String)
    ensures
        r@ == framed(body@, body.len() as nat),
{
    let mut s = "Content-Length: ".to_owned();
    let n = decimal(body.len());
    s.append(n.as_str());
    s.append("\r\n\r\n");
    s.append(body);
    assert(s@ =~= framed(body@, body.len() as nat));
    s
}

/// What the broker reads from a header line: the line must begin with the
/// prefix; every leading copy of the prefix is dropped, the rest is trimmed
/// and must be a `usize`.
pub open spec fn content_length_of(line: Seq<char>) -> Option<usize> {
    if starts_with(line, length_prefix()) {
        parse_usize(trim(strip_all_prefix(line, length_prefix())))
    } else {
        None
    }
}

/// Reads the body length announced by a header line, as the broker does.
pub fn parse_content_length(line: &str) -> (r: Option<usize>)
    ensures
        r == content_length_of(line@),
{
    let v = chars_of(line);
    let p = chars_of("Content-Length: ");
    if !vec_starts_with(&v, &p) {
        return None;
    }
    proof {
        reveal_strlit("Content-Length: ");
    }
    let mut rest = v;
    let ghost plen = p@.len();
    assert(strip_all_prefix(line@, length_prefix()) == strip_all_prefix(rest@, p@));
    while vec_starts_with(&rest, &p)
        invariant
            p@ == length_prefix(),
            p@.len() == 16,
            strip_all_prefix(line@, length_prefix()) == strip_all_prefix(rest@, p@),
        decreases rest@.len(),
    {
        let mut next: Vec<char> = Vec::new();
        let mut i: usize = p.len();
        while i < rest.len()
            invariant
                p@.len() <= i <= rest@.len(),
                next@ == rest@.subrange(p@.len() as int, i as int),
            decreases rest@.len() - i,
        {
            next.push(rest[i]);
            i = i + 1;
            assert(next@ =~= rest@.subrange(p@.len() as int, i as int));
        }
        rest = next;
    }
    let (a, b) = trim_bounds(&rest);
    parse_usize_chars(&rest, a, b)
}

/// What a worker reads from one header line.
#[derive(Clone, Copy, Debug, PartialEq, Eq, Structural)]
pub enum HeaderLine {
    /// A blank line: the headers are over.
    End,
    /// A valid `Content-Length` header.
    ContentLength(usize),
    /// Anything else, which is ignored.
    Other,
}

/// How a worker reads a header line: blank once trimmed ends the headers;
/// a trimmed line that starts with the prefix and whose rest, trimmed, is a
/// `usize` gives the length.
pub open spec fn header_line_of(line: Seq<char>) -> HeaderLine {
    let t = trim(line);
    if t.len() == 0 {
        HeaderLine::End
    } else if starts_with(t, length_prefix()) && parse_usize(
        trim(t.subrange(length_prefix().len() as int, t.len() as int)),
    ) is Some {
        HeaderLine::ContentLength(
            parse_usize(trim(t.subrange(length_prefix().len() as int, t.len() as int)))->Some_0,
        )
    } else {
        HeaderLine::Other
    }
}

/// Classifies one header line, as a worker reads it.
pub fn classify_header_line(line: &str) -> (r: HeaderLine)
    ensures
        r == header_line_of(line@),
{
    let v = chars_of(line);
    let (a, b) = trim_bounds(&v);
    if a == b {
        return HeaderLine::End;
    }
    let mut t: Vec<char> = Vec::new();
    let mut i: usize = a;
    while i < b
        invariant
            a <= i <= b <= v@.len(),
            t@ == v@.subrange(a as int, i as int),
        decreases b - i,
    {
        t.push(v[i]);
        i = i + 1;
        assert(t@ =~= v@.subrange(a as int, i as int));
    }
    let p = chars_of("Content-Length: ");
    if !vec_starts_with(&t, &p) {
        return HeaderLine::Other;
    }
    let mut rest: Vec<char> = Vec::new();
    let mut j: usize = p.len();
    while j < t.len()
        invariant
            p@.len() <= j <= t@.len(),
            rest@ == t@.subrange(p@.len() as int, j as int),
        decreases t@.len() - j,
    {
        rest.push(t[j]);
        j = j + 1;
        assert(rest@ =~= t@.subrange(p@.len() as int, j as int));
    }
    let (c, d) = trim_bounds(&rest);
    match parse_usize_chars(&rest, c, d) {
        Some(n) => HeaderLine::ContentLength(n),
        None => HeaderLine::Other,
    }
}

/// A worker's reading of a message's headers: the last valid length seen,
/// until a blank line ends them.
pub struct HeaderReader {
    pub content_length: Option<usize>,
}

impl HeaderReader {
    pub fn new() -> (r: HeaderReader)
        ensures
            r.content_length is None,
    {
        HeaderReader { content_length: None }
    }

    /// Takes one header line; returns whether it ended the headers.
    pub fn feed(&mut self, line: &str) -> (done: bool)
        ensures
            done == (header_line_of(line@) == HeaderLine::End),
            final(self).content_length == (match header_line_of(line@) {
                HeaderLine::ContentLength(n) => Some(n),
                _ => old(self).content_length,
            }),
    {
        match classify_header_line(line) {
            HeaderLine::End => true,
            HeaderLine::ContentLength(n) => {
                self.content_length = Some(n);
                false
            },
            HeaderLine::Other => false,
        }
    }
}

/// The header line of a framed message, as a line reader returns it.
pub open spec fn header_of(byte_len: nat) -> Seq<char> {
    length_prefix() + decimal_chars(byte_len) + "\r\n"@
}

/// Framing and reading agree: a framed message is its header line, the
/// blank line, then the body; the broker reads the body's length back from
/// the header line; a worker reads the same length from it, and reads the
/// blank line as the end of the headers.
pub proof fn law_framing_roundtrip(body: Seq<char>, byte_len: nat)
    requires
        byte_len <= usize::MAX,
    ensures
        framed(body, byte_len) == header_of(byte_len) + "\r\n"@ + body,
        content_length_of(header_of(byte_len)) == Some(byte_len as usize),
        header_line_of(header_of(byte_len)) == HeaderLine::ContentLength(byte_len as usize),
        header_line_of("\r\n"@) == HeaderLine::End,
{
    reveal_strlit("Content-Length: ");
    reveal_strlit("\r\n");
    reveal_strlit("\r\n\r\n");
    let p = length_prefix();
    let d = decimal_chars(byte_len);
    let nl: Seq<char> = "\r\n"@;
    lemma_decimal_roundtrip(byte_len);
    assert(framed(body, byte_len) =~= header_of(byte_len) + nl + body);
    let h = header_of(byte_len);
    assert(starts_with(h, p)) by {
        assert(h.subrange(0, 16) =~= p);
    }
    let after = h.subrange(16, h.len() as int);
    assert(after =~= d + nl);
    assert(!starts_with(after, p)) by {
        if starts_with(after, p) {
            assert(after.subrange(0, 16)[0] == p[0]);
        }
    }
    reveal_with_fuel(strip_all_prefix, 2);
    assert(strip_all_prefix(h, p) == d + nl);
    let dn = d + nl;
    assert(!is_ws(dn[0]));
    assert(trim_start(dn) == dn);
    assert(dn.drop_last() =~= d.push('\r'));
    assert(d.push('\r').drop_last() =~= d);
    assert(!is_ws(d.last()));
    reveal_with_fuel(trim_end, 3);
    assert(trim_end(dn) == d);
    assert(!is_ws(d[0]));
    assert(trim_start(d) == d);
    assert(trim_end(d) == d);
    assert(trim(d) == d);
    assert(parse_usize(d) == Some(byte_len as usize));
    // the worker's reading
    assert(!is_ws(h[0]));
    assert(trim_start(h) == h);
    let pd = p + d;
    assert(h.drop_last() =~= pd.push('\r'));
    assert(pd.push('\r').drop_last() =~= pd);
    assert(pd.last() == d.last());
    assert(trim_end(h) == pd);
    assert(trim(h) == pd);
    assert(pd.subrange(0, 16) =~= p);
    assert(pd.subrange(16, pd.len() as int) =~= d);
    assert(header_line_of(h) == HeaderLine::ContentLength(byte_len as usize));
    // the blank line
    assert(nl.drop_last().drop_last() =~= Seq::<char>::empty());
    assert(trim_start(nl) == trim_start(nl.drop_first()));
    assert(nl.drop_first().drop_first() =~= Seq::<char>::empty());
    reveal_with_fuel(trim_start, 3);
    assert(trim_start(nl).len() == 0);
    assert(trim(nl).len() == 0);
}

} // verus!
