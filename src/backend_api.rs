use vstd::prelude::*;

use crate::text::{decimal, decimal_string, joined};

verus! {

/// The backend's base address when it runs on this machine.
pub const LOCAL_BACKEND_URL: &'static str = "http://127.0.0.1:8000";

/// Upper bound, in seconds, on one generation request: inference on slow hardware
/// takes minutes.
pub const GENERATION_TIMEOUT_SECS: u64 = 600;

/// The member of the backend's error body that carries its message.
pub open spec fn detail_key() -> Seq<char> {
    "detail"@
}

/// What `text`, read as JSON, holds as a string under `key` of its top-level object;
/// `None` where it is not JSON, not an object, or has no string there.
pub uninterp spec fn json_string_member(text: Seq<char>, key: Seq<char>) -> Option<Seq<char>>;

/// The reason phrase that the status line of `code` carries after the number.
pub uninterp spec fn status_reason(code: u16) -> Seq<char>;

/// An optional string as characters.
pub open spec fn opt_view(o: Option<String>) -> Option<Seq<char>> {
    match o {
        Some(s) => Some(s@),
        None => None,
    }
}

/// Relies on `serde_json::from_str` into a `serde_json::Value`, `Value::get` with a
/// string key, and `Value::as_str`: the string member `key` of the JSON object `text`.
#[verifier::external_body]
fn string_member(text: &str, key: &str) -> (r: Option<String>)
    ensures
        opt_view(r) == json_string_member(text@, key@),
{
    match serde_json::from_str::<serde_json::Value>(text) {
        Ok(v) => v.get(key).and_then(|d| d.as_str()).map(|d| d.to_string()),
        Err(_) => None,
    }
}

/// Relies on `reqwest::StatusCode::from_u16`, which accepts 100 to 999, and on the
/// status code's `Display`: the number in decimal, a space, then the reason phrase.
#[verifier::external_body]
fn status_line(code: u16) -> (r: String)
    requires
        100 <= code <= 999,
    ensures
        r@ == decimal(code as nat) + " "@ + status_reason(code),
{
    match reqwest::StatusCode::from_u16(code) {
        Ok(s) => s.to_string(),
        Err(_) => String::new(),
    }
}

/// Whether an HTTP status code reports success (the 2xx range).
pub open spec fn is_success_spec(code: u16) -> bool {
    200 <= code < 300
}

/// Whether an HTTP status code reports success (the 2xx range).
pub fn is_success(code: u16) -> (r: bool)
    ensures
        r == is_success_spec(code),
{
    200 <= code && code < 300
}

/// The health answer for a `/health` request: `status` is the response's status code,
/// or `None` where no response came (unreachable, timed out). Only a success status
/// counts as healthy; a failed request is unhealthy, never an error.
pub fn health_from_status(status: Option<u16>) -> (r: bool)
    ensures
        r == (status matches Some(c) && is_success_spec(c)),
{
    match status {
        Some(c) => is_success(c),
        None => false,
    }
}

/// The error text for a failed generation: the backend's own `detail` message where
/// its body carried one, else the status line and the raw body.
pub open spec fn backend_error_spec(detail: Option<Seq<char>>, status_line: Seq<char>, body: Seq<char>) -> Seq<char> {
    match detail {
        Some(d) => d,
        None => "Backend error ("@ + status_line + "): "@ + body,
    }
}

/// Builds the error text for a failed generation from the `detail` found in the body,
/// the response's status line, and the raw body.
pub fn backend_error_message(detail: Option<String>, status_line: &str, body: &str) -> (r: String)
    ensures
        r@ == backend_error_spec(opt_view(detail), status_line@, body@),
{
    match detail {
        Some(d) => d,
        None => {
            let mut s = String::from_str("Backend error (");
            s.append(status_line);
            s.append("): ");
            s.append(body);
            s
        },
    }
}

/// The error text for a generation request answered with the non-success status
/// `status` and the body `body`.
pub fn generation_error(status: u16, body: &str) -> (r: String)
    requires
        100 <= status <= 999,
    ensures
        r@ == backend_error_spec(
            json_string_member(body@, detail_key()),
            decimal(status as nat) + " "@ + status_reason(status),
            body@,
        ),
{
    let detail = string_member(body, "detail");
    let line = status_line(status);
    backend_error_message(detail, line.as_str(), body)
}

/// Where a body carries no `detail` string, the generation error holds the status
/// code in decimal and, after it, the raw body.
pub proof fn lemma_undetailed_error_names_status_and_body(status: u16, body: Seq<char>)
    requires
        json_string_member(body, detail_key()) is None,
    ensures
        ({
            let line = decimal(status as nat) + " "@ + status_reason(status);
            let e = backend_error_spec(json_string_member(body, detail_key()), line, body);
            let n = decimal(status as nat).len();
            let pre = "Backend error ("@.len();
            &&& e.subrange(pre as int, (pre + n) as int) == decimal(status as nat)
            &&& e.subrange(e.len() - body.len(), e.len() as int) == body
        }),
{
    let line = decimal(status as nat) + " "@ + status_reason(status);
    let e = backend_error_spec(json_string_member(body, detail_key()), line, body);
    let n = decimal(status as nat).len();
    let pre = "Backend error ("@.len();
    assert(e.subrange(pre as int, (pre + n) as int) =~= decimal(status as nat));
    assert(e.subrange(e.len() - body.len(), e.len() as int) =~= body);
}

/// Where a body carries a `detail` string, the generation error is exactly that string.
pub proof fn lemma_detail_is_surfaced(status: u16, body: Seq<char>, detail: Seq<char>)
    requires
        json_string_member(body, detail_key()) == Some(detail),
    ensures
        backend_error_spec(
            json_string_member(body, detail_key()),
            decimal(status as nat) + " "@ + status_reason(status),
            body,
        ) == detail,
{
}


/// The base address at which the backend answers.
pub struct BackendEndpoint {
    base: String,
}

impl BackendEndpoint {
    pub closed spec fn view(&self) -> Seq<char> {
        self.base@
    }

    /// An endpoint at the base address `base` (scheme, host and port, no trailing slash).
    pub fn new(base: &str) -> (r: Self)
        ensures
            r@ == base@,
    {
        BackendEndpoint { base: String::from_str(base) }
    }

    /// The endpoint of a backend running on this machine.
    pub fn local() -> (r: Self)
        ensures
            r@ == "http://127.0.0.1:8000"@,
    {
        Self::new(LOCAL_BACKEND_URL)
    }

    /// The address of the liveness check.
    pub fn health_url(&self) -> (r: String)
        ensures
            r@ == self@ + "/health"@,
    {
        joined(self.base.as_str(), "/health")
    }

    /// The address that takes generation requests.
    pub fn generate_url(&self) -> (r: String)
        ensures
            r@ == self@ + "/generate"@,
    {
        joined(self.base.as_str(), "/generate")
    }
}

/// The steps at which talking to the backend, or handling its output, can fail.
#[derive(Clone, Copy, Debug, PartialEq, Eq, Structural)]
pub enum Failure {
    /// The HTTP client could not be built.
    ClientSetup,
    /// The request did not complete (unreachable, timed out, dropped).
    Request,
    /// The success response was not valid JSON.
    ResponseParse,
    /// A generated file could not be removed.
    FileDelete,
}

/// The text put before the underlying cause of a failure.
pub open spec fn failure_prefix(kind: Failure) -> Seq<char> {
    match kind {
        Failure::ClientSetup => "Failed to create HTTP client: "@,
        Failure::Request => "Backend request failed: "@,
        Failure::ResponseParse => "Failed to parse response: "@,
        Failure::FileDelete => "Failed to delete file: "@,
    }
}

/// The user-facing message for a failure of `kind` whose cause reads `cause`.
pub fn failure_message(kind: Failure, cause: &str) -> (r: String)
    ensures
        r@ == failure_prefix(kind) + cause@,
{
    let prefix = match kind {
        Failure::ClientSetup => "Failed to create HTTP client: ",
        Failure::Request => "Backend request failed: ",
        Failure::ResponseParse => "Failed to parse response: ",
        Failure::FileDelete => "Failed to delete file: ",
    };
    joined(prefix, cause)
}

} // verus!
