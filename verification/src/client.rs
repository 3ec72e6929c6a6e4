//! Client-side policy for the recognition service: addresses, time limits,
//! which failures are worth another attempt, and how a status answer reads.

use vstd::prelude::*;
use vstd::string::*;
use crate::text::same_text;

verus! {

/// Attempts that are made again after a failure that allows it.
pub const MAX_RETRIES: u32 = 3;

/// Base of the exponential pause between upload attempts, in seconds.
pub const UPLOAD_BACKOFF_SECS: u64 = 2;

/// Base of the exponential pause between other attempts, in seconds.
pub const BACKOFF_SECS: u64 = 1;

/// Time limit of a status request, in seconds.
pub const STATUS_TIMEOUT_SECS: u64 = 10;

/// Time limit of a result request, in seconds.
pub const RESULT_TIMEOUT_SECS: u64 = 15;

/// Base of the time limit of an upload, in milliseconds.
pub const UPLOAD_BASE_MILLIS: u64 = 10_000;

/// Milliseconds that an upload is given for each mebibyte.
pub const UPLOAD_MILLIS_PER_MIB: u64 = 500;

/// Bytes in a mebibyte.
pub const MIB: u64 = 1_048_576;

/// Name of the form part that carries the audio.
pub const FILE_PART: &'static str = "file";

/// Content type under which the audio is sent.
pub const FILE_MIME: &'static str = "audio/bin";

/// What is accepted as the answer to an upload or a status request.
pub const ACCEPT_JSON: &'static str = "application/json";

/// What is accepted as the answer to a result request.
pub const ACCEPT_TEXT: &'static str = "text/plain";

/// The text parts of the upload form: the recognizer, and the number of
/// speakers, which is left to the service.
pub fn upload_form(model: &str) -> (r: Vec<(String, String)>)
    ensures
        r@.len() == 2,
        r@[0].0@ == "recognizer"@,
        r@[0].1@ == model@,
        r@[1].0@ == "numberOfSpeakers"@,
        r@[1].1@.len() == 0,
{
    let mut r: Vec<(String, String)> = Vec::new();
    r.push((String::from_str("recognizer"), String::from_str(model)));
    r.push((String::from_str("numberOfSpeakers"), String::new()));
    r
}

/// How a request failed, as far as the retry policy needs to know.
#[derive(Debug, Clone, Copy, PartialEq, Eq, Structural)]
pub enum RequestError {
    /// The request ran into its time limit, while connecting or reading.
    Timeout,
    /// The service answered with an error status.
    HttpStatus(u16),
    /// The socket layer failed; `timed_out` tells whether by a timeout.
    Io { timed_out: bool },
    /// Anything else.
    Other,
}

/// What the HTTP layer reports of a failed request.
#[derive(Debug, Clone, Copy)]
pub struct HttpFacts {
    /// The request ran into a time limit.
    pub timeout: bool,
    /// The failure stands for an error status.
    pub is_status: bool,
    /// The status of the answer, where there was one.
    pub status: Option<u16>,
}

/// What is read off a failed request: the report of the HTTP layer where the
/// failure is one of its own, and for a failure of the socket layer whether
/// it was a timeout.
#[derive(Debug, Clone, Copy)]
pub struct ErrorFacts {
    pub http: Option<HttpFacts>,
    pub io_timed_out: Option<bool>,
}

/// The kind of a failed request. A failure of the HTTP layer is a timeout
/// before it is anything else, and then a status where it stands for one.
pub open spec fn kind_of(facts: ErrorFacts) -> RequestError {
    match facts.http {
        Some(h) => if h.timeout {
            RequestError::Timeout
        } else if h.is_status && h.status is Some {
            RequestError::HttpStatus(h.status->0)
        } else {
            RequestError::Other
        },
        None => match facts.io_timed_out {
            Some(timed_out) => RequestError::Io { timed_out },
            None => RequestError::Other,
        },
    }
}

/// Sorts a failed request into its kind.
pub fn classify(facts: &ErrorFacts) -> (r: RequestError)
    ensures
        r == kind_of(*facts),
{
    match facts.http {
        Some(h) => {
            if h.timeout {
                return RequestError::Timeout;
            }
            match h.status {
                Some(code) => if h.is_status {
                    RequestError::HttpStatus(code)
                } else {
                    RequestError::Other
                },
                None => RequestError::Other,
            }
        },
        None => match facts.io_timed_out {
            Some(timed_out) => RequestError::Io { timed_out },
            None => RequestError::Other,
        },
    }
}

/// Whether a failure is worth another attempt: a timeout, a server-side
/// status, 429 or 404.
pub open spec fn retry_eligible(err: RequestError) -> bool {
    match err {
        RequestError::Timeout => true,
        RequestError::HttpStatus(code) => 500 <= code <= 599 || code == 429 || code == 404,
        RequestError::Io { timed_out } => timed_out,
        RequestError::Other => false,
    }
}

/// The retry predicate of every request to the recognition service.
pub fn is_retry_err(err: &RequestError) -> (r: bool)
    ensures
        r == retry_eligible(*err),
{
    match err {
        RequestError::Timeout => true,
        RequestError::HttpStatus(code) => {
            (500 <= *code && *code <= 599) || *code == 429 || *code == 404
        },
        RequestError::Io { timed_out } => *timed_out,
        RequestError::Other => false,
    }
}

/// Time limit of an upload of `file_size` bytes, in milliseconds: ten seconds
/// and half a second for each mebibyte, fractions of a millisecond dropped.
pub open spec fn upload_timeout_millis(file_size: int) -> int {
    10_000 + (file_size * 500) / 1_048_576
}

/// The size-adaptive time limit of an upload, in milliseconds.
pub fn get_timeout(file_size: u64) -> (millis: u64)
    ensures
        millis == upload_timeout_millis(file_size as int),
{
    let wide: u128 = file_size as u128;
    let extra: u128 = (wide * 500) / 1_048_576;
    let part: u64 = extra as u64;
    UPLOAD_BASE_MILLIS + part
}

/// Whether a status code reports success.
pub fn is_success(code: u16) -> (r: bool)
    ensures
        r == (200 <= code <= 299),
{
    200 <= code && code <= 299
}

/// Address of the upload operation.
pub fn upload_url(base: &str) -> (r: String)
    ensures
        r@ == base@ + "/transcriber/upload"@,
{
    let mut r = String::from_str(base);
    r.append("/transcriber/upload");
    r
}

/// Address of the status of job `id`.
pub fn status_url(base: &str, id: &str) -> (r: String)
    ensures
        r@ == base@ + "/status.service/status/"@ + id@,
{
    let mut r = String::from_str(base);
    r.append("/status.service/status/");
    r.append(id);
    r
}

/// Address of the result file `file_name` of job `id`.
pub fn result_url(base: &str, id: &str, file_name: &str) -> (r: String)
    ensures
        r@ == base@ + "/result.service/result/"@ + id@ + "/"@ + file_name@,
{
    let mut r = String::from_str(base);
    r.append("/result.service/result/");
    r.append(id);
    r.append("/");
    r.append(file_name);
    r
}

/// Value of the authorization header: none for an empty key.
pub fn auth_header(auth_key: &str) -> (r: Option<String>)
    ensures
        auth_key@.len() == 0 ==> r is None,
        auth_key@.len() > 0 ==> r is Some && r->0@ == "Key "@ + auth_key@,
{
    if auth_key.unicode_len() == 0 {
        None
    } else {
        let mut r = String::from_str("Key ");
        r.append(auth_key);
        Some(r)
    }
}

/// Text of the failure that an answer with an error status is turned into.
pub fn failure_text(status: &str, body: &str) -> (r: String)
    ensures
        r@ == "Request failed with status: "@ + status@ + "\n"@ + body@,
{
    let mut r = String::from_str("Request failed with status: ");
    r.append(status);
    r.append("\n");
    r.append(body);
    r
}

/// What the service says of a job.
#[derive(Debug)]
pub struct StatusResponse {
    pub id: String,
    pub error_code: Option<String>,
    pub error: Option<String>,
    pub status: Option<String>,
    pub recognized_text: Option<String>,
    pub progress: Option<u32>,
}

/// Whether the answer reports a completed job.
pub open spec fn is_completed(res: &StatusResponse) -> bool {
    res.status is Some && res.status->0@ == "COMPLETED"@
}

/// Whether the answer reports a failure of the service's own.
pub open spec fn has_error_code(res: &StatusResponse) -> bool {
    res.error_code is Some && res.error_code->0@.len() > 0
}

/// Whether the answer ends the wait.
pub open spec fn status_finished(res: &StatusResponse) -> bool {
    is_completed(res) || has_error_code(res)
}

/// The error that the answer carries: none for a completed or a running job,
/// else the error code, a line break and the error text.
pub open spec fn status_error(res: &StatusResponse) -> Seq<char> {
    if is_completed(res) || !has_error_code(res) {
        Seq::empty()
    } else {
        res.error_code->0@ + "\n"@ + match res.error {
            Some(e) => e@,
            None => Seq::empty(),
        }
    }
}

/// Reads a status answer: whether the job reached its end, and with which error.
pub fn get_status(res: &StatusResponse) -> (r: (bool, String))
    ensures
        r.0 == status_finished(res),
        r.1@ == status_error(res),
{
    match &res.status {
        Some(status) => {
            if same_text(status.as_str(), "COMPLETED") {
                return (true, String::new());
            }
        },
        None => {},
    }
    match &res.error_code {
        Some(code) => {
            if code.as_str().unicode_len() > 0 {
                let mut text = String::from_str(code.as_str());
                text.append("\n");
                match &res.error {
                    Some(e) => {
                        text.append(e.as_str());
                    },
                    None => {
                        assert(text@ + Seq::<char>::empty() =~= text@);
                    },
                }
                return (true, text);
            }
        },
        None => {},
    }
    (false, String::new())
}

} // verus!
