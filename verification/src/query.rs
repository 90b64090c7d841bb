//! The outbound side: what is sent to the discovery service for a line of
//! input, and what follows from the outcome of sending it.

use vstd::prelude::*;
use vstd::string::*;
use crate::text::{append_decimal, blank, decimal_text, is_blank, trim_end, trimmed_end};

verus! {

/// The JSON string literal that the encoder writes for `text`; `None` where
/// it refuses.
pub uninterp spec fn quoted_json(text: Seq<char>) -> Option<Seq<char>>;

/// Calls `serde_json::to_string` on a string slice. Trusted: the outcome
/// depends on `text` alone, and an error is reported as `None`.
#[verifier::external_body]
fn json_quote(text: &str) -> (r: Option<String>)
    ensures
        match r {
            Some(s) => quoted_json(text@) == Some(s@),
            None => quoted_json(text@) is None,
        },
{
    match serde_json::to_string(text) {
        Ok(s) => Some(s),
        Err(_) => None,
    }
}

/// How the client talks to the service.
#[derive(Clone, Copy, PartialEq, Eq, Structural, Debug)]
pub enum Mode {
    /// One query, answered on the same connection.
    Sync,
    /// Queries read in a loop, answered through the callback listener.
    Interactive,
}

/// A request to post.
#[derive(Debug, PartialEq, Eq)]
pub struct Request {
    pub url: String,
    pub body: String,
}

/// What to do with a line of input.
#[derive(Debug, PartialEq, Eq)]
pub enum Step {
    /// The input has ended: leave the loop.
    Stop,
    /// Nothing to send for this line.
    Skip,
    /// Post this request.
    Send(Request),
}

/// The model of a step.
pub enum StepModel {
    Stop,
    Skip,
    Send(Seq<char>, Seq<char>),
}

impl View for Step {
    type V = StepModel;

    open spec fn view(&self) -> StepModel {
        match self {
            Step::Stop => StepModel::Stop,
            Step::Skip => StepModel::Skip,
            Step::Send(r) => StepModel::Send(r.url@, r.body@),
        }
    }
}

/// What follows a failure to send.
#[derive(Clone, Copy, PartialEq, Eq, Structural, Debug)]
pub enum Recovery {
    /// Report it and go on with the next line.
    Continue,
    /// Report it and give the process up.
    Abort,
}

/// The address that queries are posted to.
pub open spec fn endpoint(server_url: Seq<char>) -> Seq<char> {
    server_url + "/query"@
}

/// The body of a query in callback mode, from the two quoted strings.
pub open spec fn callback_body_of(quoted_url: Seq<char>, quoted_query: Seq<char>) -> Seq<char> {
    "{\"embox_url\": "@ + quoted_url + ", \"query\" : "@ + quoted_query + " }"@
}

/// What a line of input leads to, given how many bytes were read for it and
/// what the encoder made of the callback address and of the query.
pub open spec fn step_of(
    server_url: Seq<char>,
    bytes_read: usize,
    line: Seq<char>,
    quoted_url: Option<Seq<char>>,
    quoted_query: Option<Seq<char>>,
) -> StepModel {
    if bytes_read == 0 {
        StepModel::Stop
    } else if blank(line) {
        StepModel::Skip
    } else {
        match (quoted_url, quoted_query) {
            (Some(u), Some(q)) => StepModel::Send(endpoint(server_url), callback_body_of(u, q)),
            _ => StepModel::Skip,
        }
    }
}

/// The words of a query joined by single spaces.
pub open spec fn spaced(words: Seq<Seq<char>>) -> Seq<char>
    decreases words.len(),
{
    if words.len() == 0 {
        Seq::empty()
    } else if words.len() == 1 {
        words[0]
    } else {
        spaced(words.drop_last()) + seq![' '] + words.last()
    }
}

/// The message that reports a failure to reach the service.
pub open spec fn failure_message_of(server_url: Seq<char>, cause: Seq<char>) -> Seq<char> {
    "Failed to send HTTP request to "@ + server_url + " : \n\t"@ + cause
}

/// The address that queries are posted to.
pub fn query_endpoint(server_url: &str) -> (r: String)
    ensures
        r@ == endpoint(server_url@),
{
    let mut out = String::from_str(server_url);
    out.append("/query");
    out
}

/// The body of a query in callback mode: an object that holds the callback
/// address and the query, each given as a JSON string literal.
pub fn callback_body(quoted_url: &str, quoted_query: &str) -> (r: String)
    ensures
        r@ == callback_body_of(quoted_url@, quoted_query@),
{
    let mut out = String::from_str("{\"embox_url\": ");
    out.append(quoted_url);
    out.append(", \"query\" : ");
    out.append(quoted_query);
    out.append(" }");
    out
}

/// Decides what a line of input leads to, once the callback address and the
/// query are quoted.
pub fn plan_step(
    server_url: &str,
    bytes_read: usize,
    line: &str,
    quoted_url: Option<String>,
    quoted_query: Option<String>,
) -> (r: Step)
    ensures
        r@ == step_of(
            server_url@,
            bytes_read,
            line@,
            match quoted_url {
                Some(u) => Some(u@),
                None => None,
            },
            match quoted_query {
                Some(q) => Some(q@),
                None => None,
            },
        ),
{
    if bytes_read == 0 {
        Step::Stop
    } else if is_blank(line) {
        Step::Skip
    } else {
        match (quoted_url, quoted_query) {
            (Some(u), Some(q)) => Step::Send(
                Request { url: query_endpoint(server_url), body: callback_body(u.as_str(), q.as_str()) },
            ),
            _ => Step::Skip,
        }
    }
}

/// Decides what a line of input leads to in callback mode: the end of the
/// loop where nothing was read, nothing for a blank line, and else a request
/// that carries the callback address and the line without the white space at
/// its end.
pub fn next_step(server_url: &str, embox_url: &str, bytes_read: usize, line: &str) -> (r: Step)
    ensures
        r@ == step_of(
            server_url@,
            bytes_read,
            line@,
            quoted_json(embox_url@),
            quoted_json(trimmed_end(line@)),
        ),
        bytes_read == 0 ==> r@ == StepModel::Stop,
        bytes_read != 0 && blank(line@) ==> r@ == StepModel::Skip,
{
    let query = trim_end(line);
    let quoted_url = json_quote(embox_url);
    let quoted_query = json_quote(query.as_str());
    plan_step(server_url, bytes_read, line, quoted_url, quoted_query)
}

/// The request of a single query that is answered on the same connection:
/// its body is the query as a JSON string literal.
pub fn sync_request(server_url: &str, query: &str) -> (r: Option<Request>)
    ensures
        match r {
            Some(req) => req.url@ == endpoint(server_url@) && quoted_json(query@) == Some(
                req.body@,
            ),
            None => quoted_json(query@) is None,
        },
{
    match json_quote(query) {
        Some(body) => Some(Request { url: query_endpoint(server_url), body }),
        None => None,
    }
}

/// Joins the words of a command line into one query, with single spaces.
pub fn join_words(words: &Vec<String>) -> (r: String)
    ensures
        r@ == spaced(words@.map_values(|w: String| w@)),
{
    let ghost model = words@.map_values(|w: String| w@);
    let mut out = String::new();
    let mut i: usize = 0;
    while i < words.len()
        invariant
            i <= words.len(),
            model == words@.map_values(|w: String| w@),
            out@ == spaced(model.take(i as int)),
        decreases words.len() - i,
    {
        proof {
            reveal_strlit(" ");
            assert(" "@ =~= seq![' ']);
            assert(model.take(i + 1).drop_last() =~= model.take(i as int));
        }
        if i > 0 {
            out.append(" ");
        }
        out.append(words[i].as_str());
        proof {
            if i == 0 {
                assert(out@ =~= model.take(1)[0]);
            }
        }
        i = i + 1;
    }
    assert(model.take(i as int) =~= model);
    out
}

/// The message that reports a failure to reach the service: it names the
/// service's address and the cause.
pub fn failure_message(server_url: &str, cause: &str) -> (r: String)
    ensures
        r@ == failure_message_of(server_url@, cause@),
{
    let mut out = String::from_str("Failed to send HTTP request to ");
    out.append(server_url);
    out.append(" : \n\t");
    out.append(cause);
    out
}

/// What follows a failure to send: a single query gives up, a loop of
/// queries goes on with the next line.
pub fn after_failure(mode: Mode) -> (r: Recovery)
    ensures
        r == (match mode {
            Mode::Sync => Recovery::Abort,
            Mode::Interactive => Recovery::Continue,
        }),
{
    match mode {
        Mode::Sync => Recovery::Abort,
        Mode::Interactive => Recovery::Continue,
    }
}

/// Whether a status code reports success: the codes from 200 to 299.
pub fn is_success(status: u16) -> (r: bool)
    ensures
        r == (200 <= status <= 299),
{
    200 <= status && status <= 299
}

/// The message that reports an answer whose status is no success.
pub open spec fn status_message_of(server_url: Seq<char>, status: u16) -> Seq<char> {
    "HTTP request to "@ + server_url + " failed with status "@ + decimal_text(status as nat)
}

/// The message that reports an answer whose status is no success: it names
/// the service's address and the status code.
pub fn status_message(server_url: &str, status: u16) -> (r: String)
    ensures
        r@ == status_message_of(server_url@, status),
{
    let mut out = String::from_str("HTTP request to ");
    out.append(server_url);
    out.append(" failed with status ");
    append_decimal(&mut out, status);
    out
}

} // verus!
