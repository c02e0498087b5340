//! The HTTP pass-through that the front end uses to reach services it may
//! not call directly: what is sent, and what is made of the answer. Sending
//! is left to the embedding program.

use vstd::prelude::*;
use vstd::string::StringExecFns;

verus! {

/// The answer to a forwarded request.
#[derive(Debug, PartialEq, Eq)]
pub struct HttpResponse {
    /// The HTTP status code.
    pub status: u16,
    /// The body, as text.
    pub body: String,
}

/// A request as it is to be sent.
#[derive(Debug, PartialEq, Eq)]
pub struct PostRequest {
    /// The address, without surrounding white space.
    pub url: String,
    /// The headers, as pairs of name and value, in the order to add them.
    pub headers: Vec<(String, String)>,
    /// The body.
    pub body: String,
}

/// What came of sending a request.
#[derive(Debug, PartialEq, Eq)]
pub enum PostExchange {
    /// The request could not be sent, or no answer came; `error` says why.
    SendFailed { error: String },
    /// An answer came but its body could not be read; `error` says why.
    BodyUnreadable { status: u16, error: String },
    /// An answer came and was read in full.
    Completed { status: u16, body: String },
}

/// Whether a character is white space: whether it has the Unicode property
/// `White_Space`, by which `str::trim` trims.
pub uninterp spec fn is_white_space(c: char) -> bool;

/// What `str::to_lowercase` makes of a text.
pub uninterp spec fn lowercased(text: Seq<char>) -> Seq<char>;

/// A text without the white space at its start.
pub open spec fn trim_start_spec(text: Seq<char>) -> Seq<char>
    decreases text.len(),
{
    if text.len() > 0 && is_white_space(text.first()) {
        trim_start_spec(text.drop_first())
    } else {
        text
    }
}

/// A text without the white space at its end.
pub open spec fn trim_end_spec(text: Seq<char>) -> Seq<char>
    decreases text.len(),
{
    if text.len() > 0 && is_white_space(text.last()) {
        trim_end_spec(text.drop_last())
    } else {
        text
    }
}

/// A text without the white space at its start and at its end.
pub open spec fn trim_spec(text: Seq<char>) -> Seq<char> {
    trim_end_spec(trim_start_spec(text))
}

/// Whether a header name is that of the user agent header, in whatever case
/// it is written.
pub open spec fn names_user_agent(name: Seq<char>) -> bool {
    lowercased(name) == "user-agent"@
}

/// Whether one of the headers is a user agent header.
pub open spec fn has_user_agent(headers: Seq<(Seq<char>, Seq<char>)>) -> bool {
    exists|i: int| 0 <= i < headers.len() && names_user_agent(#[trigger] headers[i].0)
}

/// The headers to send: those given, followed by the default user agent if
/// they name none.
pub open spec fn with_user_agent(headers: Seq<(Seq<char>, Seq<char>)>) -> Seq<
    (Seq<char>, Seq<char>),
> {
    if has_user_agent(headers) {
        headers
    } else {
        headers.push(("user-agent"@, "ai-client/1.0"@))
    }
}

/// Calls `str::trim`. The contract claims what its documentation says: the
/// result is the text without its leading and trailing white space, where
/// white space is what has the Unicode property `White_Space`.
#[verifier::external_body]
fn trim(text: &str) -> (trimmed: &str)
    ensures
        trimmed@ == trim_spec(text@),
        trimmed@.len() > 0 ==> !is_white_space(trimmed@.first()) && !is_white_space(
            trimmed@.last(),
        ),
{
    text.trim()
}

/// Calls `str::to_lowercase`. The contract gives the result its name and
/// claims no more than that it depends on the text alone.
#[verifier::external_body]
fn to_lowercase(text: &str) -> (lowered: String)
    ensures
        lowered@ == lowercased(text@),
{
    text.to_lowercase()
}

/// The name of the user agent header as `reqwest` writes it,
/// `reqwest::header::USER_AGENT`. The contract claims what the `http`
/// crate's source shows: the constant is defined from the bytes
/// `user-agent`, and `HeaderName::as_str` returns them as text.
#[verifier::external_body]
fn user_agent_header_name() -> (name: String)
    ensures
        name@ == "user-agent"@,
{
    reqwest::header::USER_AGENT.as_str().to_owned()
}

/// Whether a header name, already in lower case, is that of the user agent
/// header.
pub fn is_user_agent_name(lowered: &String) -> (is_user_agent: bool)
    ensures
        is_user_agent == (lowered@ == "user-agent"@),
{
    let user_agent = user_agent_header_name();
    *lowered == user_agent
}

/// Whether one of the headers is a user agent header, in whatever case its
/// name is written.
pub fn names_a_user_agent(headers: &Vec<(String, String)>) -> (found: bool)
    ensures
        found == has_user_agent(headers.deep_view()),
{
    let mut i: usize = 0;
    while i < headers.len()
        invariant
            i <= headers.len(),
            forall|j: int| 0 <= j < i ==> !names_user_agent(#[trigger] headers.deep_view()[j].0),
        decreases headers.len() - i,
    {
        let lowered = to_lowercase(headers[i].0.as_str());
        if is_user_agent_name(&lowered) {
            assert(names_user_agent(headers.deep_view()[i as int].0));
            return true;
        }
        i += 1;
    }
    false
}

/// Prepares a request for sending: the address is trimmed of surrounding
/// white space, the headers are kept as given, and a user agent header of
/// `ai-client/1.0` is added after them unless they name one already.
pub fn prepare_post(url: &str, headers: Vec<(String, String)>, body: String) -> (request:
    PostRequest)
    ensures
        request.url@ == trim_spec(url@),
        request.headers.deep_view() == with_user_agent(headers.deep_view()),
        request.body@ == body@,
{
    let mut headers = headers;
    let ghost given = headers.deep_view();
    if !names_a_user_agent(&headers) {
        headers.push((user_agent_header_name(), "ai-client/1.0".to_owned()));
        assert(headers.deep_view() =~= given.push(("user-agent"@, "ai-client/1.0"@)));
    }
    PostRequest { url: trim(url).to_owned(), headers, body }
}

/// What the caller is told about an exchange: the answer where one was read
/// in full, and otherwise a message that says which step failed and why.
pub open spec fn post_result(exchange: PostExchange) -> Result<(u16, Seq<char>), Seq<char>> {
    match exchange {
        PostExchange::SendFailed { error } => Err("Request failed: "@ + error@),
        PostExchange::BodyUnreadable { error, .. } => Err("Failed to read response: "@ + error@),
        PostExchange::Completed { status, body } => Ok((status, body@)),
    }
}

/// Turns what came of sending a request into what the caller is told.
pub fn conclude_post(exchange: PostExchange) -> (result: Result<HttpResponse, String>)
    ensures
        match result {
            Ok(response) => post_result(exchange) == Ok::<(u16, Seq<char>), Seq<char>>(
                (response.status, response.body@),
            ),
            Err(message) => post_result(exchange) == Err::<(u16, Seq<char>), Seq<char>>(message@),
        },
{
    match exchange {
        PostExchange::SendFailed { error } => Err(
            "Request failed: ".to_owned().concat(error.as_str()),
        ),
        PostExchange::BodyUnreadable { status: _, error } => Err(
            "Failed to read response: ".to_owned().concat(error.as_str()),
        ),
        PostExchange::Completed { status, body } => Ok(HttpResponse { status, body }),
    }
}

} // verus!
