//! The client of the REST interface: how it is set up, where it sends its
//! requests, and how it reads what comes back. Sending and receiving is
//! the caller's part, and so is turning a body into a value of the type
//! the caller expects.

use vstd::prelude::*;
use vstd::std_specs::convert::FromSpecImpl;
use vstd::string::StringExecFns;
use crate::text::{same_text, trim_end, without_trailing};
use crate::trusted::{is_json, parse_json, parse_url, parsed_url};

verus! {

/// The head of a reply: its status and its headers.
#[derive(Debug)]
pub struct ResponseHead {
    /// The HTTP status code.
    pub status: u16,
    /// The headers, in order.
    pub headers: Vec<(String, String)>,
}

/// Why a request to the REST interface came to nothing.
#[derive(Debug)]
#[allow(inconsistent_fields)]
pub enum ClientError {
    /// The request could not be sent.
    Send {
        /// What was being done.
        details: String,
        /// Why sending failed.
        source: String,
    },
    /// The filter of the request names no resource.
    InvalidFilter {
        /// What is wrong with it.
        details: String,
    },
    /// The body of the reply could not be received.
    InvalidPayload {
        /// The head of the reply.
        head: ResponseHead,
        /// Why receiving failed.
        source: String,
    },
    /// The body of the reply is not what was expected.
    InvalidBody {
        /// The head of the reply.
        head: ResponseHead,
        /// The body of the reply.
        body: Vec<u8>,
        /// Why the body could not be read.
        source: serde_json::Error,
    },
    /// The reply reports a failure and has no body.
    Header {
        /// The head of the reply.
        head: ResponseHead,
    },
    /// The reply reports a failure that its body describes in JSON.
    RestServer {
        /// The head of the reply.
        head: ResponseHead,
        /// The body of the reply.
        error: serde_json::Value,
    },
}

impl ClientError {
    /// The error for a filter that names no resource.
    pub fn filter(message: &str) -> (error: ClientError)
        ensures
            error matches ClientError::InvalidFilter { details } && details@ == message@,
    {
        ClientError::InvalidFilter { details: message.to_owned() }
    }
}

/// The client of the REST interface, but for its connection.
#[derive(Debug)]
pub struct ActixRestClient {
    /// Where the interface is, without a slash at its end.
    pub url: String,
    /// Whether requests are traced.
    pub trace: bool,
    /// Whether the connection is secured by TLS.
    pub secure: bool,
    /// The token that requests carry, if any.
    pub bearer_token: Option<String>,
    /// How many seconds a request may take.
    pub timeout_secs: u64,
}

/// A client with its strings as text.
pub struct ActixRestClientView {
    pub url: Seq<char>,
    pub trace: bool,
    pub secure: bool,
    pub bearer_token: Option<Seq<char>>,
    pub timeout_secs: u64,
}

impl View for ActixRestClient {
    type V = ActixRestClientView;

    open spec fn view(&self) -> ActixRestClientView {
        ActixRestClientView {
            url: self.url@,
            trace: self.trace,
            secure: self.secure,
            bearer_token: self.bearer_token.deep_view(),
            timeout_secs: self.timeout_secs,
        }
    }
}

/// The client for the interface at the URL with scheme and serialization
/// `parsed`, or why there is none. What does not parse as a URL gives no
/// client. The scheme `https` gives a secure client, the scheme `http` a
/// plain one, any other scheme none. The client's URL is the URL's
/// serialization without the slashes at its end.
pub open spec fn client_for(
    url: Seq<char>,
    parsed: Option<(Seq<char>, Seq<char>)>,
    trace: bool,
    bearer_token: Option<Seq<char>>,
    timeout_secs: u64,
) -> Result<ActixRestClientView, Seq<char>> {
    match parsed {
        None => Err("Invalid url: "@ + url),
        Some((scheme, serialization)) => if scheme == "https"@ || scheme == "http"@ {
            Ok(
                ActixRestClientView {
                    url: without_trailing(serialization, '/'),
                    trace,
                    secure: scheme == "https"@,
                    bearer_token,
                    timeout_secs,
                },
            )
        } else {
            Err("Invalid url scheme: "@ + scheme)
        },
    }
}

/// A client or the reason for none, with their strings as text.
pub open spec fn client_view(client: Result<ActixRestClient, String>) -> Result<
    ActixRestClientView,
    Seq<char>,
> {
    match client {
        Ok(client) => Ok(client@),
        Err(reason) => Err(reason@),
    }
}

impl ActixRestClient {
    /// Sets up a client for the interface at `url`, given the scheme and
    /// the serialization that `url` parses to, if it parses.
    pub fn from_parsed(
        url: &str,
        parsed: Option<(String, String)>,
        trace: bool,
        bearer_token: Option<String>,
        timeout_secs: u64,
    ) -> (client: Result<ActixRestClient, String>)
        ensures
            client_view(client) == client_for(
                url@,
                parsed.deep_view(),
                trace,
                bearer_token.deep_view(),
                timeout_secs,
            ),
    {
        match parsed {
            None => {
                let mut reason = String::from_str("Invalid url: ");
                reason.append(url);
                Err(reason)
            },
            Some((scheme, serialization)) => {
                let secure = same_text(scheme.as_str(), "https");
                if secure || same_text(scheme.as_str(), "http") {
                    Ok(
                        ActixRestClient {
                            url: trim_end(serialization.as_str(), '/').to_owned(),
                            trace,
                            secure,
                            bearer_token,
                            timeout_secs,
                        },
                    )
                } else {
                    let mut reason = String::from_str("Invalid url scheme: ");
                    reason.append(scheme.as_str());
                    Err(reason)
                }
            },
        }
    }

    /// Sets up a client for the interface at `url`, whose requests may
    /// take `timeout_secs` seconds. The client is secured by TLS if the
    /// URL has the scheme `https`.
    pub fn new_timeout(
        url: &str,
        trace: bool,
        bearer_token: Option<String>,
        timeout_secs: u64,
    ) -> (client: Result<ActixRestClient, String>)
        ensures
            client_view(client) == client_for(
                url@,
                parsed_url(url@),
                trace,
                bearer_token.deep_view(),
                timeout_secs,
            ),
    {
        let parsed = parse_url(url);
        ActixRestClient::from_parsed(url, parsed, trace, bearer_token, timeout_secs)
    }

    /// Sets up a client for the interface at `url`, whose requests may
    /// take five seconds.
    pub fn new(url: &str, trace: bool, bearer_token: Option<String>) -> (client: Result<
        ActixRestClient,
        String,
    >)
        ensures
            client_view(client) == client_for(
                url@,
                parsed_url(url@),
                trace,
                bearer_token.deep_view(),
                5,
            ),
    {
        ActixRestClient::new_timeout(url, trace, bearer_token, 5)
    }

    /// The address of the resource `urn` at this client's interface.
    pub fn uri(&self, urn: &str) -> (uri: String)
        ensures
            uri@ == self.url@ + urn@,
    {
        let mut uri = self.url.clone();
        uri.append(urn);
        uri
    }

    /// The error for a request to `uri` that could not be sent; `verb`
    /// says what the request was to do, `source` why sending failed.
    pub fn send_error(verb: &str, uri: &str, source: String) -> (error: ClientError)
        ensures
            error matches ClientError::Send { details, source: reason } && details@ == "Failed to "@
                + verb@ + " uri "@ + uri@ && reason == source,
    {
        let mut details = String::from_str("Failed to ");
        details.append(verb);
        details.append(" uri ");
        details.append(uri);
        ClientError::Send { details, source }
    }
}

/// Whether `status` reports success.
pub open spec fn is_success(status: u16) -> bool {
    200 <= status < 300
}

/// How a reply is to be read.
#[derive(Debug, Clone, Copy, PartialEq, Eq, Structural)]
pub enum ReplyKind {
    /// The reply reports success: its body holds the value asked for.
    Success,
    /// The reply reports a failure and has no body.
    BareFailure,
    /// The reply reports a failure that its body describes.
    Failure,
}

/// How a reply with `status` is to be read, given whether its body is
/// empty.
pub fn reply_kind(status: u16, body_is_empty: bool) -> (kind: ReplyKind)
    ensures
        kind == if is_success(status) {
            ReplyKind::Success
        } else if body_is_empty {
            ReplyKind::BareFailure
        } else {
            ReplyKind::Failure
        },
{
    if 200 <= status && status < 300 {
        ReplyKind::Success
    } else if body_is_empty {
        ReplyKind::BareFailure
    } else {
        ReplyKind::Failure
    }
}

/// Whether `error` is what a reply that reports a failure comes to:
/// `Header` where the reply has no body, `RestServer` where its body is
/// JSON, `InvalidBody` where it is not; each with the reply's head.
pub open spec fn is_failure_of(error: ClientError, head: ResponseHead, body: Vec<u8>) -> bool {
    match error {
        ClientError::Header { head: its_head } => body@.len() == 0 && its_head == head,
        ClientError::RestServer { head: its_head, .. } => body@.len() > 0 && is_json(body@)
            && its_head == head,
        ClientError::InvalidBody { head: its_head, body: its_body, .. } => body@.len() > 0
            && !is_json(body@) && its_head == head && its_body == body,
        _ => false,
    }
}

/// The error of a reply that reports a failure: `Header` where it has no
/// body, `RestServer` where its body is JSON, `InvalidBody` where it is
/// not.
pub fn rest_error(head: ResponseHead, body: Vec<u8>) -> (error: ClientError)
    ensures
        is_failure_of(error, head, body),
{
    if body.len() == 0 {
        return ClientError::Header { head };
    }
    match parse_json(body.as_slice()) {
        Ok(error) => ClientError::RestServer { head, error },
        Err(source) => ClientError::InvalidBody { head, body, source },
    }
}

/// What a reply comes to, given what became of reading its body as the
/// type asked for. A reply that does not report success is never a value:
/// it is the error that `rest_error` makes of it, whatever its body read
/// as. A reply that reports success is the value read from its body. A
/// body that could not be read is an error, unless it is empty and nothing
/// but the unit value is asked for: `unit` is then that value.
pub fn rest_result<R>(
    head: ResponseHead,
    body: Vec<u8>,
    parsed: Result<R, serde_json::Error>,
    unit: Option<R>,
) -> (result: Result<R, ClientError>)
    ensures
        is_success(head.status) ==> match parsed {
            Ok(value) => result matches Ok(got) && got == value,
            Err(source) => match unit {
                Some(value) if body@.len() == 0 => result matches Ok(got) && got == value,
                _ => result matches Err(
                    ClientError::InvalidBody { head: its_head, body: its_body, source: its_source },
                ) && its_head == head && its_body == body && its_source == source,
            },
        },
        !is_success(head.status) ==> match result {
            Ok(_) => false,
            Err(error) => is_failure_of(error, head, body),
        },
{
    match reply_kind(head.status, body.len() == 0) {
        ReplyKind::Success => {},
        _ => {
            return Err(rest_error(head, body));
        },
    }
    match parsed {
        Ok(value) => Ok(value),
        Err(source) => {
            if body.len() == 0 {
                match unit {
                    Some(value) => {
                        return Ok(value);
                    },
                    None => {},
                }
            }
            Err(ClientError::InvalidBody { head, body, source })
        },
    }
}

/// What a reply that is to hold a list comes to, given what became of
/// reading its body as a list and as one value. A reply that does not
/// report success is never a list: it is the error that `rest_error` makes
/// of it. In a reply that reports success a body that holds one value
/// stands for the list of that value.
pub fn rest_vec_result<R>(
    head: ResponseHead,
    body: Vec<u8>,
    parsed: Result<Vec<R>, serde_json::Error>,
    parsed_one: Result<R, serde_json::Error>,
) -> (result: Result<Vec<R>, ClientError>)
    ensures
        is_success(head.status) ==> match parsed {
            Ok(values) => result matches Ok(got) && got == values,
            Err(_) => match parsed_one {
                Ok(value) => result matches Ok(got) && got@ == seq![value],
                Err(source) => result matches Err(
                    ClientError::InvalidBody { head: its_head, body: its_body, source: its_source },
                ) && its_head == head && its_body == body && its_source == source,
            },
        },
        !is_success(head.status) ==> match result {
            Ok(_) => false,
            Err(error) => is_failure_of(error, head, body),
        },
{
    match reply_kind(head.status, body.len() == 0) {
        ReplyKind::Success => {},
        _ => {
            return Err(rest_error(head, body));
        },
    }
    match parsed {
        Ok(values) => Ok(values),
        Err(_) => match parsed_one {
            Ok(value) => {
                let mut values: Vec<R> = Vec::new();
                values.push(value);
                assert(values@ =~= seq![value]);
                Ok(values)
            },
            Err(source) => Err(ClientError::InvalidBody { head, body, source }),
        },
    }
}

/// Any JSON value, such as `{ "size": 1024 }`.
#[derive(Debug)]
pub struct JsonGeneric {
    inner: serde_json::Value,
}

impl JsonGeneric {
    /// The value inside.
    pub closed spec fn value(self) -> serde_json::Value {
        self.inner
    }

    /// Wraps a JSON value.
    pub fn from(value: serde_json::Value) -> (generic: Self)
        ensures
            generic.value() == value,
    {
        Self { inner: value }
    }

    /// Unwraps the JSON value.
    pub fn into_inner(self) -> (value: serde_json::Value)
        ensures
            value == self.value(),
    {
        self.inner
    }
}

/// The reply that has no body.
#[derive(Debug, Default, Clone, Copy, PartialEq, Eq, Structural)]
pub struct JsonUnit;

impl JsonUnit {
    /// The HTTP status with which the reply without a body is sent: no
    /// content.
    pub fn status_code(&self) -> (status: u16)
        ensures
            status == 204,
    {
        204
    }
}

impl From<()> for JsonUnit {
    fn from(_unit: ()) -> (unit: Self) {
        JsonUnit {  }
    }
}

impl FromSpecImpl<()> for JsonUnit {
    open spec fn obeys_from_spec() -> bool {
        true
    }

    open spec fn from_spec(_unit: ()) -> Self {
        JsonUnit {  }
    }
}

} // verus!
