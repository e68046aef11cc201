//! What the plugin asks of the REST interface and how it reads the replies.
//! Sending and receiving is the caller's part.

use vstd::prelude::*;
use vstd::string::StringExecFns;
use crate::message_bus::{protocol_name, protocol_of, VolumeHealPolicy, VolumeShareProtocol};
use crate::models::{CreateVolumeBody, ExplicitTopology, Topology};
use crate::text::{
    clone_names, decimal, decimal_text, join, join_strings, joined, same_text, texts,
};
use crate::trusted::{debug_text, status_line, status_text, str_debug};

verus! {

/// Why a request to the REST interface came to nothing.
#[derive(Debug, PartialEq, Eq)]
pub enum ApiClientError {
    /// Error while communicating with the server.
    ServerCommunicationError(String),
    /// The requested resource exists already. A variant of its own, so
    /// that callers can treat a repeated creation as done.
    ResourceAlreadyExists(String),
    /// No such resource exists.
    ResourceNotExists(String),
    /// The operation failed for another reason.
    GenericOperationError(String),
    /// The reply's body could not be read.
    InvalidResponseError(String),
}

/// An error of the client with its message as text.
pub enum ApiClientErrorView {
    ServerCommunicationError(Seq<char>),
    ResourceAlreadyExists(Seq<char>),
    ResourceNotExists(Seq<char>),
    GenericOperationError(Seq<char>),
    InvalidResponseError(Seq<char>),
}

impl View for ApiClientError {
    type V = ApiClientErrorView;

    open spec fn view(&self) -> ApiClientErrorView {
        match self {
            ApiClientError::ServerCommunicationError(m) => ApiClientErrorView::ServerCommunicationError(m@),
            ApiClientError::ResourceAlreadyExists(m) => ApiClientErrorView::ResourceAlreadyExists(
                m@,
            ),
            ApiClientError::ResourceNotExists(m) => ApiClientErrorView::ResourceNotExists(m@),
            ApiClientError::GenericOperationError(m) => ApiClientErrorView::GenericOperationError(
                m@,
            ),
            ApiClientError::InvalidResponseError(m) => ApiClientErrorView::InvalidResponseError(m@),
        }
    }
}

/// The name of an error of the REST client, for messages.
pub open spec fn error_name(error: ApiClientErrorView) -> Seq<char> {
    match error {
        ApiClientErrorView::ServerCommunicationError(_) => "ServerCommunicationError"@,
        ApiClientErrorView::ResourceAlreadyExists(_) => "ResourceAlreadyExists"@,
        ApiClientErrorView::ResourceNotExists(_) => "ResourceNotExists"@,
        ApiClientErrorView::GenericOperationError(_) => "GenericOperationError"@,
        ApiClientErrorView::InvalidResponseError(_) => "InvalidResponseError"@,
    }
}

/// The message of an error of the REST client.
pub open spec fn error_message(error: ApiClientErrorView) -> Seq<char> {
    match error {
        ApiClientErrorView::ServerCommunicationError(m) => m,
        ApiClientErrorView::ResourceAlreadyExists(m) => m,
        ApiClientErrorView::ResourceNotExists(m) => m,
        ApiClientErrorView::GenericOperationError(m) => m,
        ApiClientErrorView::InvalidResponseError(m) => m,
    }
}

/// How an error shows for debugging: its name, and between brackets its
/// message as strings show for debugging.
pub open spec fn error_debug(error: ApiClientErrorView) -> Seq<char> {
    error_name(error) + "("@ + str_debug(error_message(error)) + ")"@
}

impl ApiClientError {
    /// How this error shows for debugging.
    pub fn debug(&self) -> (shown: String)
        ensures
            shown@ == error_debug(self@),
    {
        let (name, detail) = match self {
            ApiClientError::ServerCommunicationError(m) => ("ServerCommunicationError", m),
            ApiClientError::ResourceAlreadyExists(m) => ("ResourceAlreadyExists", m),
            ApiClientError::ResourceNotExists(m) => ("ResourceNotExists", m),
            ApiClientError::GenericOperationError(m) => ("GenericOperationError", m),
            ApiClientError::InvalidResponseError(m) => ("InvalidResponseError", m),
        };
        let mut shown = String::from_str(name);
        shown.append("(");
        let quoted = debug_text(detail.as_str());
        shown.append(quoted.as_str());
        shown.append(")");
        shown
    }
}

/// How the HTTP status `status` shows in messages: by its number and
/// reason phrase, or by the number alone where it is no status code.
pub open spec fn status_shown(status: u16) -> Seq<char> {
    match status_line(status) {
        Some(line) => line,
        None => decimal(status as nat),
    }
}

/// Writes the HTTP status `status` out for a message.
pub fn show_status(status: u16) -> (shown: String)
    ensures
        shown@ == status_shown(status),
{
    match status_text(status) {
        Some(line) => line,
        None => decimal_text(status as u64),
    }
}

/// The segments of a path as strings show for debugging.
pub open spec fn debug_texts(parts: Seq<&str>) -> Seq<Seq<char>> {
    Seq::new(parts.len(), |i: int| str_debug(parts[i]@))
}

/// How a path shows for debugging: its segments, each as strings show
/// for debugging, in the brackets of the list and of the type.
pub open spec fn urn_debug(parts: Seq<&str>) -> Seq<char> {
    "UrnType(["@ + joined(debug_texts(parts), ", "@) + "])"@
}

/// The outcome of a request with its error, if any, as text.
pub open spec fn outcome_view(outcome: Result<(), ApiClientError>) -> Result<
    (),
    ApiClientErrorView,
> {
    match outcome {
        Ok(_) => Ok(()),
        Err(error) => Err(error@),
    }
}

/// The HTTP status codes that the client tells apart.
pub const HTTP_OK: u16 = 200;

pub const HTTP_NO_CONTENT: u16 = 204;

pub const HTTP_NOT_FOUND: u16 = 404;

pub const HTTP_PRECONDITION_FAILED: u16 = 412;

pub const HTTP_UNPROCESSABLE_ENTITY: u16 = 422;

/// The path of a resource below the interface's root, segment by segment:
/// a collection, then the resource's own name, then what lies below it.
#[derive(Debug)]
pub struct UrnType<'a>(pub &'a [&'a str]);

/// The singular of the collection `collection`, for messages.
pub open spec fn resource_type(collection: Seq<char>) -> Seq<char> {
    if collection == "volumes"@ {
        "volume"@
    } else if collection == "pools"@ {
        "pool"@
    } else {
        "node"@
    }
}

/// Whether `collection` is one of the interface's collections.
pub open spec fn known_collection(collection: Seq<char>) -> bool {
    collection == "volumes"@ || collection == "pools"@ || collection == "nodes"@
}

/// Whether `parts` names a resource: a known collection and a name.
pub open spec fn names_resource(parts: Seq<&str>) -> bool {
    parts.len() >= 2 && known_collection(parts[0]@)
}

/// The message for a resource that is not there.
pub open spec fn not_found_message(parts: Seq<&str>) -> Seq<char> {
    resource_type(parts[0]@) + " "@ + parts[1]@ + " not found"@
}

impl<'a> UrnType<'a> {
    /// The kind of resource this path names, and the resource's name. The
    /// path must name a resource: at least two segments, the first a known
    /// collection.
    pub fn classify(&self) -> (named: (String, String))
        requires
            names_resource(self.0@),
        ensures
            named.0@ == resource_type(self.0@[0]@),
            named.1@ == self.0@[1]@,
    {
        let collection = self.0[0];
        let rtype = if same_text(collection, "volumes") {
            "volume"
        } else if same_text(collection, "pools") {
            "pool"
        } else {
            "node"
        };
        (rtype.to_owned(), self.0[1].to_owned())
    }

    /// Whether this path names a resource, so that `classify` can be
    /// called on it.
    pub fn is_classifiable(&self) -> (named: bool)
        ensures
            named == names_resource(self.0@),
    {
        self.0.len() >= 2 && (same_text(self.0[0], "volumes") || same_text(self.0[0], "pools")
            || same_text(self.0[0], "nodes"))
    }

    /// The path written out: its segments with slashes between them.
    pub fn path(&self) -> (text: String)
        ensures
            text@ == joined(texts(self.0@), "/"@),
    {
        join(self.0, "/")
    }

    /// How the path shows for debugging.
    pub fn debug(&self) -> (shown: String)
        ensures
            shown@ == urn_debug(self.0@),
    {
        let mut quoted: Vec<String> = Vec::new();
        let mut i: usize = 0;
        while i < self.0.len()
            invariant
                i <= self.0.len(),
                quoted.len() == i,
                forall|j: int| 0 <= j < i ==> (#[trigger] quoted[j])@ == str_debug(self.0@[j]@),
            decreases self.0.len() - i,
        {
            quoted.push(debug_text(self.0[i]));
            i += 1;
        }
        assert(quoted.deep_view() =~= debug_texts(self.0@));
        let mut shown = String::from_str("UrnType([");
        let list = join_strings(&quoted, ", ");
        shown.append(list.as_str());
        shown.append("])");
        shown
    }

    /// The message for the resource of this path not being there.
    fn not_found(&self) -> (message: String)
        requires
            names_resource(self.0@),
        ensures
            message@ == not_found_message(self.0@),
    {
        let (rtype, rname) = self.classify();
        let mut message = rtype;
        message.append(" ");
        message.append(rname.as_str());
        message.append(" not found");
        message
    }
}

/// The root of the interface at `endpoint`.
pub fn base_url(endpoint: &str) -> (url: String)
    ensures
        url@ == endpoint@ + "/v0"@,
{
    let mut url = String::from_str(endpoint);
    url.append("/v0");
    url
}

/// The address of the resource `urn` below the root `base`.
pub fn request_url(base: &str, urn: &UrnType<'_>) -> (url: String)
    ensures
        url@ == base@ + "/"@ + joined(texts(urn.0@), "/"@),
{
    let mut url = String::from_str(base);
    url.append("/");
    let path = urn.path();
    url.append(path.as_str());
    url
}

/// What a reply with `status` to a GET of one resource means: 200 is a
/// reply to read, 404 says that the resource is not there, anything else
/// is a failure. The path must name a resource where the status is 404.
pub open spec fn get_outcome(status: u16, parts: Seq<&str>) -> Result<(), ApiClientErrorView> {
    if status == HTTP_OK {
        Ok(())
    } else if status == HTTP_NOT_FOUND {
        Err(ApiClientErrorView::ResourceNotExists(not_found_message(parts)))
    } else {
        Err(
            ApiClientErrorView::GenericOperationError(
                "Failed to GET "@ + urn_debug(parts) + ", HTTP error = "@ + status_shown(status),
            ),
        )
    }
}

/// Reads the status of a reply to a GET of the resource `urn`.
pub fn check_get(status: u16, urn: &UrnType<'_>) -> (outcome: Result<(), ApiClientError>)
    requires
        status == HTTP_NOT_FOUND ==> names_resource(urn.0@),
    ensures
        outcome_view(outcome) == get_outcome(status, urn.0@),
{
    if status == HTTP_OK {
        Ok(())
    } else if status == HTTP_NOT_FOUND {
        Err(ApiClientError::ResourceNotExists(urn.not_found()))
    } else {
        let mut message = String::from_str("Failed to GET ");
        let path = urn.debug();
        message.append(path.as_str());
        message.append(", HTTP error = ");
        let code = show_status(status);
        message.append(code.as_str());
        Err(ApiClientError::GenericOperationError(message))
    }
}

/// Whether `status` says that what was to be deleted is not there.
pub open spec fn says_gone(status: u16) -> bool {
    status == HTTP_NOT_FOUND || status == HTTP_NO_CONTENT || status == HTTP_PRECONDITION_FAILED
}

/// What a reply with `status` to a DELETE means: 200 is success; a status
/// that says the resource is gone is success for a caller that asked for an
/// idempotent deletion, and `ResourceNotExists` for any other; anything
/// else is a failure.
pub open spec fn delete_outcome(
    status: u16,
    idempotent: bool,
    parts: Seq<&str>,
    url: Seq<char>,
) -> Result<(), ApiClientErrorView> {
    if status == HTTP_OK {
        Ok(())
    } else if says_gone(status) {
        if idempotent {
            Ok(())
        } else {
            Err(ApiClientErrorView::ResourceNotExists(not_found_message(parts)))
        }
    } else {
        Err(
            ApiClientErrorView::GenericOperationError(
                "DELETE "@ + url + " failed, HTTP status code = "@ + status_shown(status),
            ),
        )
    }
}

/// Reads the status of a reply to a DELETE of the resource `urn` at `url`.
/// The path must name a resource where the status says that it is gone and
/// the deletion is not idempotent.
pub fn check_delete(status: u16, idempotent: bool, urn: &UrnType<'_>, url: &str) -> (outcome:
    Result<(), ApiClientError>)
    requires
        says_gone(status) && !idempotent ==> names_resource(urn.0@),
    ensures
        outcome_view(outcome) == delete_outcome(status, idempotent, urn.0@, url@),
{
    if status == HTTP_OK {
        Ok(())
    } else if status == HTTP_NOT_FOUND || status == HTTP_NO_CONTENT || status
        == HTTP_PRECONDITION_FAILED {
        if idempotent {
            Ok(())
        } else {
            Err(ApiClientError::ResourceNotExists(urn.not_found()))
        }
    } else {
        let mut message = String::from_str("DELETE ");
        message.append(url);
        message.append(" failed, HTTP status code = ");
        let code = show_status(status);
        message.append(code.as_str());
        Err(ApiClientError::GenericOperationError(message))
    }
}

/// What a reply with `status` to a PUT means: 200 is a reply to read, 422
/// says that the resource exists already, anything else is a failure.
pub open spec fn put_outcome(status: u16, url: Seq<char>) -> Result<(), ApiClientErrorView> {
    if status == HTTP_OK {
        Ok(())
    } else if status == HTTP_UNPROCESSABLE_ENTITY {
        Err(ApiClientErrorView::ResourceAlreadyExists("Resource "@ + url + " already exists"@))
    } else {
        Err(
            ApiClientErrorView::GenericOperationError(
                "PUT "@ + url + " failed, HTTP status = "@ + status_shown(status),
            ),
        )
    }
}

/// Reads the status of a reply to a PUT at `url`.
pub fn check_put(status: u16, url: &str) -> (outcome: Result<(), ApiClientError>)
    ensures
        outcome_view(outcome) == put_outcome(status, url@),
{
    if status == HTTP_OK {
        Ok(())
    } else if status == HTTP_UNPROCESSABLE_ENTITY {
        let mut message = String::from_str("Resource ");
        message.append(url);
        message.append(" already exists");
        Err(ApiClientError::ResourceAlreadyExists(message))
    } else {
        let mut message = String::from_str("PUT ");
        message.append(url);
        message.append(" failed, HTTP status = ");
        let code = show_status(status);
        message.append(code.as_str());
        Err(ApiClientError::GenericOperationError(message))
    }
}

/// The body of the request that creates a volume of `size` bytes with
/// `replicas` replicas, placed by the named nodes, with the default healing
/// policy.
pub fn create_volume_body(
    replicas: u8,
    size: u64,
    allowed_nodes: &[String],
    preferred_nodes: &[String],
) -> (body: CreateVolumeBody)
    ensures
        body.replicas == replicas,
        body.size == size,
        body.policy == (VolumeHealPolicy { self_heal: false }),
        body.topology.explicit matches Some(explicit) && explicit.allowed_nodes.deep_view()
            == allowed_nodes.deep_view() && explicit.preferred_nodes.deep_view()
            == preferred_nodes.deep_view(),
{
    let allowed = clone_names(allowed_nodes);
    let preferred = clone_names(preferred_nodes);
    let topology = Topology {
        explicit: Some(ExplicitTopology { allowed_nodes: allowed, preferred_nodes: preferred }),
    };
    CreateVolumeBody { replicas, size, topology, policy: VolumeHealPolicy { self_heal: false } }
}

/// The last segment of the path that publishes a volume on `node` over
/// `protocol`.
pub fn publish_target(protocol: VolumeShareProtocol, node: &str) -> (segment: String)
    ensures
        segment@ == "target?protocol="@ + protocol_name(protocol_of(protocol)) + "&node="@ + node@,
{
    let mut segment = String::from_str("target?protocol=");
    segment.append(protocol.as_str());
    segment.append("&node=");
    segment.append(node);
    segment
}

/// The error of a GET of one resource that could not be sent.
pub fn get_failed(urn: &UrnType<'_>, cause: &str) -> (error: ApiClientError)
    ensures
        error@ == ApiClientErrorView::ServerCommunicationError(
            "Failed to get "@
                + urn_debug(urn.0@)
                + ", error = "@
                + cause@,
        ),
{
    let mut message = String::from_str("Failed to get ");
    let part1 = urn.debug();
    message.append(part1.as_str());
    message.append(", error = ");
    message.append(cause);
    ApiClientError::ServerCommunicationError(message)
}

/// The error of a reply to a GET of one resource whose body could not be received.
pub fn get_body_failed(urn: &UrnType<'_>, cause: &str) -> (error: ApiClientError)
    ensures
        error@ == ApiClientErrorView::InvalidResponseError(
            "Failed to obtain body from HTTP response while getting "@
                + joined(texts(urn.0@), "/"@)
                + ", error = "@
                + cause@,
        ),
{
    let mut message = String::from_str("Failed to obtain body from HTTP response while getting ");
    let part1 = urn.path();
    message.append(part1.as_str());
    message.append(", error = ");
    message.append(cause);
    ApiClientError::InvalidResponseError(message)
}

/// The error of a GET of a collection that could not be sent.
pub fn list_failed(urn: &UrnType<'_>, cause: &str) -> (error: ApiClientError)
    ensures
        error@ == ApiClientErrorView::ServerCommunicationError(
            "Failed to GET "@
                + urn_debug(urn.0@)
                + ", error = "@
                + cause@,
        ),
{
    let mut message = String::from_str("Failed to GET ");
    let part1 = urn.debug();
    message.append(part1.as_str());
    message.append(", error = ");
    message.append(cause);
    ApiClientError::ServerCommunicationError(message)
}

/// The error of a reply to a GET of a collection whose body could not be received.
pub fn list_body_failed(urn: &UrnType<'_>, cause: &str) -> (error: ApiClientError)
    ensures
        error@ == ApiClientErrorView::InvalidResponseError(
            "Failed to obtain body from HTTP response while listing "@
                + urn_debug(urn.0@)
                + ", error = "@
                + cause@,
        ),
{
    let mut message = String::from_str("Failed to obtain body from HTTP response while listing ");
    let part1 = urn.debug();
    message.append(part1.as_str());
    message.append(", error = ");
    message.append(cause);
    ApiClientError::InvalidResponseError(message)
}

/// The error of a DELETE that could not be sent.
pub fn delete_failed(url: &str, cause: &str) -> (error: ApiClientError)
    ensures
        error@ == ApiClientErrorView::ServerCommunicationError("DELETE "@ + url@ + " request failed, error="@ + cause@),
{
    let mut message = String::from_str("DELETE ");
    message.append(url);
    message.append(" request failed, error=");
    message.append(cause);
    ApiClientError::ServerCommunicationError(message)
}

/// The error of a PUT that could not be sent.
pub fn put_failed(url: &str, cause: &str) -> (error: ApiClientError)
    ensures
        error@ == ApiClientErrorView::ServerCommunicationError("PUT "@ + url@ + " request failed, error="@ + cause@),
{
    let mut message = String::from_str("PUT ");
    message.append(url);
    message.append(" request failed, error=");
    message.append(cause);
    ApiClientError::ServerCommunicationError(message)
}

/// The error of a reply to a PUT whose body could not be received.
pub fn put_body_failed(url: &str, cause: &str) -> (error: ApiClientError)
    ensures
        error@ == ApiClientErrorView::InvalidResponseError(
            "Failed to obtain body from HTTP PUT "@
                + url@
                + " response, error = "@
                + cause@,
        ),
{
    let mut message = String::from_str("Failed to obtain body from HTTP PUT ");
    message.append(url);
    message.append(" response, error = ");
    message.append(cause);
    ApiClientError::InvalidResponseError(message)
}

/// The error of a body that does not hold the one object expected of the type named.
pub fn object_unreadable(kind: &str, cause: &str) -> (error: ApiClientError)
    ensures
        error@ == ApiClientErrorView::InvalidResponseError(
            "Failed to deserialize object "@
                + kind@
                + ", error = "@
                + cause@,
        ),
{
    let mut message = String::from_str("Failed to deserialize object ");
    message.append(kind);
    message.append(", error = ");
    message.append(cause);
    ApiClientError::InvalidResponseError(message)
}

/// The error of a body that does not hold the list of objects expected of the type named.
pub fn objects_unreadable(kind: &str, cause: &str) -> (error: ApiClientError)
    ensures
        error@ == ApiClientErrorView::InvalidResponseError(
            "Failed to deserialize objects "@
                + kind@
                + ", error = "@
                + cause@,
        ),
{
    let mut message = String::from_str("Failed to deserialize objects ");
    message.append(kind);
    message.append(", error = ");
    message.append(cause);
    ApiClientError::InvalidResponseError(message)
}

} // verus!
