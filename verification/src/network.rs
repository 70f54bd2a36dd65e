//! Network abstractions: a pub/sub client capability and the plain
//! request/response values the HTTP layer hands the engine.

use vstd::prelude::*;
use vstd::string::{StrSliceExecFns, StringSliceAdditionalSpecFns};
use vstd::utf8::valid_utf8;

verus! {

/// An incoming pub/sub message: topic and raw payload.
#[derive(Clone, Debug)]
pub struct MqttMessage {
    /// Topic the message was published to.
    pub topic: String,
    /// Message payload as raw bytes.
    pub payload: Vec<u8>,
}

impl MqttMessage {
    /// A message with the given topic and payload.
    pub fn new(topic: &str, payload: &[u8]) -> (r: Self)
        ensures
            r.topic@ == topic@,
            r.payload@ == payload@,
    {
        Self { topic: topic.to_owned(), payload: bytes_to_vec(payload) }
    }

    /// The payload as text, where it is valid UTF-8.
    pub fn payload_str(&self) -> (r: Option<&str>)
        ensures
            r matches Some(s) ==> s.spec_bytes() == self.payload@ && valid_utf8(self.payload@),
            r is None ==> !valid_utf8(self.payload@),
    {
        bytes_as_str(self.payload.as_slice())
    }
}

/// Relies on `core::str::from_utf8`: a view of exactly these bytes,
/// present if and only if they are valid UTF-8.
#[verifier::external_body]
fn bytes_as_str(bytes: &[u8]) -> (r: Option<&str>)
    ensures
        r matches Some(s) ==> s.spec_bytes() == bytes@ && valid_utf8(bytes@),
        r is None ==> !valid_utf8(bytes@),
{
    core::str::from_utf8(bytes).ok()
}

/// Relies on `<[u8]>::to_vec`: a vector holding exactly these bytes.
#[verifier::external_body]
pub(crate) fn bytes_to_vec(bytes: &[u8]) -> (r: Vec<u8>)
    ensures
        r@ == bytes@,
{
    bytes.to_vec()
}

/// Pub/sub client capability: publish, subscribe, and poll for
/// messages, all without blocking the tick.
pub trait MqttClient {
    /// Error type for client operations.
    type Error;

    /// Publish a message to a topic.
    fn publish(&mut self, topic: &str, payload: &[u8], retain: bool) -> Result<(), Self::Error>;

    /// Subscribe to a topic (wildcards allowed).
    fn subscribe(&mut self, topic: &str) -> Result<(), Self::Error>;

    /// The next pending message, without blocking.
    fn try_recv(&mut self) -> Option<MqttMessage>;

    /// Whether the client is connected to its broker.
    fn is_connected(&self) -> bool;
}

/// HTTP request methods used by the REST surface.
#[derive(Clone, Copy, Debug, PartialEq, Eq, Structural)]
pub enum HttpMethod {
    /// Retrieve state.
    Get,
    /// Apply an action.
    Post,
    /// Update a resource.
    Put,
    /// Remove a resource.
    Delete,
}

/// An HTTP request, reduced to the values the engine needs.
#[derive(Debug)]
pub struct HttpRequest {
    /// The request method.
    pub method: HttpMethod,
    /// The request path.
    pub path: String,
    /// The request body, if present.
    pub body: Option<Vec<u8>>,
}

impl HttpRequest {
    /// The body as text, where one is present and valid UTF-8.
    pub fn body_str(&self) -> (r: Option<&str>)
        ensures
            r matches Some(s) ==> self.body matches Some(b) && s.spec_bytes() == b@,
            self.body is None ==> r is None,
    {
        match &self.body {
            Some(b) => bytes_as_str(b.as_slice()),
            None => None,
        }
    }
}

/// An HTTP response to hand back to the transport.
#[derive(Debug)]
pub struct HttpResponse {
    /// HTTP status code.
    pub status: u16,
    /// Content-Type header value.
    pub content_type: &'static str,
    /// Response body bytes.
    pub body: Vec<u8>,
}

impl HttpResponse {
    /// A 200 response carrying JSON.
    pub fn ok_json(body: &str) -> (r: Self)
        ensures
            r.status == 200,
            r.content_type@ == "application/json"@,
            r.body@ == body.spec_bytes(),
    {
        Self { status: 200, content_type: "application/json", body: body.as_bytes_vec() }
    }

    /// A 200 response carrying HTML.
    pub fn ok_html(body: &str) -> (r: Self)
        ensures
            r.status == 200,
            r.content_type@ == "text/html"@,
            r.body@ == body.spec_bytes(),
    {
        Self { status: 200, content_type: "text/html", body: body.as_bytes_vec() }
    }

    /// An error response with the given status, as a small JSON
    /// object.
    pub fn error(status: u16, message: &str) -> (r: Self)
        ensures
            r.status == status,
            r.content_type@ == "application/json"@,
            r.body@ == "{\"error\":\"".spec_bytes() + message.spec_bytes() + "\"}".spec_bytes(),
    {
        let mut body = "{\"error\":\"".as_bytes_vec();
        let mid = message.as_bytes();
        body.extend_from_slice(mid);
        let tail = "\"}".as_bytes();
        body.extend_from_slice(tail);
        Self { status, content_type: "application/json", body }
    }

    /// The standard 404 response.
    pub fn not_found() -> (r: Self)
        ensures
            r.status == 404,
            r.content_type@ == "application/json"@,
            r.body@ == "{\"error\":\"".spec_bytes() + "not found".spec_bytes()
                + "\"}".spec_bytes(),
    {
        Self::error(404, "not found")
    }

    /// A 400 response with the given message.
    pub fn bad_request(message: &str) -> (r: Self)
        ensures
            r.status == 400,
            r.content_type@ == "application/json"@,
            r.body@ == "{\"error\":\"".spec_bytes() + message.spec_bytes() + "\"}".spec_bytes(),
    {
        Self::error(400, message)
    }
}

} // verus!
