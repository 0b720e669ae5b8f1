//! Signing in to the target service: the request to send and the judgement of
//! what came back.

use vstd::prelude::*;
use vstd::utf8::encode_utf8;
use crate::config::{ConnectionConfig, ConnectionConfigView};
use crate::http::{
    is_success, status_is_success, HttpReply, HttpReplyView, GetRequest, GetRequestView,
};
use crate::json::{json_string_at, read_string_at};
use crate::text::text_view;

verus! {

/// The standard base64 text, with padding, of `bytes`: what `base64::encode`
/// returns for them.
pub uninterp spec fn base64_standard(bytes: Seq<u8>) -> Seq<char>;

/// The base64 text of `bytes` has a length that a `usize` can hold.
pub open spec fn base64_fits(bytes: Seq<u8>) -> bool {
    bytes.len() / 3 * 4 + 4 <= usize::MAX
}

/// Calls `base64::encode`. Trusted: the result is what [`base64_standard`]
/// names. Longer inputs, for which `encode` panics, are left out.
#[verifier::external_body]
fn encode_base64(bytes: &[u8]) -> (text: String)
    requires
        base64_fits(bytes@),
    ensures
        text@ == base64_standard(bytes@),
{
    base64::encode(bytes)
}

/// What came of the attempt to sign in.
#[derive(Clone, Debug, PartialEq, Eq)]
pub enum ConnectionOutcome {
    /// The service accepted the credentials. It may have reported its version.
    Authenticated(Option<String>),
    /// The service answered, but not with a success status.
    AuthenticationFailed,
    /// No answer arrived.
    NetworkFailed(String),
}

/// The mathematical value of a [`ConnectionOutcome`].
pub ghost enum ConnectionOutcomeView {
    Authenticated(Option<Seq<char>>),
    AuthenticationFailed,
    NetworkFailed(Seq<char>),
}

impl View for ConnectionOutcome {
    type V = ConnectionOutcomeView;

    open spec fn view(&self) -> ConnectionOutcomeView {
        match self {
            ConnectionOutcome::Authenticated(Some(version)) => ConnectionOutcomeView::Authenticated(
                Some(version@),
            ),
            ConnectionOutcome::Authenticated(None) => ConnectionOutcomeView::Authenticated(None),
            ConnectionOutcome::AuthenticationFailed => ConnectionOutcomeView::AuthenticationFailed,
            ConnectionOutcome::NetworkFailed(cause) => ConnectionOutcomeView::NetworkFailed(cause@),
        }
    }
}

/// User name, colon, password.
pub open spec fn credentials(username: Seq<char>, password: Seq<char>) -> Seq<char> {
    username + ":"@ + password
}

/// The value of the `Authorization` header for credentials in base64.
pub open spec fn basic_value(encoded: Seq<char>) -> Seq<char> {
    "Basic "@ + encoded
}

/// The value of the `Authorization` header that signs in with a user name and a
/// password.
pub open spec fn basic_authorization(username: Seq<char>, password: Seq<char>) -> Seq<char> {
    basic_value(base64_standard(encode_utf8(credentials(username, password))))
}

/// The address of the service's status page.
pub open spec fn status_url_of(config: ConnectionConfigView) -> Seq<char> {
    config.scheme + "://"@ + config.host + ":"@ + config.port + "/control/status"@
}

/// The request that signs in and asks the service for its status.
pub open spec fn status_request_of(config: ConnectionConfigView) -> GetRequestView {
    GetRequestView {
        url: status_url_of(config),
        header_name: "Authorization"@,
        header_value: basic_authorization(config.username, config.password),
        timeout_seconds: Some(2u64),
    }
}

/// The outcome for a response with the given status, in whose body the given
/// version was found.
pub open spec fn outcome_of_response(
    status: u16,
    reported: Option<Seq<char>>,
) -> ConnectionOutcomeView {
    if is_success(status) {
        ConnectionOutcomeView::Authenticated(reported)
    } else {
        ConnectionOutcomeView::AuthenticationFailed
    }
}

/// The version that a status body reports: the text of its member `version`.
pub open spec fn version_in_body(body: Seq<char>) -> Option<Seq<char>> {
    json_string_at(body, "/version"@)
}

/// The outcome that a reply stands for.
pub open spec fn outcome_of(reply: HttpReplyView) -> ConnectionOutcomeView {
    match reply {
        HttpReplyView::Failed { cause } => ConnectionOutcomeView::NetworkFailed(cause),
        HttpReplyView::Received { status, body } => outcome_of_response(
            status,
            version_in_body(body),
        ),
    }
}

impl ConnectionConfig {
    /// The credentials are short enough to be written in base64.
    pub open spec fn wf(&self) -> bool {
        base64_fits(encode_utf8(credentials(self.username@, self.password@)))
    }

    /// Tells whether the credentials are short enough to be written in base64.
    /// Credentials that fit in memory are.
    pub fn credentials_fit(&self) -> (fit: bool)
        ensures
            fit == self.wf(),
    {
        let text = join_credentials(self.username.as_str(), self.password.as_str());
        let length: usize = text.as_str().as_bytes().len();
        assert(length == encode_utf8(credentials(self.username@, self.password@)).len());
        let chunks: usize = length / 3;
        let most: usize = (usize::MAX - 4) / 4;
        assert(chunks <= most <==> chunks * 4 + 4 <= usize::MAX);
        chunks <= most
    }
}

/// Joins a user name and a password with a colon.
pub fn join_credentials(username: &str, password: &str) -> (text: String)
    ensures
        text@ == credentials(username@, password@),
{
    let mut text = String::from_str(username);
    text.append(":");
    text.append(password);
    text
}

/// The `Authorization` value for credentials that are already in base64.
pub fn basic_header_value(encoded: &str) -> (value: String)
    ensures
        value@ == basic_value(encoded@),
{
    let mut value = String::from_str("Basic ");
    value.append(encoded);
    value
}

/// The `Authorization` value that signs in with a user name and a password.
/// Base64 only encodes: whoever sees the request can read the credentials.
pub fn authorization_header(username: &str, password: &str) -> (value: String)
    requires
        base64_fits(encode_utf8(credentials(username@, password@))),
    ensures
        value@ == basic_authorization(username@, password@),
{
    let text = join_credentials(username, password);
    let encoded = encode_base64(text.as_str().as_bytes());
    basic_header_value(encoded.as_str())
}

/// The address of the service's status page.
pub fn status_url(config: &ConnectionConfig) -> (url: String)
    ensures
        url@ == status_url_of(config@),
{
    let mut url = config.scheme.clone();
    url.append("://");
    url.append(config.host.as_str());
    url.append(":");
    url.append(config.port.as_str());
    url.append("/control/status");
    url
}

/// The one request that verifies the connection: a `GET` of the status page
/// with the credentials, given up after two seconds.
pub fn status_request(config: &ConnectionConfig) -> (request: GetRequest)
    requires
        config.wf(),
    ensures
        request@ == status_request_of(config@),
        request.timeout_seconds == Some(2u64),
{
    GetRequest {
        url: status_url(config),
        header_name: String::from_str("Authorization"),
        header_value: authorization_header(config.username.as_str(), config.password.as_str()),
        timeout_seconds: Some(2),
    }
}

/// Reads the reported version out of a status body. A body that is no JSON,
/// or has no text under `version`, reports none.
pub fn reported_version(body: &str) -> (version: Option<String>)
    ensures
        text_view(version) == version_in_body(body@),
{
    read_string_at(body, "/version")
}

/// Judges a response by its status alone: any status outside 200 to 299 is a
/// failure to authenticate, whatever the body held.
pub fn classify_response(status: u16, reported: Option<String>) -> (outcome: ConnectionOutcome)
    ensures
        outcome@ == outcome_of_response(status, text_view(reported)),
        !is_success(status) ==> outcome@ == ConnectionOutcomeView::AuthenticationFailed,
{
    if status_is_success(status) {
        ConnectionOutcome::Authenticated(reported)
    } else {
        ConnectionOutcome::AuthenticationFailed
    }
}

/// Judges the reply to the status request. No answer, whatever the cause, is
/// a network failure; an answer is judged by its status, and only a success
/// is searched for the reported version.
pub fn classify_reply(reply: HttpReply) -> (outcome: ConnectionOutcome)
    ensures
        outcome@ == outcome_of(reply@),
        reply@ is Failed ==> outcome@ == ConnectionOutcomeView::NetworkFailed(reply@->cause),
        reply@ is Received && !is_success(reply@->status) ==> outcome@
            == ConnectionOutcomeView::AuthenticationFailed,
{
    match reply {
        HttpReply::Failed { cause } => ConnectionOutcome::NetworkFailed(cause),
        HttpReply::Received { status, body } => {
            if status_is_success(status) {
                let reported = reported_version(body.as_str());
                classify_response(status, reported)
            } else {
                classify_response(status, None)
            }
        },
    }
}

/// Bytes that fit in memory, which holds at most `isize::MAX` of them, are
/// few enough to be written in base64.
pub proof fn lemma_memory_fits(bytes: Seq<u8>)
    requires
        bytes.len() <= isize::MAX,
    ensures
        base64_fits(bytes),
{
}

/// A response without a success status is a failure to authenticate, whatever
/// its body holds.
pub proof fn lemma_failure_ignores_body(status: u16, body: Seq<char>, other_body: Seq<char>)
    requires
        !is_success(status),
    ensures
        outcome_of(HttpReplyView::Received { status, body })
            == ConnectionOutcomeView::AuthenticationFailed,
        outcome_of(HttpReplyView::Received { status, body }) == outcome_of(
            HttpReplyView::Received { status, body: other_body },
        ),
{
}

} // verus!
