//! The collector's API: what each call sends and what its reply means.
//!
//! Nothing here touches the network. A call is prepared as a
//! [`SignedRequest`]; a driver sends it and hands back an [`HttpReply`], or
//! reports that none came; the reply is then read with [`read_reply`] and,
//! once its body has been parsed, with [`conclude_reply`].

use vstd::prelude::*;
use vstd::string::StringExecFns;
use crate::auth::{sign_request, signature};
use crate::config::{is_success_status, status_is_success, Configuration};
use crate::errors::VmMonitorError;
use crate::text::{decimal, i64_to_decimal, signed_decimal, u64_to_decimal};
use crate::time::wall_clock;

verus! {

/// The request methods that the collector's API uses.
#[derive(Clone, Copy, Debug, PartialEq, Eq, Structural)]
pub enum HttpMethod {
    Get,
    Post,
}

impl HttpMethod {
    /// The method as it is written in a request and signed.
    pub open spec fn spec_name(self) -> Seq<char> {
        match self {
            HttpMethod::Get => "GET"@,
            HttpMethod::Post => "POST"@,
        }
    }

    /// The method as it is written in a request and signed.
    pub fn as_str(&self) -> (name: &'static str)
        ensures
            name@ == self.spec_name(),
    {
        match self {
            HttpMethod::Get => "GET",
            HttpMethod::Post => "POST",
        }
    }
}

/// The calls that the agent makes.
#[derive(Clone, Copy, Debug, PartialEq, Eq, Structural)]
pub enum Endpoint {
    /// Enrolls the instance with the collector.
    Register,
    /// Delivers a batch of snapshots.
    Metrics,
    /// Tells the collector that the agent is alive.
    Heartbeat,
    /// Asks whether the collector can be reached.
    Health,
}

impl Endpoint {
    /// The method of the call.
    pub open spec fn spec_method(self) -> HttpMethod {
        match self {
            Endpoint::Health => HttpMethod::Get,
            _ => HttpMethod::Post,
        }
    }

    /// The path of the call, below the collector's base URL.
    pub open spec fn spec_path(self) -> Seq<char> {
        match self {
            Endpoint::Register => "/v1/agent/register"@,
            Endpoint::Metrics => "/v1/agent/metrics"@,
            Endpoint::Heartbeat => "/v1/agent/heartbeat"@,
            Endpoint::Health => "/v1/health"@,
        }
    }

    /// Whether the call expects a structured response. A registration is
    /// answered with a message and a health check with the collector's state;
    /// a delivery and a heartbeat are only acknowledged, so a success without
    /// a body completes them.
    pub open spec fn spec_expects_body(self) -> bool {
        match self {
            Endpoint::Register => true,
            Endpoint::Metrics => false,
            Endpoint::Heartbeat => false,
            Endpoint::Health => true,
        }
    }

    /// Whether the call expects a structured response.
    pub fn expects_body(&self) -> (expected: bool)
        ensures
            expected == self.spec_expects_body(),
    {
        match self {
            Endpoint::Register => true,
            Endpoint::Metrics => false,
            Endpoint::Heartbeat => false,
            Endpoint::Health => true,
        }
    }

    /// The method of the call.
    pub fn method(&self) -> (method: HttpMethod)
        ensures
            method == self.spec_method(),
    {
        match self {
            Endpoint::Health => HttpMethod::Get,
            _ => HttpMethod::Post,
        }
    }

    /// The path of the call, below the collector's base URL.
    pub fn path(&self) -> (path: &'static str)
        ensures
            path@ == self.spec_path(),
    {
        match self {
            Endpoint::Register => "/v1/agent/register",
            Endpoint::Metrics => "/v1/agent/metrics",
            Endpoint::Heartbeat => "/v1/agent/heartbeat",
            Endpoint::Health => "/v1/health",
        }
    }
}

/// One header of a request.
#[derive(Debug)]
pub struct Header {
    pub name: String,
    pub value: String,
}

/// A call that is ready to be sent. It is made for one send and dropped
/// afterwards.
#[derive(Debug)]
pub struct SignedRequest {
    /// The request method.
    pub method: HttpMethod,
    /// Where the request goes: the collector's base URL, then the path.
    pub url: String,
    /// The Unix time, in seconds, at which the request was made and signed.
    pub timestamp: i64,
    /// The signature of the request.
    pub signature: String,
    /// The headers to send, in order.
    pub headers: Vec<Header>,
    /// The body to send, if the request carries one.
    pub body: Option<String>,
}

/// A request as a mathematical value.
pub struct RequestView {
    pub method: HttpMethod,
    pub url: Seq<char>,
    pub timestamp: i64,
    pub signature: Seq<char>,
    pub headers: Seq<(Seq<char>, Seq<char>)>,
    pub body: Option<Seq<char>>,
}

/// Name and value of each header, in order.
pub open spec fn header_views(headers: Seq<Header>) -> Seq<(Seq<char>, Seq<char>)> {
    Seq::new(headers.len(), |i: int| (headers[i].name@, headers[i].value@))
}

impl View for SignedRequest {
    type V = RequestView;

    open spec fn view(&self) -> RequestView {
        RequestView {
            method: self.method,
            url: self.url@,
            timestamp: self.timestamp,
            signature: self.signature@,
            headers: header_views(self.headers@),
            body: match self.body {
                Some(body) => Some(body@),
                None => None,
            },
        }
    }
}

/// The reply to a request: its HTTP status and the text of its body.
#[derive(Debug)]
pub struct HttpReply {
    pub status: u16,
    pub body: String,
}

/// What the collector answers to a registration.
#[derive(Debug)]
pub struct RegistrationResponse {
    pub message: String,
}

/// What is left to do with a reply that is no failure.
#[derive(Clone, Copy, Debug, PartialEq, Eq, Structural)]
pub enum Disposition {
    /// The body is to be parsed as the shape that the call expects.
    Parse,
    /// There is no body and none was expected: the call has succeeded.
    Complete,
}

/// The hyphenated lower-case text of the UUID with the 128-bit value `id`.
pub uninterp spec fn uuid_text(id: u128) -> Seq<char>;

/// `text` as a JSON string: in quotes, with what JSON cannot hold escaped.
pub uninterp spec fn json_string(text: Seq<char>) -> Seq<char>;

/// The status `code` as it is written for a reader: the number, then its
/// standard reason phrase.
pub uninterp spec fn status_text(code: u16) -> Seq<char>;

/// Whether `code` is an HTTP status at all.
pub open spec fn is_status(code: u16) -> bool {
    100 <= code <= 999
}

/// The status `code` as the messages of this crate write it. A number that is
/// no HTTP status is written bare.
pub open spec fn status_line(code: u16) -> Seq<char> {
    if is_status(code) {
        status_text(code)
    } else {
        decimal(code as nat)
    }
}

/// Whether a request with this method and body is sent with its body:
/// a `GET` never is, and an empty body is none.
pub open spec fn carries_body(method: HttpMethod, body: Seq<char>) -> bool {
    method != HttpMethod::Get && body.len() > 0
}

/// The headers of a request: the bearer credential, the timestamp, the
/// signature and the instance identifier, then the content type if a body is
/// sent.
pub open spec fn request_headers(
    config: Configuration,
    method: HttpMethod,
    body: Seq<char>,
    timestamp: i64,
    signature: Seq<char>,
) -> Seq<(Seq<char>, Seq<char>)> {
    let fixed = seq![
        ("Authorization"@, "Bearer "@ + config.api_key@),
        ("X-Request-Timestamp"@, signed_decimal(timestamp as int)),
        ("X-Request-Signature"@, signature),
        ("X-Instance-Id"@, uuid_text(config.instance_id)),
    ];
    if carries_body(method, body) {
        fixed.push(("Content-Type"@, "application/json"@))
    } else {
        fixed
    }
}

/// The request that `config` makes at `timestamp` for `method`, `path` and
/// `body`, where no body is the empty body.
pub open spec fn signed_request(
    config: Configuration,
    method: HttpMethod,
    path: Seq<char>,
    body: Seq<char>,
    timestamp: i64,
) -> RequestView {
    let signature = signature(config.api_key@, timestamp, method.spec_name(), path, body);
    RequestView {
        method,
        url: config.api_url@ + path,
        timestamp,
        signature,
        headers: request_headers(config, method, body, timestamp, signature),
        body: if carries_body(method, body) {
            Some(body)
        } else {
            None
        },
    }
}

/// The body of a registration, from its four values as JSON strings.
pub open spec fn registration_body(
    instance_id: Seq<char>,
    instance_name: Seq<char>,
    cloud_provider: Seq<char>,
    agent_api_key: Seq<char>,
) -> Seq<char> {
    "{\"instance_id\":"@ + instance_id + ",\"instance_name\":"@ + instance_name
        + ",\"cloud_provider\":"@ + cloud_provider + ",\"agent_api_key\":"@ + agent_api_key + "}"@
}

/// The body of a heartbeat, from the instance identifier as a JSON string.
pub open spec fn heartbeat_body(instance_id: Seq<char>) -> Seq<char> {
    "{\"instance_id\":"@ + instance_id + "}"@
}

/// The texts of `items`, each two separated by a comma.
pub open spec fn comma_separated(items: Seq<String>) -> Seq<char>
    decreases items.len(),
{
    if items.len() == 0 {
        Seq::empty()
    } else if items.len() == 1 {
        items[0]@
    } else {
        comma_separated(items.drop_last()) + ","@ + items.last()@
    }
}

/// The body of a metrics delivery, from each snapshot as JSON text.
pub open spec fn metrics_body(snapshots: Seq<String>) -> Seq<char> {
    "{\"metrics\":["@ + comma_separated(snapshots) + "]}"@
}

/// The registration body of `config`.
pub open spec fn registration_payload(config: Configuration) -> Seq<char> {
    registration_body(
        json_string(uuid_text(config.instance_id)),
        json_string(config.instance_name@),
        json_string(config.cloud_provider.spec_label()),
        json_string(config.api_key@),
    )
}

/// The heartbeat body of `config`.
pub open spec fn heartbeat_payload(config: Configuration) -> Seq<char> {
    heartbeat_body(json_string(uuid_text(config.instance_id)))
}

/// The detail of the failure for a reply whose status is no success.
pub open spec fn rejected_detail(status: u16, body: Seq<char>) -> Seq<char> {
    "API request failed: "@ + status_line(status) + " - "@ + body
}

/// The detail of the failure for a successful reply that lacks the body that
/// the call expects.
pub open spec fn empty_detail(method: HttpMethod, path: Seq<char>, status: u16) -> Seq<char> {
    "API request to "@ + method.spec_name() + " "@ + path + " succeeded with status "@
        + status_line(status) + " but returned an empty non-JSON response."@
}

/// The detail of the failure for a successful reply whose body is not of the
/// shape that the call expects. `reason` is what the parser said.
pub open spec fn unparsable_detail(
    method: HttpMethod,
    path: Seq<char>,
    reason: Seq<char>,
    body: Seq<char>,
) -> Seq<char> {
    "Failed to parse successful API response from "@ + method.spec_name() + " "@ + path + ": "@
        + reason + ". Response body: "@ + body
}

/// What a reply means before its body is parsed.
///
/// A status that is no success is a failure, whatever the body. A success
/// with a body is to be parsed. A success without one completes a call that
/// expects none and fails one that expects one.
pub open spec fn classified(
    method: HttpMethod,
    path: Seq<char>,
    status: u16,
    body: Seq<char>,
    expects_body: bool,
) -> Result<Disposition, Seq<char>> {
    if !status_is_success(status) {
        Err(rejected_detail(status, body))
    } else if body.len() > 0 {
        Ok(Disposition::Parse)
    } else if expects_body {
        Err(empty_detail(method, path, status))
    } else {
        Ok(Disposition::Complete)
    }
}

/// `Uuid::from_u128` of the crate `uuid`, written with its `Display`: the
/// hyphenated lower-case text of the UUID with value `id`. The result is taken
/// to depend on `id` alone.
#[verifier::external_body]
fn uuid_to_text(id: u128) -> (text: String)
    ensures
        text@ == uuid_text(id),
{
    uuid::Uuid::from_u128(id).to_string()
}

/// `serde_json::to_string` of the crate `serde_json`, on a string: the JSON
/// string for `text`, or what the serializer said when it failed. On a string
/// the serializer does nothing but append bytes to a vector, which cannot
/// fail, so the result is taken to be a text, and the text to depend on the
/// argument alone.
#[verifier::external_body]
fn to_json_string(text: &str) -> (json: Result<String, String>)
    ensures
        json is Ok,
        json matches Ok(written) ==> written@ == json_string(text@),
{
    match serde_json::to_string(text) {
        Ok(written) => Ok(written),
        Err(failure) => Err(failure.to_string()),
    }
}

/// `StatusCode::from_u16` of the crate `reqwest`, written with its `Display`:
/// the status with its reason phrase. The source accepts the numbers from 100
/// to 999 and no others, and the text is taken to depend on the number alone.
#[verifier::external_body]
fn status_to_text(code: u16) -> (text: Option<String>)
    ensures
        text is Some <==> is_status(code),
        text matches Some(written) ==> written@ == status_text(code),
{
    match reqwest::StatusCode::from_u16(code) {
        Ok(status) => Some(status.to_string()),
        Err(_) => None,
    }
}

/// Writes a status for a message.
pub fn status_line_text(code: u16) -> (text: String)
    ensures
        text@ == status_line(code),
{
    match status_to_text(code) {
        Some(written) => written,
        None => u64_to_decimal(code as u64),
    }
}

/// Makes a `JsonError` of what the serializer said.
fn json_failure(reason: String) -> (error: VmMonitorError)
    ensures
        error is JsonError,
        error.spec_detail() == reason@,
{
    VmMonitorError::JsonError(reason)
}

/// Puts a registration body together from its four values, each already a
/// JSON string.
pub fn frame_registration(
    instance_id: &str,
    instance_name: &str,
    cloud_provider: &str,
    agent_api_key: &str,
) -> (body: String)
    ensures
        body@ == registration_body(
            instance_id@,
            instance_name@,
            cloud_provider@,
            agent_api_key@,
        ),
{
    let mut body = String::from_str("{\"instance_id\":");
    body.append(instance_id);
    body.append(",\"instance_name\":");
    body.append(instance_name);
    body.append(",\"cloud_provider\":");
    body.append(cloud_provider);
    body.append(",\"agent_api_key\":");
    body.append(agent_api_key);
    body.append("}");
    body
}

/// Puts a heartbeat body together from the instance identifier, already a
/// JSON string.
pub fn frame_heartbeat(instance_id: &str) -> (body: String)
    ensures
        body@ == heartbeat_body(instance_id@),
{
    let mut body = String::from_str("{\"instance_id\":");
    body.append(instance_id);
    body.append("}");
    body
}

/// Puts a metrics body together from the snapshots, each already JSON text,
/// oldest first.
pub fn frame_metrics_batch(snapshots: &Vec<String>) -> (body: String)
    ensures
        body@ == metrics_body(snapshots@),
{
    let mut body = String::from_str("{\"metrics\":[");
    let mut i: usize = 0;
    while i < snapshots.len()
        invariant
            i <= snapshots.len(),
            body@ == "{\"metrics\":["@ + comma_separated(snapshots@.take(i as int)),
        decreases snapshots.len() - i,
    {
        if i > 0 {
            body.append(",");
        }
        body.append(snapshots[i].as_str());
        proof {
            let before = snapshots@.take(i as int);
            let after = snapshots@.take(i + 1);
            assert(after.drop_last() =~= before);
            assert(after.last() == snapshots@[i as int]);
            if i == 0 {
                assert(comma_separated(before) =~= Seq::<char>::empty());
                assert(comma_separated(after) == snapshots@[0]@);
                assert(body@ =~= "{\"metrics\":["@ + comma_separated(after));
            } else {
                assert(comma_separated(after) == comma_separated(before) + ","@ + snapshots@[i as int]@);
                assert(body@ =~= "{\"metrics\":["@ + comma_separated(after));
            }
        }
        i += 1;
    }
    assert(snapshots@.take(i as int) =~= snapshots@);
    body.append("]}");
    body
}

/// Makes an `ApiError` with this detail.
fn api_failure(detail: String) -> (error: VmMonitorError)
    ensures
        error is ApiError,
        error.spec_detail() == detail@,
{
    VmMonitorError::ApiError(detail)
}

/// The failure of a call that got no reply: the connection was refused, the
/// name was not found, or the time ran out. `reason` is what the transport
/// said. Such a failure is transient: the next tick tries again.
pub fn transport_failure(reason: String) -> (error: VmMonitorError)
    ensures
        error is HttpError,
        error.spec_detail() == reason@,
        error.spec_is_transient(),
{
    VmMonitorError::HttpError(reason)
}

/// Says what a reply means before its body is parsed.
///
/// `expects_body` tells whether the call expects a structured response. The
/// result is `Ok` with what is left to do, or the `ApiError` that the reply
/// amounts to, as [`classified`] lays down, with the body quoted verbatim.
pub fn classify_reply(
    method: HttpMethod,
    path: &str,
    reply: &HttpReply,
    expects_body: bool,
) -> (result: Result<Disposition, VmMonitorError>)
    ensures
        match classified(method, path@, reply.status, reply.body@, expects_body) {
            Ok(disposition) => result == Ok::<Disposition, VmMonitorError>(disposition),
            Err(detail) => {
                &&& result matches Err(error)
                &&& error is ApiError
                &&& error.spec_detail() == detail
            },
        },
{
    if !is_success_status(reply.status) {
        let status = status_line_text(reply.status);
        let mut detail = String::from_str("API request failed: ");
        detail.append(status.as_str());
        detail.append(" - ");
        detail.append(reply.body.as_str());
        Err(api_failure(detail))
    } else if !reply.body.as_str().is_empty() {
        Ok(Disposition::Parse)
    } else if expects_body {
        let status = status_line_text(reply.status);
        let mut detail = String::from_str("API request to ");
        detail.append(method.as_str());
        detail.append(" ");
        detail.append(path);
        detail.append(" succeeded with status ");
        detail.append(status.as_str());
        detail.append(" but returned an empty non-JSON response.");
        Err(api_failure(detail))
    } else {
        Ok(Disposition::Complete)
    }
}

/// Says what the reply to the call `endpoint` means before its body is
/// parsed: [`classify_reply`] with the method, the path and the expectation of
/// that call. So a success without a body completes a delivery or a heartbeat
/// and fails a registration or a health check.
pub fn read_reply(endpoint: Endpoint, reply: &HttpReply) -> (result: Result<
    Disposition,
    VmMonitorError,
>)
    ensures
        match classified(
            endpoint.spec_method(),
            endpoint.spec_path(),
            reply.status,
            reply.body@,
            endpoint.spec_expects_body(),
        ) {
            Ok(disposition) => result == Ok::<Disposition, VmMonitorError>(disposition),
            Err(detail) => {
                &&& result matches Err(error)
                &&& error is ApiError
                &&& error.spec_detail() == detail
            },
        },
{
    classify_reply(endpoint.method(), endpoint.path(), reply, endpoint.expects_body())
}

/// Ends the reading of a successful reply whose body has been parsed.
///
/// `parsed` is the parser's result: the value, or what the parser said. A
/// value is handed on. A parse failure becomes an `ApiError` that names the
/// call and quotes reason and body.
pub fn conclude_reply<R>(
    method: HttpMethod,
    path: &str,
    body: &str,
    parsed: Result<R, String>,
) -> (result: Result<R, VmMonitorError>)
    ensures
        match parsed {
            Ok(value) => result == Ok::<R, VmMonitorError>(value),
            Err(reason) => {
                &&& result matches Err(error)
                &&& error is ApiError
                &&& error.spec_detail() == unparsable_detail(method, path@, reason@, body@)
            },
        },
{
    match parsed {
        Ok(value) => Ok(value),
        Err(reason) => {
            let mut detail = String::from_str("Failed to parse successful API response from ");
            detail.append(method.as_str());
            detail.append(" ");
            detail.append(path);
            detail.append(": ");
            detail.append(reason.as_str());
            detail.append(". Response body: ");
            detail.append(body);
            Err(api_failure(detail))
        },
    }
}

/// Prepares the calls of one agent.
pub struct ApiClient {
    config: Configuration,
}

impl ApiClient {
    /// The configuration that the calls are made for.
    pub closed spec fn spec_config(&self) -> Configuration {
        self.config
    }

    /// A client for the agent that `config` describes.
    pub fn new(config: Configuration) -> (client: Self)
        ensures
            client.spec_config() == config,
    {
        ApiClient { config }
    }

    /// The configuration that the calls are made for.
    pub fn config(&self) -> (config: &Configuration)
        ensures
            *config == self.spec_config(),
    {
        &self.config
    }

    /// How long the driver may wait for a reply, in seconds.
    pub fn timeout_seconds(&self) -> (seconds: u64)
        ensures
            seconds == 30,
    {
        30
    }

    /// Prepares a call as of `timestamp`: signs it and sets its headers.
    pub fn request_at(&self, method: HttpMethod, path: &str, body: &str, timestamp: i64) -> (result:
        Result<SignedRequest, VmMonitorError>)
        ensures
            result matches Ok(request) && request@ == signed_request(
                self.spec_config(),
                method,
                path@,
                body@,
                timestamp,
            ),
    {
        let signed = sign_request(self.config.api_key.as_str(), timestamp, method.as_str(), path, body);
        let signature_text = match signed {
            Ok(text) => text,
            Err(error) => {
                return Err(error);
            },
        };
        let mut url = self.config.api_url.clone();
        url.append(path);

        let mut bearer = String::from_str("Bearer ");
        bearer.append(self.config.api_key.as_str());

        let mut headers: Vec<Header> = Vec::new();
        headers.push(Header { name: String::from_str("Authorization"), value: bearer });
        headers.push(
            Header {
                name: String::from_str("X-Request-Timestamp"),
                value: i64_to_decimal(timestamp),
            },
        );
        headers.push(
            Header {
                name: String::from_str("X-Request-Signature"),
                value: signature_text.clone(),
            },
        );
        headers.push(
            Header {
                name: String::from_str("X-Instance-Id"),
                value: uuid_to_text(self.config.instance_id),
            },
        );
        let with_body: bool = match method {
            HttpMethod::Get => false,
            HttpMethod::Post => !body.is_empty(),
        };
        let sent_body: Option<String> = if with_body {
            headers.push(
                Header {
                    name: String::from_str("Content-Type"),
                    value: String::from_str("application/json"),
                },
            );
            Some(String::from_str(body))
        } else {
            None
        };
        let request = SignedRequest {
            method,
            url,
            timestamp,
            signature: signature_text,
            headers,
            body: sent_body,
        };
        assert(request@.headers =~= request_headers(
            self.config,
            method,
            body@,
            timestamp,
            request.signature@,
        ));
        Ok(request)
    }

    /// Writes the body of a registration: instance identifier, instance name,
    /// cloud provider and credential, in this order, each as a JSON string.
    ///
    /// The body is always written. Were the serializer to fail on a value, its
    /// words would come back as a `JsonError`; on a string it never does.
    pub fn registration_payload(&self) -> (result: Result<String, VmMonitorError>)
        ensures
            result matches Ok(body) && body@ == registration_payload(self.spec_config()),
    {
        let id_text = uuid_to_text(self.config.instance_id);
        let instance_id = match to_json_string(id_text.as_str()) {
            Ok(written) => written,
            Err(reason) => {
                return Err(json_failure(reason));
            },
        };
        let instance_name = match to_json_string(self.config.instance_name.as_str()) {
            Ok(written) => written,
            Err(reason) => {
                return Err(json_failure(reason));
            },
        };
        let cloud_provider = match to_json_string(self.config.cloud_provider.label()) {
            Ok(written) => written,
            Err(reason) => {
                return Err(json_failure(reason));
            },
        };
        let agent_api_key = match to_json_string(self.config.api_key.as_str()) {
            Ok(written) => written,
            Err(reason) => {
                return Err(json_failure(reason));
            },
        };
        Ok(
            frame_registration(
                instance_id.as_str(),
                instance_name.as_str(),
                cloud_provider.as_str(),
                agent_api_key.as_str(),
            ),
        )
    }

    /// Writes the body of a heartbeat: the instance identifier, and nothing
    /// else. The body is always written.
    pub fn heartbeat_payload(&self) -> (result: Result<String, VmMonitorError>)
        ensures
            result matches Ok(body) && body@ == heartbeat_payload(self.spec_config()),
    {
        let id_text = uuid_to_text(self.config.instance_id);
        match to_json_string(id_text.as_str()) {
            Ok(written) => Ok(frame_heartbeat(written.as_str())),
            Err(reason) => Err(json_failure(reason)),
        }
    }

    /// Prepares the call that enrolls the instance with the collector: a
    /// signed `POST` with the registration body. It is always prepared.
    pub fn register_instance(&self) -> (result: Result<SignedRequest, VmMonitorError>)
        ensures
            result matches Ok(request) && request@ == signed_request(
                self.spec_config(),
                HttpMethod::Post,
                Endpoint::Register.spec_path(),
                registration_payload(self.spec_config()),
                request.timestamp,
            ),
    {
        match self.registration_payload() {
            Ok(body) => self.request(
                Endpoint::Register.method(),
                Endpoint::Register.path(),
                Some(body.as_str()),
            ),
            Err(error) => Err(error),
        }
    }

    /// Prepares the call that delivers a batch. `snapshots` holds the queued
    /// snapshots, oldest first, each as JSON text.
    pub fn send_metrics_batch(&self, snapshots: &Vec<String>) -> (result: Result<
        SignedRequest,
        VmMonitorError,
    >)
        ensures
            result matches Ok(request) && request@ == signed_request(
                self.spec_config(),
                HttpMethod::Post,
                Endpoint::Metrics.spec_path(),
                metrics_body(snapshots@),
                request.timestamp,
            ),
    {
        let body = frame_metrics_batch(snapshots);
        self.request(Endpoint::Metrics.method(), Endpoint::Metrics.path(), Some(body.as_str()))
    }

    /// Prepares the call that tells the collector that the agent is alive: a
    /// signed `POST` with the heartbeat body. It is always prepared.
    pub fn send_heartbeat(&self) -> (result: Result<SignedRequest, VmMonitorError>)
        ensures
            result matches Ok(request) && request@ == signed_request(
                self.spec_config(),
                HttpMethod::Post,
                Endpoint::Heartbeat.spec_path(),
                heartbeat_payload(self.spec_config()),
                request.timestamp,
            ),
    {
        match self.heartbeat_payload() {
            Ok(body) => self.request(
                Endpoint::Heartbeat.method(),
                Endpoint::Heartbeat.path(),
                Some(body.as_str()),
            ),
            Err(error) => Err(error),
        }
    }

    /// Prepares the call that asks whether the collector can be reached. It
    /// carries no body.
    pub fn check_api_status(&self) -> (result: Result<SignedRequest, VmMonitorError>)
        ensures
            result matches Ok(request) && request@ == signed_request(
                self.spec_config(),
                HttpMethod::Get,
                Endpoint::Health.spec_path(),
                Seq::<char>::empty(),
                request.timestamp,
            ),
            result matches Ok(request) && request.body is None,
    {
        self.request(Endpoint::Health.method(), Endpoint::Health.path(), None)
    }

    /// Prepares a call as of now. The timestamp that is signed and sent is the
    /// wall-clock time of this preparation; the rest of the request follows
    /// from it as in [`ApiClient::request_at`].
    pub fn request(&self, method: HttpMethod, path: &str, body: Option<&str>) -> (result: Result<
        SignedRequest,
        VmMonitorError,
    >)
        ensures
            result matches Ok(request) && request@ == signed_request(
                self.spec_config(),
                method,
                path@,
                match body {
                    Some(text) => text@,
                    None => Seq::<char>::empty(),
                },
                request.timestamp,
            ),
    {
        let now = wall_clock();
        match body {
            Some(text) => self.request_at(method, path, text, now.secs),
            None => {
                let empty = String::new();
                self.request_at(method, path, empty.as_str(), now.secs)
            },
        }
    }
}

} // verus!
