use vm_monitor::api::{
    classify_reply, conclude_reply, read_reply, frame_heartbeat, frame_metrics_batch, frame_registration,
    status_line_text, transport_failure, ApiClient, Disposition, Endpoint, HttpMethod, HttpReply,
    RegistrationResponse, SignedRequest,
};
use vm_monitor::auth::sign_request;
use vm_monitor::config::{CloudProvider, Configuration, MonitoringSettings};
use vm_monitor::errors::VmMonitorError;
use vm_monitor::time::Timestamp;

const KEY: &str = "c2VjcmV0LWtleS1mb3ItdGVzdHMtMDEyMzQ1Njc4OWFiY2RlZg==";
const ID: u128 = 0xa1a2a3a4b1b2c1c2d1d2d3d4d5d6d7d8;
const ID_TEXT: &str = "a1a2a3a4-b1b2-c1c2-d1d2-d3d4d5d6d7d8";

fn configuration(name: &str, provider: CloudProvider) -> Configuration {
    Configuration {
        instance_id: ID,
        instance_name: name.to_string(),
        api_url: "https://collector.example".to_string(),
        api_key: KEY.to_string(),
        cloud_provider: provider,
        monitoring_settings: MonitoringSettings { interval_seconds: 60, batch_size: 10 },
        initialized_at: Timestamp { secs: 1700000000, nanos: 0 },
    }
}

fn client() -> ApiClient {
    ApiClient::new(configuration("web \"one\"", CloudProvider::AWS))
}

fn header<'a>(request: &'a SignedRequest, name: &str) -> Option<&'a str> {
    request.headers.iter().find(|h| h.name == name).map(|h| h.value.as_str())
}

fn header_names(request: &SignedRequest) -> Vec<String> {
    request.headers.iter().map(|h| h.name.clone()).collect()
}

fn reply(status: u16, body: &str) -> HttpReply {
    HttpReply { status, body: body.to_string() }
}

fn api_error_detail(error: VmMonitorError) -> String {
    match error {
        VmMonitorError::ApiError(detail) => detail,
        other => panic!("expected an ApiError, got {:?}", other),
    }
}

#[test]
fn methods_are_written_in_upper_case() {
    assert_eq!(HttpMethod::Get.as_str(), "GET");
    assert_eq!(HttpMethod::Post.as_str(), "POST");
}

#[test]
fn endpoints_have_their_method_and_path() {
    assert_eq!(Endpoint::Register.method(), HttpMethod::Post);
    assert_eq!(Endpoint::Register.path(), "/v1/agent/register");
    assert_eq!(Endpoint::Metrics.method(), HttpMethod::Post);
    assert_eq!(Endpoint::Metrics.path(), "/v1/agent/metrics");
    assert_eq!(Endpoint::Heartbeat.method(), HttpMethod::Post);
    assert_eq!(Endpoint::Heartbeat.path(), "/v1/agent/heartbeat");
    assert_eq!(Endpoint::Health.method(), HttpMethod::Get);
    assert_eq!(Endpoint::Health.path(), "/v1/health");
}

#[test]
fn client_keeps_its_configuration() {
    let client = client();
    assert_eq!(client.config().instance_id, ID);
    assert_eq!(client.config().api_key, KEY);
    assert_eq!(client.config().api_url, "https://collector.example");
    assert_eq!(client.timeout_seconds(), 30);
}

#[test]
fn post_request_is_signed_and_carries_its_body() {
    let body = "{\"metrics\":[{\"a\":1},{\"b\":2}]}";
    let request = client()
        .request_at(HttpMethod::Post, "/v1/agent/metrics", body, 1700000000)
        .unwrap();
    assert_eq!(request.method, HttpMethod::Post);
    assert_eq!(request.url, "https://collector.example/v1/agent/metrics");
    assert_eq!(request.timestamp, 1700000000);
    assert_eq!(request.signature, "9qMai84HYkkaB39m2Pt+OZQOSRADsC2uWwsFd9PExss=");
    assert_eq!(request.body.as_deref(), Some(body));
    assert_eq!(
        header_names(&request),
        vec![
            "Authorization".to_string(),
            "X-Request-Timestamp".to_string(),
            "X-Request-Signature".to_string(),
            "X-Instance-Id".to_string(),
            "Content-Type".to_string(),
        ]
    );
    assert_eq!(header(&request, "Authorization"), Some(format!("Bearer {}", KEY).as_str()));
    assert_eq!(header(&request, "X-Request-Timestamp"), Some("1700000000"));
    assert_eq!(
        header(&request, "X-Request-Signature"),
        Some("9qMai84HYkkaB39m2Pt+OZQOSRADsC2uWwsFd9PExss=")
    );
    assert_eq!(header(&request, "X-Instance-Id"), Some(ID_TEXT));
    assert_eq!(header(&request, "Content-Type"), Some("application/json"));
}

#[test]
fn get_request_carries_no_body() {
    let request = client().request_at(HttpMethod::Get, "/v1/health", "", 1700000000).unwrap();
    assert_eq!(request.method, HttpMethod::Get);
    assert_eq!(request.url, "https://collector.example/v1/health");
    assert_eq!(request.signature, "JYqzqYhrxkCDihQEeNaPc0oLKUES/sCfaKtIF4gw9yM=");
    assert_eq!(request.body, None);
    assert_eq!(request.headers.len(), 4);
    assert_eq!(header(&request, "Content-Type"), None);
}

#[test]
fn get_request_signs_a_body_that_it_does_not_send() {
    let request = client().request_at(HttpMethod::Get, "/v1/health", "{}", 1700000000).unwrap();
    assert_eq!(request.body, None);
    assert_eq!(request.headers.len(), 4);
    assert_eq!(
        request.signature,
        sign_request(KEY, 1700000000, "GET", "/v1/health", "{}").unwrap()
    );
}

#[test]
fn post_request_with_empty_body_sends_none() {
    let request = client().request_at(HttpMethod::Post, "/v1/agent/metrics", "", 5).unwrap();
    assert_eq!(request.body, None);
    assert_eq!(request.headers.len(), 4);
    assert_eq!(header(&request, "X-Request-Timestamp"), Some("5"));
}

#[test]
fn request_is_stamped_with_the_time_of_its_making() {
    let before = chrono::Utc::now().timestamp();
    let request = client().request(HttpMethod::Post, "/v1/agent/metrics", Some("{}")).unwrap();
    let after = chrono::Utc::now().timestamp();
    assert!(before <= request.timestamp && request.timestamp <= after);
    assert_eq!(
        request.signature,
        sign_request(KEY, request.timestamp, "POST", "/v1/agent/metrics", "{}").unwrap()
    );
    assert_eq!(
        header(&request, "X-Request-Timestamp"),
        Some(request.timestamp.to_string().as_str())
    );
    assert_eq!(request.body.as_deref(), Some("{}"));
}

#[test]
fn request_without_body_signs_the_empty_body() {
    let request = client().request(HttpMethod::Post, "/v1/agent/heartbeat", None).unwrap();
    assert_eq!(request.body, None);
    assert_eq!(
        request.signature,
        sign_request(KEY, request.timestamp, "POST", "/v1/agent/heartbeat", "").unwrap()
    );
}

#[test]
fn registration_body_names_instance_provider_and_credential() {
    let body = client().registration_payload().unwrap();
    assert_eq!(
        body,
        "{\"instance_id\":\"a1a2a3a4-b1b2-c1c2-d1d2-d3d4d5d6d7d8\",\"instance_name\":\"web \\\"one\\\"\",\"cloud_provider\":\"AWS\",\"agent_api_key\":\"c2VjcmV0LWtleS1mb3ItdGVzdHMtMDEyMzQ1Njc4OWFiY2RlZg==\"}"
    );
}

#[test]
fn registration_body_is_what_a_serializer_writes() {
    let name = "na\"me\\ \n tab\t é \u{1}";
    let reason = "no metadata: \"unreachable\"";
    let client =
        ApiClient::new(configuration(name, CloudProvider::Unknown(reason.to_string())));
    let body = client.registration_payload().unwrap();
    let parsed: serde_json::Value = serde_json::from_str(&body).unwrap();
    assert_eq!(parsed["instance_id"].as_str(), Some(ID_TEXT));
    assert_eq!(parsed["instance_name"].as_str(), Some(name));
    assert_eq!(parsed["cloud_provider"].as_str(), Some(reason));
    assert_eq!(parsed["agent_api_key"].as_str(), Some(KEY));
    assert_eq!(parsed.as_object().unwrap().len(), 4);
    assert!(body.contains("\"instance_name\":\"na\\\"me\\\\ \\n tab\\t é \\u0001\""));
}

#[test]
fn registration_body_names_each_provider() {
    let gcp = ApiClient::new(configuration("n", CloudProvider::GCP));
    assert!(gcp.registration_payload().unwrap().contains("\"cloud_provider\":\"GCP\""));
    let azure = ApiClient::new(configuration("n", CloudProvider::Azure));
    assert!(azure.registration_payload().unwrap().contains("\"cloud_provider\":\"Azure\""));
}

#[test]
fn heartbeat_body_names_the_instance() {
    assert_eq!(
        client().heartbeat_payload().unwrap(),
        "{\"instance_id\":\"a1a2a3a4-b1b2-c1c2-d1d2-d3d4d5d6d7d8\"}"
    );
}

#[test]
fn instance_id_is_written_with_leading_zeros() {
    let mut config = configuration("n", CloudProvider::AWS);
    config.instance_id = 0x1f;
    let body = ApiClient::new(config).heartbeat_payload().unwrap();
    assert_eq!(body, "{\"instance_id\":\"00000000-0000-0000-0000-00000000001f\"}");
}

#[test]
fn frames_put_values_in_without_change() {
    assert_eq!(
        frame_registration("1", "2", "3", "4"),
        "{\"instance_id\":1,\"instance_name\":2,\"cloud_provider\":3,\"agent_api_key\":4}"
    );
    assert_eq!(frame_heartbeat("\"x\""), "{\"instance_id\":\"x\"}");
}

#[test]
fn metrics_body_lists_snapshots_in_order() {
    assert_eq!(frame_metrics_batch(&vec![]), "{\"metrics\":[]}");
    assert_eq!(frame_metrics_batch(&vec!["{\"a\":1}".to_string()]), "{\"metrics\":[{\"a\":1}]}");
    assert_eq!(
        frame_metrics_batch(&vec![
            "{\"a\":1}".to_string(),
            "{\"b\":2}".to_string(),
            "{\"c\":3}".to_string()
        ]),
        "{\"metrics\":[{\"a\":1},{\"b\":2},{\"c\":3}]}"
    );
}

#[test]
fn register_call_is_a_signed_post() {
    let client = client();
    let request = client.register_instance().unwrap();
    let body = client.registration_payload().unwrap();
    assert_eq!(request.method, HttpMethod::Post);
    assert_eq!(request.url, "https://collector.example/v1/agent/register");
    assert_eq!(request.body.as_deref(), Some(body.as_str()));
    assert_eq!(
        request.signature,
        sign_request(KEY, request.timestamp, "POST", "/v1/agent/register", &body).unwrap()
    );
    assert_eq!(header(&request, "Content-Type"), Some("application/json"));
    assert_eq!(header(&request, "X-Instance-Id"), Some(ID_TEXT));
}

#[test]
fn metrics_call_is_a_signed_post() {
    let snapshots = vec!["{\"a\":1}".to_string(), "{\"b\":2}".to_string()];
    let request = client().send_metrics_batch(&snapshots).unwrap();
    let body = "{\"metrics\":[{\"a\":1},{\"b\":2}]}";
    assert_eq!(request.method, HttpMethod::Post);
    assert_eq!(request.url, "https://collector.example/v1/agent/metrics");
    assert_eq!(request.body.as_deref(), Some(body));
    assert_eq!(
        request.signature,
        sign_request(KEY, request.timestamp, "POST", "/v1/agent/metrics", body).unwrap()
    );
}

#[test]
fn heartbeat_call_is_a_signed_post() {
    let request = client().send_heartbeat().unwrap();
    let body = "{\"instance_id\":\"a1a2a3a4-b1b2-c1c2-d1d2-d3d4d5d6d7d8\"}";
    assert_eq!(request.method, HttpMethod::Post);
    assert_eq!(request.url, "https://collector.example/v1/agent/heartbeat");
    assert_eq!(request.body.as_deref(), Some(body));
    assert_eq!(
        request.signature,
        sign_request(KEY, request.timestamp, "POST", "/v1/agent/heartbeat", body).unwrap()
    );
}

#[test]
fn status_call_is_a_signed_get_without_body() {
    let request = client().check_api_status().unwrap();
    assert_eq!(request.method, HttpMethod::Get);
    assert_eq!(request.url, "https://collector.example/v1/health");
    assert_eq!(request.body, None);
    assert_eq!(request.headers.len(), 4);
    assert_eq!(
        request.signature,
        sign_request(KEY, request.timestamp, "GET", "/v1/health", "").unwrap()
    );
}

#[test]
fn credential_appears_only_in_the_bearer_header() {
    let request = client().send_heartbeat().unwrap();
    assert!(!request.url.contains(KEY));
    assert!(!request.signature.contains(KEY));
    assert!(!request.body.as_deref().unwrap().contains(KEY));
    for h in &request.headers {
        if h.name == "Authorization" {
            assert_eq!(h.value, format!("Bearer {}", KEY));
        } else {
            assert!(!h.value.contains(KEY));
        }
    }
}

#[test]
fn status_is_written_with_its_reason() {
    assert_eq!(status_line_text(200), "200 OK");
    assert_eq!(status_line_text(401), "401 Unauthorized");
    assert_eq!(status_line_text(404), "404 Not Found");
    assert_eq!(status_line_text(500), "500 Internal Server Error");
    assert_eq!(status_line_text(100), "100 Continue");
}

#[test]
fn status_without_reason_is_written_as_unknown() {
    assert_eq!(status_line_text(299), "299 <unknown status code>");
    assert_eq!(status_line_text(999), "999 <unknown status code>");
}

#[test]
fn number_that_is_no_status_is_written_bare() {
    assert_eq!(status_line_text(0), "0");
    assert_eq!(status_line_text(99), "99");
    assert_eq!(status_line_text(1000), "1000");
    assert_eq!(status_line_text(65535), "65535");
}

#[test]
fn success_with_body_is_to_be_parsed() {
    let result = classify_reply(HttpMethod::Post, "/v1/agent/register", &reply(200, "{}"), true);
    assert_eq!(result.unwrap(), Disposition::Parse);
    let result = classify_reply(HttpMethod::Post, "/v1/agent/register", &reply(204, "x"), false);
    assert_eq!(result.unwrap(), Disposition::Parse);
    let result = classify_reply(HttpMethod::Get, "/v1/health", &reply(299, "null"), false);
    assert_eq!(result.unwrap(), Disposition::Parse);
}

#[test]
fn success_without_body_completes_a_call_that_expects_none() {
    let result = classify_reply(HttpMethod::Post, "/v1/agent/metrics", &reply(200, ""), false);
    assert_eq!(result.unwrap(), Disposition::Complete);
    let result = classify_reply(HttpMethod::Post, "/v1/agent/metrics", &reply(204, ""), false);
    assert_eq!(result.unwrap(), Disposition::Complete);
}

#[test]
fn success_without_body_fails_a_call_that_expects_one() {
    let result = classify_reply(HttpMethod::Post, "/v1/agent/register", &reply(200, ""), true);
    assert_eq!(
        api_error_detail(result.unwrap_err()),
        "API request to POST /v1/agent/register succeeded with status 200 OK but returned an empty non-JSON response."
    );
}

#[test]
fn failure_status_is_an_api_error_with_the_body_verbatim() {
    let body = "{\"error\":\"bad signature\"}\n";
    let result = classify_reply(HttpMethod::Post, "/v1/agent/metrics", &reply(401, body), true);
    let error = result.unwrap_err();
    assert!(error.is_transient());
    assert_eq!(
        error.message(),
        "API communication error: API request failed: 401 Unauthorized - {\"error\":\"bad signature\"}\n"
    );
}

#[test]
fn failure_status_is_an_api_error_whatever_is_expected() {
    for status in vec![100u16, 199, 300, 302, 400, 404, 500, 503, 999] {
        for expects_body in vec![true, false] {
            for body in vec!["", "oops"] {
                let result =
                    classify_reply(HttpMethod::Get, "/v1/health", &reply(status, body), expects_body);
                let detail = api_error_detail(result.unwrap_err());
                assert_eq!(
                    detail,
                    format!("API request failed: {} - {}", status_line_text(status), body)
                );
            }
        }
    }
}

#[test]
fn success_is_the_range_from_200_to_299() {
    assert!(classify_reply(HttpMethod::Get, "/", &reply(199, "x"), true).is_err());
    assert!(classify_reply(HttpMethod::Get, "/", &reply(200, "x"), true).is_ok());
    assert!(classify_reply(HttpMethod::Get, "/", &reply(299, "x"), true).is_ok());
    assert!(classify_reply(HttpMethod::Get, "/", &reply(300, "x"), true).is_err());
}

#[test]
fn parsed_value_is_handed_on() {
    let parsed: Result<RegistrationResponse, String> =
        Ok(RegistrationResponse { message: "welcome".to_string() });
    let result = conclude_reply(HttpMethod::Post, "/v1/agent/register", "{\"message\":\"welcome\"}", parsed);
    assert_eq!(result.unwrap().message, "welcome");
}

#[test]
fn parse_failure_is_an_api_error_with_reason_and_body() {
    let parsed: Result<RegistrationResponse, String> =
        Err("missing field `message` at line 1 column 2".to_string());
    let result = conclude_reply(HttpMethod::Post, "/v1/agent/register", "{}", parsed);
    assert_eq!(
        api_error_detail(result.unwrap_err()),
        "Failed to parse successful API response from POST /v1/agent/register: missing field `message` at line 1 column 2. Response body: {}"
    );
}

#[test]
fn call_without_reply_is_a_transient_transport_failure() {
    let error = transport_failure("connection refused".to_string());
    assert!(matches!(error, VmMonitorError::HttpError(_)));
    assert!(error.is_transient());
    assert_eq!(error.message(), "HTTP request error: connection refused");
}

#[test]
fn registration_and_health_check_expect_a_body() {
    assert!(Endpoint::Register.expects_body());
    assert!(Endpoint::Health.expects_body());
    assert!(!Endpoint::Metrics.expects_body());
    assert!(!Endpoint::Heartbeat.expects_body());
}

#[test]
fn empty_success_completes_a_delivery_and_a_heartbeat() {
    for status in vec![200u16, 202, 204] {
        assert_eq!(
            read_reply(Endpoint::Metrics, &reply(status, "")).unwrap(),
            Disposition::Complete
        );
        assert_eq!(
            read_reply(Endpoint::Heartbeat, &reply(status, "")).unwrap(),
            Disposition::Complete
        );
    }
}

#[test]
fn empty_success_fails_a_registration_and_a_health_check() {
    assert_eq!(
        api_error_detail(read_reply(Endpoint::Register, &reply(200, "")).unwrap_err()),
        "API request to POST /v1/agent/register succeeded with status 200 OK but returned an empty non-JSON response."
    );
    assert_eq!(
        api_error_detail(read_reply(Endpoint::Health, &reply(204, "")).unwrap_err()),
        "API request to GET /v1/health succeeded with status 204 No Content but returned an empty non-JSON response."
    );
}

#[test]
fn success_with_a_body_is_parsed_for_every_call() {
    for endpoint in vec![Endpoint::Register, Endpoint::Metrics, Endpoint::Heartbeat, Endpoint::Health]
    {
        assert_eq!(read_reply(endpoint, &reply(200, "{}")).unwrap(), Disposition::Parse);
    }
}

#[test]
fn rejected_call_is_an_api_error_for_every_call() {
    for endpoint in vec![Endpoint::Register, Endpoint::Metrics, Endpoint::Heartbeat, Endpoint::Health]
    {
        assert_eq!(
            api_error_detail(read_reply(endpoint, &reply(503, "busy")).unwrap_err()),
            "API request failed: 503 Service Unavailable - busy"
        );
        assert_eq!(
            api_error_detail(read_reply(endpoint, &reply(401, "")).unwrap_err()),
            "API request failed: 401 Unauthorized - "
        );
    }
}

#[test]
fn unknown_provider_is_sent_by_its_reason() {
    let client =
        ApiClient::new(configuration("n", CloudProvider::Unknown("on-prem".to_string())));
    let request = client.register_instance().unwrap();
    let body = request.body.unwrap();
    assert_eq!(
        body,
        format!(
            "{{\"instance_id\":\"{}\",\"instance_name\":\"n\",\"cloud_provider\":\"on-prem\",\"agent_api_key\":\"{}\"}}",
            ID_TEXT, KEY
        )
    );
    assert!(!body.contains("Unknown"));
}

#[test]
fn heartbeat_of_the_nil_instance_carries_its_identifier_only() {
    let mut config = configuration("n", CloudProvider::AWS);
    config.instance_id = 0;
    let request = ApiClient::new(config).send_heartbeat().unwrap();
    let body = "{\"instance_id\":\"00000000-0000-0000-0000-000000000000\"}";
    assert_eq!(request.method, HttpMethod::Post);
    assert_eq!(request.url, "https://collector.example/v1/agent/heartbeat");
    assert_eq!(request.body.as_deref(), Some(body));
    assert_eq!(
        request.signature,
        sign_request(KEY, request.timestamp, "POST", "/v1/agent/heartbeat", body).unwrap()
    );
}
