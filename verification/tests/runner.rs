use k8s_openapi::api::authentication::v1 as authn_wire;
use k8s_openapi::api::authorization::v1 as authz_wire;
use k8s_openapi::apimachinery::pkg::runtime::RawExtension;
use k8s_wasi::admission::{AdmissionRequest, AdmissionResponse, AdmissionReview};
use k8s_wasi::authentication::{TokenReview, TokenReviewSpec, TokenReviewStatus, UserInfo};
use k8s_wasi::authorization::{
    NonResourceAttributes, ResourceAttributes, SubjectAccessReview, SubjectAccessReviewSpec,
    SubjectAccessReviewStatus,
};
use k8s_wasi::error::ReviewError;
use k8s_wasi::magic::{contains_text, MagicAuthenticator, MagicAuthorizer, MagicValidator};
use k8s_wasi::{
    admiter_runner, authenticator_runner, authorizer_runner, Admiter, Authenticator, Authorizer,
    Request, RequestRunner, Response,
};
use serde::de::DeserializeOwned;
use serde::Serialize;
use serde_json::Value;

type ConfigMap = k8s_openapi::api::core::v1::ConfigMap;

// The JSON codec of the envelope.

fn read_envelope<W: DeserializeOwned, I, S: DeserializeOwned>(
    input: &[u8],
    from_wire: fn(W) -> I,
) -> Result<Request<I, S>, serde_json::Error> {
    let value: Value = serde_json::from_slice(input)?;
    let mut members = match value {
        Value::Object(members) => members,
        _ => return Err(<serde_json::Error as serde::de::Error>::custom("the envelope is no object")),
    };
    let request = match members.remove("request") {
        Some(request) => request,
        None => return Err(<serde_json::Error as serde::de::Error>::missing_field("request")),
    };
    let settings = members.remove("settings").unwrap_or(Value::Null);
    Ok(Request::new(from_wire(serde_json::from_value(request)?), serde_json::from_value(settings)?))
}

fn write_outcome<W: Serialize, O>(
    outcome: Response<O>,
    to_wire: fn(O) -> W,
) -> Result<Vec<u8>, serde_json::Error> {
    let mut members = serde_json::Map::new();
    let response = match outcome.response {
        Some(response) => serde_json::to_value(to_wire(response))?,
        None => Value::Null,
    };
    members.insert("response".to_string(), response);
    members.insert("error".to_string(), outcome.error.map_or(Value::Null, Value::String));
    serde_json::to_vec(&Value::Object(members))
}

fn user_from_wire(wire: authn_wire::UserInfo) -> UserInfo {
    UserInfo { extra: wire.extra, groups: wire.groups, uid: wire.uid, username: wire.username }
}

fn user_to_wire(user: UserInfo) -> authn_wire::UserInfo {
    authn_wire::UserInfo {
        extra: user.extra,
        groups: user.groups,
        uid: user.uid,
        username: user.username,
    }
}

fn token_review_from_wire(wire: authn_wire::TokenReview) -> TokenReview {
    TokenReview {
        spec: TokenReviewSpec { audiences: wire.spec.audiences, token: wire.spec.token },
        status: wire.status.map(|status| TokenReviewStatus {
            audiences: status.audiences,
            authenticated: status.authenticated,
            error: status.error,
            user: status.user.map(user_from_wire),
        }),
    }
}

fn token_review_to_wire(review: TokenReview) -> authn_wire::TokenReview {
    authn_wire::TokenReview {
        metadata: Default::default(),
        spec: authn_wire::TokenReviewSpec {
            audiences: review.spec.audiences,
            token: review.spec.token,
        },
        status: review.status.map(|status| authn_wire::TokenReviewStatus {
            audiences: status.audiences,
            authenticated: status.authenticated,
            error: status.error,
            user: status.user.map(user_to_wire),
        }),
    }
}

fn access_review_from_wire(wire: authz_wire::SubjectAccessReview) -> SubjectAccessReview {
    SubjectAccessReview {
        spec: SubjectAccessReviewSpec {
            extra: wire.spec.extra,
            groups: wire.spec.groups,
            non_resource_attributes: wire
                .spec
                .non_resource_attributes
                .map(|a| NonResourceAttributes { path: a.path, verb: a.verb }),
            resource_attributes: wire.spec.resource_attributes.map(|a| ResourceAttributes {
                group: a.group,
                name: a.name,
                namespace: a.namespace,
                resource: a.resource,
                subresource: a.subresource,
                verb: a.verb,
                version: a.version,
            }),
            uid: wire.spec.uid,
            user: wire.spec.user,
        },
        status: wire.status.map(|status| SubjectAccessReviewStatus {
            allowed: status.allowed,
            denied: status.denied,
            evaluation_error: status.evaluation_error,
            reason: status.reason,
        }),
    }
}

fn access_review_to_wire(review: SubjectAccessReview) -> authz_wire::SubjectAccessReview {
    authz_wire::SubjectAccessReview {
        metadata: Default::default(),
        spec: authz_wire::SubjectAccessReviewSpec {
            extra: review.spec.extra,
            groups: review.spec.groups,
            non_resource_attributes: review.spec.non_resource_attributes.map(|a| {
                authz_wire::NonResourceAttributes { path: a.path, verb: a.verb }
            }),
            resource_attributes: review.spec.resource_attributes.map(|a| {
                authz_wire::ResourceAttributes {
                    group: a.group,
                    name: a.name,
                    namespace: a.namespace,
                    resource: a.resource,
                    subresource: a.subresource,
                    verb: a.verb,
                    version: a.version,
                }
            }),
            uid: review.spec.uid,
            user: review.spec.user,
        },
        status: review.status.map(|status| authz_wire::SubjectAccessReviewStatus {
            allowed: status.allowed,
            denied: status.denied,
            evaluation_error: status.evaluation_error,
            reason: status.reason,
        }),
    }
}

fn admission_review_from_wire(wire: Value) -> AdmissionReview {
    let mut review = AdmissionReview::default();
    if let Some(request) = wire.get("request") {
        let mut read = AdmissionRequest::default();
        read.uid = request["uid"].as_str().unwrap_or("").to_string();
        read.operation = request["operation"].as_str().unwrap_or("").to_string();
        read.object = request.get("object").cloned().map(RawExtension);
        review.request = Some(read);
    }
    review
}

fn admission_response_to_wire(response: AdmissionResponse) -> Value {
    let mut members = serde_json::Map::new();
    members.insert("uid".to_string(), Value::String(response.uid));
    members.insert("allowed".to_string(), Value::Bool(response.allowed));
    if let Some(status) = response.status {
        let mut said = serde_json::Map::new();
        if let Some(message) = status.message {
            said.insert("message".to_string(), Value::String(message));
        }
        members.insert("status".to_string(), Value::Object(said));
    }
    if let Some(patch) = response.patch {
        members.insert("patch".to_string(), Value::String(patch));
    }
    if let Some(patch_type) = response.patch_type {
        members.insert("patchType".to_string(), Value::String(patch_type));
    }
    Value::Object(members)
}

fn admission_review_to_wire(review: AdmissionReview) -> Value {
    let mut members = serde_json::Map::new();
    if let Some(kind) = review.kind {
        members.insert("kind".to_string(), Value::String(kind));
    }
    if let Some(api_version) = review.api_version {
        members.insert("apiVersion".to_string(), Value::String(api_version));
    }
    if let Some(response) = review.response {
        members.insert("response".to_string(), admission_response_to_wire(response));
    }
    Value::Object(members)
}

fn object(members: Vec<(&str, Value)>) -> Value {
    let mut map = serde_json::Map::new();
    for (key, value) in members {
        map.insert(key.to_string(), value);
    }
    Value::Object(map)
}

fn text(value: &str) -> Value {
    Value::String(value.to_string())
}

fn parse(output: &[u8]) -> Value {
    serde_json::from_slice(output).unwrap()
}

// The sample policies.

struct MagicMutator;

impl Admiter<()> for MagicMutator {
    fn validate(ar: AdmissionReview, _settings: ()) -> Result<AdmissionReview, ReviewError> {
        let mut request = ar.get_request()?;
        let mut config_map: ConfigMap =
            request.get_object(|raw: RawExtension| serde_json::from_value(raw.0))?;
        config_map
            .data
            .get_or_insert_with(Default::default)
            .insert("magic-value".to_string(), "foobar".to_string());
        AdmissionReview::mutate(request.uid, config_map, |o| serde_json::to_vec(&o))
    }
}

fn authenticate_magic(input: &[u8]) -> Value {
    let output = authenticator_runner::<Option<()>, MagicAuthenticator>()
        .raw_run(
            input,
            |bytes: &[u8]| read_envelope(bytes, token_review_from_wire),
            |outcome| write_outcome(outcome, token_review_to_wire),
        )
        .unwrap();
    parse(&output)
}

fn authorize_magic(input: &[u8]) -> Value {
    let output = authorizer_runner::<(), MagicAuthorizer>()
        .raw_run(
            input,
            |bytes: &[u8]| read_envelope(bytes, access_review_from_wire),
            |outcome| write_outcome(outcome, access_review_to_wire),
        )
        .unwrap();
    parse(&output)
}

fn validate_magic(input: &[u8]) -> Value {
    let output = admiter_runner::<Option<()>, MagicValidator>()
        .raw_run(
            input,
            |bytes: &[u8]| read_envelope(bytes, admission_review_from_wire),
            |outcome| write_outcome(outcome, admission_review_to_wire),
        )
        .unwrap();
    parse(&output)
}

fn mutate_magic(input: &[u8]) -> Value {
    let output = admiter_runner::<(), MagicMutator>()
        .raw_run(
            input,
            |bytes: &[u8]| read_envelope(bytes, admission_review_from_wire),
            |outcome| write_outcome(outcome, admission_review_to_wire),
        )
        .unwrap();
    parse(&output)
}

fn token_envelope(token: Option<&str>) -> Vec<u8> {
    let spec = match token {
        Some(token) => object(vec![("token", text(token))]),
        None => object(vec![]),
    };
    let review = object(vec![
        ("apiVersion", text("authentication.k8s.io/v1")),
        ("kind", text("TokenReview")),
        ("spec", spec),
    ]);
    serde_json::to_vec(&object(vec![("request", review), ("settings", Value::Null)])).unwrap()
}

fn access_envelope(groups: Vec<&str>, resource: Option<&str>) -> Vec<u8> {
    let mut spec = vec![
        ("user", text("jane")),
        ("groups", Value::Array(groups.into_iter().map(text).collect())),
    ];
    if let Some(resource) = resource {
        spec.push((
            "resourceAttributes",
            object(vec![("resource", text(resource)), ("verb", text("get"))]),
        ));
    }
    let review = object(vec![("spec", object(spec))]);
    serde_json::to_vec(&object(vec![("request", review), ("settings", Value::Null)])).unwrap()
}

fn admission_envelope(uid: &str, data: Vec<(&str, &str)>) -> Vec<u8> {
    let data = object(data.into_iter().map(|(key, value)| (key, text(value))).collect());
    let config_map = object(vec![
        ("apiVersion", text("v1")),
        ("kind", text("ConfigMap")),
        ("metadata", object(vec![("name", text("cm"))])),
        ("data", data),
    ]);
    let request = object(vec![
        ("uid", text(uid)),
        ("operation", text("CREATE")),
        ("object", config_map),
    ]);
    let review = object(vec![
        ("apiVersion", text("admission.k8s.io/v1")),
        ("kind", text("AdmissionReview")),
        ("request", request),
    ]);
    serde_json::to_vec(&object(vec![("request", review), ("settings", Value::Null)])).unwrap()
}

fn double(input: u8, settings: u8) -> Result<u8, ReviewError> {
    if settings == 0 {
        Err(ReviewError::Message("no factor".to_string()))
    } else {
        Ok(input * settings)
    }
}

fn same(value: u8) -> u8 {
    value
}

#[test]
fn envelope_new_holds_request_and_settings() {
    let envelope = Request::new(7u8, "s".to_string());
    assert_eq!(envelope.request, 7);
    assert_eq!(envelope.settings, "s");
}

#[test]
fn respond_decides_on_a_read_envelope() {
    let runner = RequestRunner::new(double);
    assert_eq!(runner.respond(Ok(Request::new(4, 3))), Response { response: Some(12), error: None });
    assert_eq!(
        runner.respond(Ok(Request::new(4, 0))),
        Response { response: None, error: Some("no factor".to_string()) }
    );
}

#[test]
fn respond_reports_a_failure_to_read() {
    let runner = RequestRunner::new(double);
    let failure = serde_json::from_str::<u8>("nope").unwrap_err();
    let words = failure.to_string();
    assert_eq!(runner.respond(Err(failure)), Response { response: None, error: Some(words) });
}

#[test]
fn raw_run_goes_from_bytes_to_bytes() {
    let runner = RequestRunner::new(double);
    let output = runner
        .raw_run(
            br#"{"request": 21, "settings": 2}"#,
            |bytes: &[u8]| read_envelope(bytes, same),
            |outcome| write_outcome(outcome, same),
        )
        .unwrap();
    assert_eq!(
        parse(&output),
        object(vec![("response", Value::from(42u8)), ("error", Value::Null)])
    );
}

#[test]
fn raw_run_reports_a_failed_decision_in_the_outcome() {
    let runner = RequestRunner::new(double);
    let output = runner
        .raw_run(
            br#"{"request": 21, "settings": 0}"#,
            |bytes: &[u8]| read_envelope(bytes, same),
            |outcome| write_outcome(outcome, same),
        )
        .unwrap();
    assert_eq!(
        parse(&output),
        object(vec![("response", Value::Null), ("error", text("no factor"))])
    );
}

#[test]
fn raw_run_reports_malformed_json_in_the_outcome() {
    let runner = RequestRunner::new(double);
    for input in [&b"{\"request\": 21, "[..], &b""[..], &b"not json"[..], &b"{\"request\": }"[..]] {
        let words = serde_json::from_slice::<Value>(input).unwrap_err().to_string();
        let output = runner
            .raw_run(
                input,
                |bytes: &[u8]| read_envelope(bytes, same),
                |outcome| write_outcome(outcome, same),
            )
            .unwrap();
        let outcome = parse(&output);
        assert_eq!(outcome["response"], Value::Null);
        assert!(!outcome["error"].as_str().unwrap().is_empty());
        assert_eq!(outcome["error"], text(&words));
    }
}

#[test]
fn raw_run_reports_a_mismatched_envelope_in_the_outcome() {
    let runner = RequestRunner::new(double);
    for input in [&br#"{"settings": 2}"#[..], &br#"{"request": "x", "settings": 2}"#[..], &b"[]"[..]] {
        let output = runner
            .raw_run(
                input,
                |bytes: &[u8]| read_envelope(bytes, same),
                |outcome| write_outcome(outcome, same),
            )
            .unwrap();
        let outcome = parse(&output);
        assert_eq!(outcome["response"], Value::Null);
        assert!(!outcome["error"].as_str().unwrap().is_empty());
    }
}

#[test]
fn raw_run_fails_where_the_outcome_cannot_be_written() {
    let runner = RequestRunner::new(double);
    let words = serde_json::from_str::<u8>("").unwrap_err().to_string();
    let output = runner.raw_run(
        br#"{"request": 21, "settings": 2}"#,
        |bytes: &[u8]| read_envelope(bytes, same),
        |_outcome: Response<u8>| serde_json::from_str::<Vec<u8>>(""),
    );
    assert_eq!(output, Err(ReviewError::Json(words)));
}

#[test]
fn magic_token_is_authenticated() {
    let outcome = authenticate_magic(&token_envelope(Some("magic-token")));
    assert_eq!(outcome["error"], Value::Null);
    let status = &outcome["response"]["status"];
    assert_eq!(status["authenticated"], Value::Bool(true));
    assert_eq!(status["user"]["username"], text("magic-user"));
    assert_eq!(status["user"]["uid"], text("0"));
    assert_eq!(status["user"]["groups"], Value::Array(vec![text("magic-group")]));
}

#[test]
fn any_other_token_is_not_authenticated() {
    for token in ["magic-token ", "", "Magic-Token", "other"] {
        let outcome = authenticate_magic(&token_envelope(Some(token)));
        assert_eq!(outcome["error"], Value::Null);
        let status = &outcome["response"]["status"];
        assert_eq!(status["authenticated"], Value::Bool(false));
        assert_eq!(status.get("user"), None);
    }
}

#[test]
fn missing_token_is_reported_in_the_outcome() {
    let outcome = authenticate_magic(&token_envelope(None));
    assert_eq!(outcome["response"], Value::Null);
    assert_eq!(outcome["error"], text("no token in request"));
}

#[test]
fn magic_group_may_use_config_maps() {
    let outcome = authorize_magic(&access_envelope(vec!["dev", "magic-group"], Some("configmaps")));
    assert_eq!(outcome["error"], Value::Null);
    let status = &outcome["response"]["status"];
    assert_eq!(status["allowed"], Value::Bool(true));
    assert_eq!(status["denied"], Value::Bool(false));
}

#[test]
fn nobody_else_and_nothing_else_is_allowed() {
    let asked = [
        access_envelope(vec!["dev"], Some("configmaps")),
        access_envelope(vec![], Some("configmaps")),
        access_envelope(vec!["magic-group"], Some("secrets")),
        access_envelope(vec!["magic-group"], None),
    ];
    for input in asked {
        let outcome = authorize_magic(&input);
        assert_eq!(outcome["error"], Value::Null);
        let status = &outcome["response"]["status"];
        assert_eq!(status["allowed"], Value::Bool(false));
        assert_eq!(status["denied"], Value::Bool(false));
    }
}

#[test]
fn config_map_with_the_forbidden_key_is_rejected() {
    let outcome =
        validate_magic(&admission_envelope("u-1", vec![("a", "b"), ("not-allowed-value", "x")]));
    assert_eq!(outcome["error"], Value::Null);
    let review = &outcome["response"];
    assert_eq!(review["kind"], text("AdmissionReview"));
    assert_eq!(review["apiVersion"], text("admission.k8s.io/v1"));
    assert_eq!(review.get("request"), None);
    let response = &review["response"];
    assert_eq!(response["uid"], text("u-1"));
    assert_eq!(response["allowed"], Value::Bool(false));
    assert!(response["status"]["message"].as_str().unwrap().contains("not-allowed-value"));
    assert_eq!(
        response["status"]["message"],
        text("value 'not-allowed-value' not allowed in configmap")
    );
}

#[test]
fn any_other_config_map_is_accepted() {
    for data in [vec![("a", "b")], vec![], vec![("allowed-value", "not-allowed-value")]] {
        let outcome = validate_magic(&admission_envelope("u-2", data));
        assert_eq!(outcome["error"], Value::Null);
        let response = &outcome["response"]["response"];
        assert_eq!(response["uid"], text("u-2"));
        assert_eq!(response["allowed"], Value::Bool(true));
        assert_eq!(response.get("status"), None);
        assert_eq!(response.get("patch"), None);
    }
}

#[test]
fn review_without_request_is_reported_in_the_outcome() {
    let input = br#"{"request": {"kind": "AdmissionReview"}, "settings": null}"#;
    let outcome = validate_magic(input);
    assert_eq!(outcome["response"], Value::Null);
    assert_eq!(outcome["error"], text("request not set in AdmissionReview"));
}

#[test]
fn request_without_object_is_reported_in_the_outcome() {
    let input = br#"{"request": {"request": {"uid": "u"}}, "settings": null}"#;
    let outcome = validate_magic(input);
    assert_eq!(outcome["response"], Value::Null);
    assert_eq!(outcome["error"], text("no object in admission request"));
}

#[test]
fn mutator_hands_back_the_whole_new_object() {
    let outcome = mutate_magic(&admission_envelope("u-3", vec![("a", "b")]));
    assert_eq!(outcome["error"], Value::Null);
    let response = &outcome["response"]["response"];
    assert_eq!(response["uid"], text("u-3"));
    assert_eq!(response["allowed"], Value::Bool(true));
    assert_eq!(response["patchType"], text("Full"));
    let patch = base64::decode(response["patch"].as_str().unwrap()).unwrap();
    let mutated: ConfigMap = serde_json::from_slice(&patch).unwrap();
    let data = mutated.data.unwrap();
    assert_eq!(data.get("a"), Some(&"b".to_string()));
    assert_eq!(data.get("magic-value"), Some(&"foobar".to_string()));
    assert_eq!(data.len(), 2);
    assert_eq!(mutated.metadata.name, Some("cm".to_string()));
}

#[test]
fn contains_text_finds_whole_items_only() {
    let items = vec!["magic".to_string(), "magic-group".to_string(), String::new()];
    assert!(contains_text(&items, "magic-group"));
    assert!(contains_text(&items, "magic"));
    assert!(contains_text(&items, ""));
    assert!(!contains_text(&items, "magic-"));
    assert!(!contains_text(&items, "group"));
    assert!(!contains_text(&Vec::new(), "magic-group"));
}

#[test]
fn magic_authenticator_decides_without_a_runner() {
    let mut review = TokenReview::default();
    review.spec.token = Some("magic-token".to_string());
    let answer = MagicAuthenticator::authenticate(review, None).unwrap();
    assert_eq!(
        answer,
        TokenReview {
            spec: TokenReviewSpec { audiences: None, token: None },
            status: Some(TokenReviewStatus {
                audiences: None,
                authenticated: Some(true),
                error: None,
                user: Some(UserInfo {
                    extra: None,
                    groups: Some(vec!["magic-group".to_string()]),
                    uid: Some("0".to_string()),
                    username: Some("magic-user".to_string()),
                }),
            }),
        }
    );
    assert_eq!(
        MagicAuthenticator::authenticate(TokenReview::default(), Some(())),
        Err(ReviewError::NoToken)
    );
}

#[test]
fn magic_authorizer_needs_both_group_and_resource() {
    let spec = |groups: Option<Vec<&str>>, resource: Option<Option<&str>>| SubjectAccessReviewSpec {
        extra: None,
        groups: groups.map(|g| g.into_iter().map(str::to_string).collect()),
        non_resource_attributes: None,
        resource_attributes: resource.map(|r| ResourceAttributes {
            group: None,
            name: None,
            namespace: None,
            resource: r.map(str::to_string),
            subresource: None,
            verb: None,
            version: None,
        }),
        uid: None,
        user: None,
    };
    assert!(MagicAuthorizer::decide(&spec(Some(vec!["magic-group"]), Some(Some("configmaps")))));
    assert!(MagicAuthorizer::decide(&spec(Some(vec!["a", "magic-group"]), Some(Some("configmaps")))));
    assert!(!MagicAuthorizer::decide(&spec(None, Some(Some("configmaps")))));
    assert!(!MagicAuthorizer::decide(&spec(Some(vec![]), Some(Some("configmaps")))));
    assert!(!MagicAuthorizer::decide(&spec(Some(vec!["magic-group"]), Some(Some("pods")))));
    assert!(!MagicAuthorizer::decide(&spec(Some(vec!["magic-group"]), Some(None))));
    assert!(!MagicAuthorizer::decide(&spec(Some(vec!["magic-group"]), None)));
    let review = SubjectAccessReview {
        spec: spec(Some(vec!["magic-group"]), Some(Some("configmaps"))),
        status: None,
    };
    let answer = MagicAuthorizer::authorize(review, ()).unwrap();
    assert_eq!(answer.spec, SubjectAccessReviewSpec::default());
    assert_eq!(
        answer.status,
        Some(SubjectAccessReviewStatus {
            allowed: true,
            denied: Some(false),
            evaluation_error: None,
            reason: None,
        })
    );
}

#[test]
fn magic_validator_decides_by_the_keys() {
    let forbidden = Some(vec!["a".to_string(), "not-allowed-value".to_string()]);
    assert_eq!(
        MagicValidator::decide("u".to_string(), &forbidden),
        AdmissionReview::reject_with_message(
            "u".to_string(),
            "value 'not-allowed-value' not allowed in configmap".to_string()
        )
    );
    let harmless = Some(vec!["a".to_string()]);
    assert_eq!(
        MagicValidator::decide("u".to_string(), &harmless),
        AdmissionReview::accept("u".to_string())
    );
    assert_eq!(
        MagicValidator::decide("u".to_string(), &None),
        AdmissionReview::accept("u".to_string())
    );
}

#[test]
fn magic_validator_reports_a_payload_that_is_no_config_map() {
    let input = br#"{"request": {"request": {"uid": "u", "object": {"data": 7}}}, "settings": null}"#;
    let words = serde_json::from_slice::<ConfigMap>(br#"{"data": 7}"#).unwrap_err();
    let outcome = validate_magic(input);
    assert_eq!(outcome["response"], Value::Null);
    assert!(!outcome["error"].as_str().unwrap().is_empty());
    assert!(words.to_string().starts_with("invalid type"));
    assert!(outcome["error"].as_str().unwrap().starts_with("invalid type"));
}
