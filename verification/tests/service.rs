use policy_controller::admission::{decode, json_response, reply, review, AdmissionService, Error};
use policy_controller::index::Index;
use policy_controller::labels::Selector;
use policy_controller::policy::{FromDocument, Port, ServerSpec};
use policy_controller::review::{AdmissionResponse, AdmissionReview, TypeMeta};

const UID: &str = "0c9a8d74-9cb7-44dd-b98e-09fd62def2f4";

fn review_body(group: &str, kind: &str, object: &str) -> Vec<u8> {
    format!(
        r#"{{"kind":"AdmissionReview","apiVersion":"admission.k8s.io/v1","request":{{"uid":"{UID}","kind":{{"group":"{group}","version":"v1beta1","kind":"{kind}"}},"resource":{{"group":"{group}","version":"v1beta1","resource":"things"}},"name":"b","namespace":"ns1","operation":"CREATE","userInfo":{{"username":"admin"}},"object":{object},"oldObject":null,"dryRun":false}}}}"#
    )
    .into_bytes()
}

fn server_object(ns: &str, name: &str, spec: &str) -> String {
    format!(
        r#"{{"apiVersion":"policy.example.io/v1beta1","kind":"Server","metadata":{{"name":"{name}","namespace":"{ns}"}},"spec":{spec}}}"#
    )
}

fn service() -> AdmissionService {
    let spec = ServerSpec {
        pod_selector: Selector {
            match_labels: Some(vec![("app".to_string(), "foo".to_string())]),
            match_expressions: None,
        },
        port: Port::Number(8080),
    };
    AdmissionService { index: Index::new().apply_server("ns1", "a", spec) }
}

fn answer(body: &[u8]) -> serde_json::Value {
    let answer = service().call("POST", "/", body).unwrap();
    assert_eq!(answer.status, 200);
    assert_eq!(answer.content_type.as_deref(), Some("application/json"));
    serde_json::from_slice(&answer.body).unwrap()
}

#[test]
fn wrong_route_is_not_found() {
    let review = review_body(
        "policy.example.io",
        "Server",
        &server_object("ns1", "b", r#"{"port":8080,"podSelector":{"matchLabels":{"app":"foo"}}}"#),
    );
    let bodies: [&[u8]; 4] = [b"", b"{}", b"\xff\xfe not json", &review];
    for body in bodies {
        for (method, path) in [("GET", "/"), ("PUT", "/"), ("post", "/"), ("POST", "/admit"), ("POST", ""), ("", "/")] {
            let answer = service().call(method, path, body).unwrap();
            assert_eq!(answer.status, 404);
            assert_eq!(answer.content_type, None);
            assert!(answer.body.is_empty());
        }
    }
}

#[test]
fn only_post_to_the_root_asks_admission() {
    assert!(AdmissionService::routes("POST", "/"));
    assert!(!AdmissionService::routes("GET", "/"));
    assert!(!AdmissionService::routes("POST", "//"));
    assert!(!AdmissionService::routes("POST", "/v1"));
    assert!(!AdmissionService::routes("Post", "/"));
}

#[test]
fn conflicting_server_is_denied_on_the_wire() {
    let body = review_body(
        "policy.example.io",
        "Server",
        &server_object("ns1", "b", r#"{"port":8080,"podSelector":{"matchLabels":{"app":"foo"}}}"#),
    );
    let review = answer(&body);
    assert_eq!(review["apiVersion"], "admission.k8s.io/v1");
    assert_eq!(review["kind"], "AdmissionReview");
    assert!(review.get("request").is_none());
    assert_eq!(review["response"]["uid"], UID);
    assert_eq!(review["response"]["allowed"], false);
    assert_eq!(review["response"]["status"]["message"], "identical server spec already exists");
}

#[test]
fn other_server_is_allowed_on_the_wire() {
    for spec in [
        r#"{"port":8080,"podSelector":{"matchLabels":{"app":"bar"}}}"#,
        r#"{"port":8081,"podSelector":{"matchLabels":{"app":"foo"}}}"#,
        r#"{"port":"8080","podSelector":{"matchLabels":{"app":"foo"}}}"#,
        r#"{"port":8080,"podSelector":{"matchLabels":{"app":"foo"},"matchExpressions":[]}}"#,
        r#"{"port":8080,"podSelector":{"matchLabels":{"app":"foo","tier":"web"}}}"#,
    ] {
        let body = review_body("policy.example.io", "Server", &server_object("ns1", "b", spec));
        let review = answer(&body);
        assert_eq!(review["response"]["uid"], UID);
        assert_eq!(review["response"]["allowed"], true, "{spec}");
    }
    let spec = r#"{"port":8080,"podSelector":{"matchLabels":{"app":"foo"}}}"#;
    for (ns, name) in [("ns2", "b"), ("ns1", "a")] {
        let body = review_body("policy.example.io", "Server", &server_object(ns, name, spec));
        assert_eq!(answer(&body)["response"]["allowed"], true);
    }
}

#[test]
fn port_must_be_a_port_on_the_wire() {
    for port in ["65536", "-1", "80.5", "true", "null", "[80]", "18446744073709551616"] {
        let spec = format!(r#"{{"port":{port},"podSelector":{{}}}}"#);
        let body = review_body("policy.example.io", "Server", &server_object("ns1", "b", &spec));
        let review = answer(&body);
        assert_eq!(review["response"]["allowed"], false, "{port}");
        assert_eq!(review["response"]["status"]["reason"], "invalid value for field `port`");
        assert_eq!(review["response"]["uid"], UID);
    }
    for port in ["0", "65535", "\"http\""] {
        let spec = format!(r#"{{"port":{port},"podSelector":{{}}}}"#);
        let body = review_body("policy.example.io", "Server", &server_object("ns1", "b", &spec));
        assert_eq!(answer(&body)["response"]["allowed"], true, "{port}");
    }
}

#[test]
fn authorization_policy_is_judged_on_the_wire() {
    let object = |group: &str, kind: &str| {
        format!(
            r#"{{"metadata":{{"name":"authz","namespace":"ns1"}},"spec":{{"targetRef":{{"group":"{group}","kind":"{kind}","name":"web"}}}}}}"#
        )
    };
    let body = review_body("policy.example.io", "AuthorizationPolicy", &object("policy.example.io", "Server"));
    assert_eq!(answer(&body)["response"]["allowed"], true);
    let body = review_body("policy.example.io", "AuthorizationPolicy", &object("apps", "Deployment"));
    let review = answer(&body);
    assert_eq!(review["response"]["allowed"], false);
    assert_eq!(review["response"]["status"]["message"], "targetRef must be a policy-group Server");
}

#[test]
fn unknown_type_is_refused_on_the_wire() {
    let body = review_body("other.io", "Widget", r#"{"metadata":{"name":"w","namespace":"ns1"}}"#);
    let review = answer(&body);
    assert_eq!(review["response"]["allowed"], false);
    assert_eq!(review["response"]["uid"], UID);
    assert_eq!(review["response"]["status"]["reason"], "unsupported resource type: other.io.v1beta1.Widget");
}

#[test]
fn object_without_spec_namespace_or_name_is_refused_on_the_wire() {
    let cases = [
        (r#"{"metadata":{"name":"b","namespace":"ns1"}}"#, "no 'spec' field set on server"),
        (r#"{"metadata":{"name":"b"},"spec":{}}"#, "no namespace set"),
        (r#"{"metadata":{"namespace":"ns1","generateName":"b-"},"spec":{}}"#, "no 'name' field set on server"),
        ("null", "missing server"),
    ];
    for (object, reason) in cases {
        let review = answer(&review_body("policy.example.io", "Server", object));
        assert_eq!(review["response"]["allowed"], false);
        assert_eq!(review["response"]["status"]["reason"], reason);
        assert_eq!(review["response"]["uid"], UID);
    }
}

#[test]
fn body_that_is_no_review_is_refused() {
    let bodies: [&[u8]; 4] = [b"", b"not json", b"{}", br#"{"kind":"AdmissionReview","apiVersion":"admission.k8s.io/v1","request":{"uid":"1"}}"#];
    for body in bodies {
        let review = answer(body);
        assert_eq!(review["apiVersion"], "admission.k8s.io/v1beta1");
        assert_eq!(review["kind"], "AdmissionReview");
        assert_eq!(review["response"]["uid"], "");
        assert_eq!(review["response"]["allowed"], false);
        assert!(!review["response"]["status"]["reason"].as_str().unwrap().is_empty());
    }
    let review = answer(br#"{"kind":"AdmissionReview","apiVersion":"admission.k8s.io/v1","request":{"uid":"1"}}"#);
    assert!(review["response"]["status"]["reason"].as_str().unwrap().starts_with("missing field `kind`"));
}

#[test]
fn review_without_request_is_refused() {
    let review = answer(br#"{"kind":"AdmissionReview","apiVersion":"admission.k8s.io/v1"}"#);
    assert_eq!(review["apiVersion"], "admission.k8s.io/v1beta1");
    assert_eq!(review["response"]["uid"], "");
    assert_eq!(review["response"]["allowed"], false);
    assert_eq!(
        review["response"]["status"]["reason"],
        "failed to convert AdmissionReview into AdmissionRequest"
    );
}

#[test]
fn review_takes_what_was_read() {
    let types = || TypeMeta { api_version: "admission.k8s.io/v1".to_string(), kind: "AdmissionReview".to_string() };
    let rsp = review(Err("expected value at line 1 column 1".to_string()), &Index::new());
    assert!(!rsp.allowed);
    assert_eq!(rsp.uid, "");
    assert_eq!(rsp.reason.as_deref(), Some("expected value at line 1 column 1"));
    assert_eq!(rsp.message, None);
    assert_eq!(rsp.types.api_version, "admission.k8s.io/v1beta1");
    assert_eq!(rsp.types.kind, "AdmissionReview");
    let rsp = review(Ok(AdmissionReview { types: types(), request: None }), &Index::new());
    assert!(!rsp.allowed);
    assert_eq!(rsp.reason.as_deref(), Some("failed to convert AdmissionReview into AdmissionRequest"));
}

#[test]
fn reply_wraps_bytes_and_failures() {
    let answer = reply(Ok(b"{}".to_vec())).unwrap();
    assert_eq!(answer.status, 200);
    assert_eq!(answer.content_type.as_deref(), Some("application/json"));
    assert_eq!(answer.body, b"{}");
    match reply(Err("key must be a string".to_string())) {
        Err(Error::Json(text)) => assert_eq!(text, "key must be a string"),
        other => panic!("{other:?}"),
    }
}

#[test]
fn json_response_writes_the_review() {
    let rsp = AdmissionResponse {
        types: TypeMeta { api_version: "admission.k8s.io/v1".to_string(), kind: "AdmissionReview".to_string() },
        uid: "42".to_string(),
        allowed: false,
        reason: None,
        message: Some("no \"quotes\" allowed".to_string()),
    };
    let answer = json_response(&rsp).unwrap();
    assert_eq!(answer.status, 200);
    let review: serde_json::Value = serde_json::from_slice(&answer.body).unwrap();
    assert_eq!(review["apiVersion"], "admission.k8s.io/v1");
    assert_eq!(review["kind"], "AdmissionReview");
    assert_eq!(review["response"]["uid"], "42");
    assert_eq!(review["response"]["allowed"], false);
    assert_eq!(review["response"]["status"]["message"], "no \"quotes\" allowed");
    assert!(review["response"]["status"].get("reason").is_none());

    let allowed = AdmissionResponse { allowed: true, message: None, ..rsp };
    let review: serde_json::Value = serde_json::from_slice(&json_response(&allowed).unwrap().body).unwrap();
    assert_eq!(review["response"]["allowed"], true);
    assert!(review["response"]["status"].get("message").is_none());
}

#[test]
fn labels_and_values_are_read_from_the_wire() {
    let index = Index::new().apply_server(
        "ns1",
        "a",
        ServerSpec {
            pod_selector: Selector {
                match_labels: Some(vec![
                    ("tier".to_string(), "web".to_string()),
                    ("app".to_string(), "foo".to_string()),
                ]),
                match_expressions: Some(vec![policy_controller::labels::Expression {
                    key: "env".to_string(),
                    operator: policy_controller::labels::Operator::In,
                    values: Some(vec!["prod".to_string(), "staging".to_string()]),
                }]),
            },
            port: Port::Name("http".to_string()),
        },
    );
    let service = AdmissionService { index };
    let spec = r#"{"port":"http","podSelector":{"matchLabels":{"app":"foo","tier":"web"},"matchExpressions":[{"key":"env","operator":"In","values":["staging","prod","prod"]}]}}"#;
    let body = review_body("policy.example.io", "Server", &server_object("ns1", "b", spec));
    let answer = service.call("POST", "/", &body).unwrap();
    let review: serde_json::Value = serde_json::from_slice(&answer.body).unwrap();
    assert_eq!(review["response"]["allowed"], false);
    assert_eq!(review["response"]["status"]["message"], "identical server spec already exists");

    let spec = r#"{"port":"http","podSelector":{"matchLabels":{"app":"foo","tier":"web"},"matchExpressions":[{"key":"env","operator":"NotIn","values":["staging","prod"]}]}}"#;
    let body = review_body("policy.example.io", "Server", &server_object("ns1", "b", spec));
    let answer = service.call("POST", "/", &body).unwrap();
    let review: serde_json::Value = serde_json::from_slice(&answer.body).unwrap();
    assert_eq!(review["response"]["allowed"], true);
}

#[test]
fn body_is_read_as_a_review() {
    let body = review_body(
        "policy.example.io",
        "Server",
        &server_object("ns1", "b", r#"{"port":8080,"podSelector":{"matchLabels":{"app":"foo"}}}"#),
    );
    let review = decode(&body).unwrap();
    assert_eq!(review.types.api_version, "admission.k8s.io/v1");
    assert_eq!(review.types.kind, "AdmissionReview");
    let request = review.request.unwrap();
    assert_eq!(request.uid, UID);
    assert_eq!(request.kind.group, "policy.example.io");
    assert_eq!(request.kind.version, "v1beta1");
    assert_eq!(request.kind.kind, "Server");
    let object = request.object.unwrap();
    assert_eq!(object.name.as_deref(), Some("b"));
    assert_eq!(object.namespace.as_deref(), Some("ns1"));
    let spec = ServerSpec::from_document(object.data.get("spec").unwrap()).unwrap();
    assert!(spec.port == Port::Number(8080));
    assert_eq!(spec.pod_selector.match_labels, Some(vec![("app".to_string(), "foo".to_string())]));

    let review = decode(br#"{"kind":"AdmissionReview","apiVersion":"admission.k8s.io/v1"}"#).unwrap();
    assert!(review.request.is_none());
    assert!(decode(b"").unwrap_err().starts_with("EOF while parsing"));
    assert!(decode(b"{}").unwrap_err().starts_with("missing field"));
}

#[test]
fn object_without_namespace_is_refused_whatever_else_it_holds() {
    for object in [
        r#"{"metadata":{"name":"b"}}"#,
        r#"{"metadata":{"name":"b"},"spec":{"port":8080,"podSelector":{}}}"#,
        r#"{"metadata":{},"spec":7}"#,
    ] {
        for kind in ["Server", "AuthorizationPolicy"] {
            let review = answer(&review_body("policy.example.io", kind, object));
            assert_eq!(review["response"]["allowed"], false);
            assert!(review["response"]["status"]["reason"].as_str().unwrap().contains("no namespace set"));
        }
    }
}
