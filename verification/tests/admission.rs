use policy_controller::admission::{
    admit_authz_policy, admit_request, admit_server, parse_spec, validate_authz_policy, validate_server,
    ParseError, BAD_TARGET_REF, IDENTICAL_SERVER,
};
use policy_controller::document::Document;
use policy_controller::index::Index;
use policy_controller::labels::Selector;
use policy_controller::policy::{AuthorizationPolicySpec, LocalTargetRef, Port, ServerSpec};
use policy_controller::review::{AdmissionRequest, DynamicObject, GroupVersionKind, TypeMeta};
use policy_controller::schema::{Field, SchemaError};

fn text(value: &str) -> Document {
    Document::String(value.to_string())
}

fn object(members: Vec<(&str, Document)>) -> Document {
    Document::Object(members.into_iter().map(|(key, member)| (key.to_string(), member)).collect())
}

fn selector(labels: &[(&str, &str)]) -> Selector {
    Selector {
        match_labels: Some(labels.iter().map(|(key, value)| (key.to_string(), value.to_string())).collect()),
        match_expressions: None,
    }
}

fn server(port: u16, labels: &[(&str, &str)]) -> ServerSpec {
    ServerSpec { pod_selector: selector(labels), port: Port::Number(port) }
}

fn server_document(port: Document, labels: &[(&str, &str)]) -> Document {
    let labels = labels.iter().map(|(key, value)| (*key, text(value))).collect();
    object(vec![("podSelector", object(vec![("matchLabels", object(labels))])), ("port", port)])
}

fn target_ref_document(group: Option<&str>, kind: &str) -> Document {
    let mut members = Vec::new();
    if let Some(group) = group {
        members.push(("group", text(group)));
    }
    members.push(("kind", text(kind)));
    members.push(("name", text("web")));
    object(vec![("targetRef", object(members))])
}

fn request(group: &str, kind: &str, ns: Option<&str>, name: Option<&str>, data: Document) -> AdmissionRequest {
    AdmissionRequest {
        types: TypeMeta { api_version: "admission.k8s.io/v1".to_string(), kind: "AdmissionReview".to_string() },
        uid: "705ab4f5-6393-11e8-b7cc-42010a800002".to_string(),
        kind: GroupVersionKind { group: group.to_string(), version: "v1beta1".to_string(), kind: kind.to_string() },
        object: Some(DynamicObject {
            name: name.map(|name| name.to_string()),
            namespace: ns.map(|ns| ns.to_string()),
            data,
        }),
    }
}

fn server_request(ns: &str, name: &str, port: u16, labels: &[(&str, &str)]) -> AdmissionRequest {
    let spec = server_document(Document::Number(Some(port as u64)), labels);
    request("policy.example.io", "Server", Some(ns), Some(name), object(vec![("spec", spec)]))
}

fn index_with_a() -> Index {
    Index::new().apply_server("ns1", "a", server(8080, &[("app", "foo")]))
}

#[test]
fn identical_server_in_namespace_is_denied() {
    let rsp = admit_request(server_request("ns1", "b", 8080, &[("app", "foo")]), &index_with_a());
    assert!(!rsp.allowed);
    assert_eq!(rsp.message.as_deref(), Some("identical server spec already exists"));
    assert_eq!(rsp.reason, None);
    assert_eq!(rsp.uid, "705ab4f5-6393-11e8-b7cc-42010a800002");
    assert_eq!(rsp.types.api_version, "admission.k8s.io/v1");
    assert_eq!(rsp.types.kind, "AdmissionReview");
}

#[test]
fn server_with_other_selector_is_allowed() {
    let rsp = admit_request(server_request("ns1", "b", 8080, &[("app", "bar")]), &index_with_a());
    assert!(rsp.allowed);
    assert_eq!(rsp.message, None);
    assert_eq!(rsp.reason, None);
    assert_eq!(rsp.uid, "705ab4f5-6393-11e8-b7cc-42010a800002");
}

#[test]
fn server_with_other_port_is_allowed() {
    let rsp = admit_request(server_request("ns1", "b", 8081, &[("app", "foo")]), &index_with_a());
    assert!(rsp.allowed);
}

#[test]
fn identical_server_in_other_namespace_is_allowed() {
    let rsp = admit_request(server_request("ns2", "b", 8080, &[("app", "foo")]), &index_with_a());
    assert!(rsp.allowed);
    let rsp = admit_server(server_request("ns2", "b", 8080, &[("app", "foo")]), &Index::new());
    assert!(rsp.allowed);
}

#[test]
fn server_is_not_held_against_its_own_name() {
    let same = Index::new().apply_server("ns1", "web", server(8080, &[("app", "web")]));
    let rsp = admit_request(server_request("ns1", "web", 8080, &[("app", "web")]), &same);
    assert!(rsp.allowed);
    let other = Index::new().apply_server("ns1", "web", server(9090, &[("app", "other")]));
    let rsp = admit_request(server_request("ns1", "web", 8080, &[("app", "web")]), &other);
    assert!(rsp.allowed);
}

#[test]
fn deleted_server_is_no_longer_held_against_others() {
    let index = index_with_a().delete_server("ns1", "a");
    let rsp = admit_request(server_request("ns1", "b", 8080, &[("app", "foo")]), &index);
    assert!(rsp.allowed);
}

#[test]
fn server_is_held_against_every_other_name() {
    let index = Index::new()
        .apply_server("ns1", "web", server(8080, &[("app", "web")]))
        .apply_server("ns1", "first", server(1, &[("app", "web")]))
        .apply_server("ns1", "last", server(8080, &[("app", "web")]));
    let rsp = admit_request(server_request("ns1", "web", 8080, &[("app", "web")]), &index);
    assert!(!rsp.allowed);
    assert_eq!(rsp.message.as_deref(), Some(IDENTICAL_SERVER));
}

#[test]
fn named_port_is_not_a_numbered_port() {
    let index = Index::new().apply_server(
        "ns1",
        "a",
        ServerSpec { pod_selector: selector(&[("app", "foo")]), port: Port::Name("8080".to_string()) },
    );
    assert!(validate_server("ns1", "b", server(8080, &[("app", "foo")]), &index).is_ok());
    let named = ServerSpec { pod_selector: selector(&[("app", "foo")]), port: Port::Name("8080".to_string()) };
    assert_eq!(validate_server("ns1", "b", named, &index).unwrap_err(), IDENTICAL_SERVER);
}

#[test]
fn checking_twice_gives_the_same_response() {
    let index = index_with_a();
    for labels in [[("app", "foo")], [("app", "bar")]] {
        let first = admit_request(server_request("ns1", "b", 8080, &labels), &index);
        let second = admit_request(server_request("ns1", "b", 8080, &labels), &index);
        assert_eq!(first.allowed, second.allowed);
        assert_eq!(first.message, second.message);
        assert_eq!(first.reason, second.reason);
        assert_eq!(first.uid, second.uid);
        assert_eq!(first.types.api_version, second.types.api_version);
        assert_eq!(first.types.kind, second.types.kind);
    }
}

#[test]
fn authorization_policy_must_target_a_policy_server() {
    let allowed = request(
        "policy.example.io",
        "AuthorizationPolicy",
        Some("ns1"),
        Some("authz"),
        object(vec![("spec", target_ref_document(Some("policy.example.io"), "Server"))]),
    );
    let rsp = admit_request(allowed, &Index::new());
    assert!(rsp.allowed);
    assert_eq!(rsp.message, None);

    let denied = request(
        "policy.example.io",
        "AuthorizationPolicy",
        Some("ns1"),
        Some("authz"),
        object(vec![("spec", target_ref_document(Some("apps"), "Deployment"))]),
    );
    let rsp = admit_authz_policy(denied);
    assert!(!rsp.allowed);
    assert_eq!(rsp.message.as_deref(), Some("targetRef must be a policy-group Server"));
    assert_eq!(rsp.uid, "705ab4f5-6393-11e8-b7cc-42010a800002");
}

#[test]
fn target_ref_needs_both_group_and_kind() {
    let spec = |group: Option<&str>, kind: &str| AuthorizationPolicySpec {
        target_ref: LocalTargetRef {
            group: group.map(|group| group.to_string()),
            kind: kind.to_string(),
            name: "web".to_string(),
        },
    };
    assert!(validate_authz_policy(spec(Some("policy.example.io"), "Server")).is_ok());
    assert_eq!(validate_authz_policy(spec(None, "Server")).unwrap_err(), BAD_TARGET_REF);
    assert_eq!(validate_authz_policy(spec(Some("policy.example.io"), "server")).unwrap_err(), BAD_TARGET_REF);
    assert_eq!(validate_authz_policy(spec(Some("apps"), "Server")).unwrap_err(), BAD_TARGET_REF);
    assert_eq!(validate_authz_policy(spec(Some(""), "Server")).unwrap_err(), BAD_TARGET_REF);
}

#[test]
fn unknown_type_is_refused() {
    let req = request("other.io", "Widget", Some("ns1"), Some("w"), object(vec![]));
    let rsp = admit_request(req, &index_with_a());
    assert!(!rsp.allowed);
    assert_eq!(rsp.reason.as_deref(), Some("unsupported resource type: other.io.v1beta1.Widget"));
    assert_eq!(rsp.message, None);
    assert_eq!(rsp.uid, "705ab4f5-6393-11e8-b7cc-42010a800002");
}

#[test]
fn group_and_kind_must_both_match() {
    let spec = server_document(Document::Number(Some(8080)), &[("app", "foo")]);
    let req = request("other.io", "Server", Some("ns1"), Some("b"), object(vec![("spec", spec)]));
    let rsp = admit_request(req, &index_with_a());
    assert_eq!(rsp.reason.as_deref(), Some("unsupported resource type: other.io.v1beta1.Server"));
    let req = request("policy.example.io", "Widget", Some("ns1"), Some("b"), object(vec![]));
    let rsp = admit_request(req, &index_with_a());
    assert_eq!(rsp.reason.as_deref(), Some("unsupported resource type: policy.example.io.v1beta1.Widget"));
}

#[test]
fn version_does_not_choose_the_rule() {
    let mut req = server_request("ns1", "b", 8080, &[("app", "foo")]);
    req.kind.version = "v9".to_string();
    let rsp = admit_request(req, &index_with_a());
    assert_eq!(rsp.message.as_deref(), Some(IDENTICAL_SERVER));
}

#[test]
fn missing_spec_is_refused() {
    for kind in ["Server", "AuthorizationPolicy"] {
        let req = request("policy.example.io", kind, Some("ns1"), Some("b"), object(vec![]));
        let rsp = admit_request(req, &index_with_a());
        assert!(!rsp.allowed);
        assert_eq!(rsp.reason.as_deref(), Some("no 'spec' field set on server"));
        assert_eq!(rsp.uid, "705ab4f5-6393-11e8-b7cc-42010a800002");
    }
}

#[test]
fn missing_namespace_is_refused() {
    let spec = server_document(Document::Number(Some(8080)), &[("app", "foo")]);
    let req = request("policy.example.io", "Server", None, Some("b"), object(vec![("spec", spec)]));
    let rsp = admit_request(req, &index_with_a());
    assert!(!rsp.allowed);
    assert_eq!(rsp.reason.as_deref(), Some("no namespace set"));
}

#[test]
fn parse_spec_reports_the_first_fault() {
    let spec = || server_document(Document::Number(Some(8080)), &[("app", "foo")]);
    let mut req = request("policy.example.io", "Server", None, None, object(vec![]));
    req.object = None;
    assert_eq!(parse_spec::<ServerSpec>(req).unwrap_err(), ParseError::MissingObject);
    let req = request("policy.example.io", "Server", None, None, object(vec![]));
    assert_eq!(parse_spec::<ServerSpec>(req).unwrap_err(), ParseError::MissingNamespace);
    let req = request("policy.example.io", "Server", Some("ns1"), None, object(vec![]));
    assert_eq!(parse_spec::<ServerSpec>(req).unwrap_err(), ParseError::MissingName);
    let req = request("policy.example.io", "Server", Some("ns1"), Some("b"), object(vec![]));
    assert_eq!(parse_spec::<ServerSpec>(req).unwrap_err(), ParseError::MissingSpec);
    let req = request("policy.example.io", "Server", Some("ns1"), Some("b"), object(vec![("spec", text("x"))]));
    assert_eq!(
        parse_spec::<ServerSpec>(req).unwrap_err(),
        ParseError::Schema(SchemaError::Invalid(Field::Spec))
    );
    let req = request("policy.example.io", "Server", Some("ns1"), Some("b"), object(vec![("spec", spec())]));
    let (ns, name, parsed) = parse_spec::<ServerSpec>(req).unwrap();
    assert_eq!(ns, "ns1");
    assert_eq!(name, "b");
    assert!(parsed == server(8080, &[("app", "foo")]));
}

#[test]
fn parse_errors_have_their_texts() {
    assert_eq!(ParseError::MissingObject.message(), "missing server");
    assert_eq!(ParseError::MissingNamespace.message(), "no namespace set");
    assert_eq!(ParseError::MissingName.message(), "no 'name' field set on server");
    assert_eq!(ParseError::MissingSpec.message(), "no 'spec' field set on server");
    assert_eq!(ParseError::Schema(SchemaError::Missing(Field::Port)).message(), "missing field `port`");
}

#[test]
fn malformed_spec_is_refused_with_the_field() {
    let spec = object(vec![("podSelector", object(vec![]))]);
    let req = request("policy.example.io", "Server", Some("ns1"), Some("b"), object(vec![("spec", spec)]));
    let rsp = admit_request(req, &index_with_a());
    assert!(!rsp.allowed);
    assert_eq!(rsp.reason.as_deref(), Some("missing field `port`"));

    let spec = object(vec![("targetRef", object(vec![("kind", text("Server"))]))]);
    let req =
        request("policy.example.io", "AuthorizationPolicy", Some("ns1"), Some("b"), object(vec![("spec", spec)]));
    let rsp = admit_request(req, &index_with_a());
    assert!(!rsp.allowed);
    assert_eq!(rsp.reason.as_deref(), Some("missing field `name`"));
}
