//! The admission service: it answers a review of a policy resource with
//! the decision whether the resource may be stored.

use vstd::prelude::*;
use vstd::string::*;
use crate::index::{Index, Servers, servers_in, servers_view};
use crate::policy::{
    AuthorizationPolicySpec, AuthorizationPolicySpecView, FromDocument, ServerSpec, ServerSpecView,
    AUTHORIZATION_POLICY_KIND, GROUP, SERVER_KIND,
};
use crate::review::{
    AdmissionRequest, AdmissionRequestView, AdmissionResponse, AdmissionResponseView, AdmissionReview,
    AdmissionReviewView, GroupVersionKind, GroupVersionKindView, CONVERT_ERROR,
};
use crate::schema::SchemaError;
use crate::text::reads;
use crate::wire::{decode_review, decoded_review, encode_response, encoded_response};

verus! {

/// The method of a call that asks for admission.
pub const METHOD: &'static str = "POST";

/// The path of a call that asks for admission.
pub const PATH: &'static str = "/";

/// The status of the answer to a call that asks for admission.
pub const STATUS_OK: u16 = 200;

/// The status of the answer to any other call.
pub const STATUS_NOT_FOUND: u16 = 404;

/// The content type of a review.
pub const CONTENT_TYPE_JSON: &'static str = "application/json";

/// Why an authorization policy is refused.
pub const BAD_TARGET_REF: &'static str = "targetRef must be a policy-group Server";

/// Why a server is refused.
pub const IDENTICAL_SERVER: &'static str = "identical server spec already exists";

/// Why an object without a namespace is refused.
pub const NO_NAMESPACE: &'static str = "no namespace set";

/// How the refusal of a resource of another type begins.
pub const UNSUPPORTED_TYPE: &'static str = "unsupported resource type: ";

/// Answers reviews of policy resources against the servers in `index`.
#[derive(Debug)]
pub struct AdmissionService {
    pub index: Index,
}

/// Why a call got no answer. Each variant holds the text of what went wrong.
#[derive(Debug)]
pub enum Error {
    /// The body of the call could not be read.
    Request(String),
    /// The answer could not be written as JSON.
    Json(String),
}

/// The answer to a call.
#[derive(Debug)]
pub struct Response {
    pub status: u16,
    pub content_type: Option<String>,
    pub body: Vec<u8>,
}

/// What a [`Response`] holds.
pub ghost struct ResponseView {
    pub status: u16,
    pub content_type: Option<Seq<char>>,
    pub body: Seq<u8>,
}

impl View for Response {
    type V = ResponseView;

    open spec fn view(&self) -> ResponseView {
        ResponseView {
            status: self.status,
            content_type: match self.content_type {
                Some(content_type) => Some(content_type@),
                None => None,
            },
            body: self.body@,
        }
    }
}

/// Why the object of a request cannot be judged.
#[derive(Clone, Copy, Debug, PartialEq, Eq, Structural)]
pub enum ParseError {
    /// The request has no object.
    MissingObject,
    /// The object has no namespace.
    MissingNamespace,
    /// The object has no name.
    MissingName,
    /// The object has no `spec`.
    MissingSpec,
    /// The `spec` is not one of the object's kind.
    Schema(SchemaError),
}

impl ParseError {
    /// The text of the error.
    pub open spec fn spec_message(self) -> Seq<char> {
        match self {
            ParseError::MissingObject => "missing server"@,
            ParseError::MissingNamespace => NO_NAMESPACE@,
            ParseError::MissingName => "no 'name' field set on server"@,
            ParseError::MissingSpec => "no 'spec' field set on server"@,
            ParseError::Schema(error) => error.spec_message(),
        }
    }

    /// The text of the error, as it is given to whoever asked for admission.
    pub fn message(self) -> (text: String)
        ensures
            text@ == self.spec_message(),
    {
        match self {
            ParseError::MissingObject => String::from_str("missing server"),
            ParseError::MissingNamespace => String::from_str(NO_NAMESPACE),
            ParseError::MissingName => String::from_str("no 'name' field set on server"),
            ParseError::MissingSpec => String::from_str("no 'spec' field set on server"),
            ParseError::Schema(error) => error.message(),
        }
    }
}

/// Whether a call with this method and path asks for admission.
pub open spec fn asks_admission(method: Seq<char>, path: Seq<char>) -> bool {
    method == METHOD@ && path == PATH@
}

/// The namespace, the name and the `spec` of the object of `request`, or
/// the first thing that is wrong with the object: the checks are made in
/// the order of the variants of [`ParseError`].
pub open spec fn parsed_spec<T: FromDocument>(request: AdmissionRequestView) -> Result<
    (Seq<char>, Seq<char>, T::V),
    ParseError,
> {
    match request.object {
        None => Err(ParseError::MissingObject),
        Some(object) => match object.namespace {
            None => Err(ParseError::MissingNamespace),
            Some(ns) => match object.name {
                None => Err(ParseError::MissingName),
                Some(name) => match object.data.get("spec"@) {
                    None => Err(ParseError::MissingSpec),
                    Some(data) => match T::decode(data) {
                        Err(error) => Err(ParseError::Schema(error)),
                        Ok(spec) => Ok((ns, name, spec)),
                    },
                },
            },
        },
    }
}

/// Whether an authorization policy guards a server of the policy group.
pub open spec fn targets_server(spec: AuthorizationPolicySpecView) -> bool {
    spec.target_ref.group == Some(GROUP@) && spec.target_ref.kind == SERVER_KIND@
}

/// Whether `servers` holds, under another name than `name`, a server with
/// the port and the selector of `spec`.
pub open spec fn conflicts(servers: Servers, name: Seq<char>, spec: ServerSpecView) -> bool {
    exists|i: int|
        0 <= i < servers.len() && servers[i].0 != name && servers[i].1.port == spec.port
            && servers[i].1.pod_selector == spec.pod_selector
}

/// The answer to a request for an authorization policy.
pub open spec fn authz_policy_response(request: AdmissionRequestView) -> AdmissionResponseView {
    let response = AdmissionResponseView::from_request(request);
    match parsed_spec::<AuthorizationPolicySpec>(request) {
        Err(error) => response.invalidate(error.spec_message()),
        Ok((_, _, spec)) => if targets_server(spec) {
            response
        } else {
            response.deny(BAD_TARGET_REF@)
        },
    }
}

/// The answer to a request for a server, given the servers in `index`.
pub open spec fn server_response(
    request: AdmissionRequestView,
    index: Seq<(Seq<char>, Servers)>,
) -> AdmissionResponseView {
    let response = AdmissionResponseView::from_request(request);
    match parsed_spec::<ServerSpec>(request) {
        Err(error) => response.invalidate(error.spec_message()),
        Ok((ns, name, spec)) => if conflicts(servers_in(index, ns), name, spec) {
            response.deny(IDENTICAL_SERVER@)
        } else {
            response
        },
    }
}

/// Why a resource of the type `kind` is refused.
pub open spec fn unsupported_text(kind: GroupVersionKindView) -> Seq<char> {
    UNSUPPORTED_TYPE@ + kind.group + "."@ + kind.version + "."@ + kind.kind
}

/// The answer to a request, given the servers in `index`. The group and
/// the kind of the object choose the rule; its version does not count.
pub open spec fn admission_response(
    request: AdmissionRequestView,
    index: Seq<(Seq<char>, Servers)>,
) -> AdmissionResponseView {
    if request.kind.group == GROUP@ && request.kind.kind == AUTHORIZATION_POLICY_KIND@ {
        authz_policy_response(request)
    } else if request.kind.group == GROUP@ && request.kind.kind == SERVER_KIND@ {
        server_response(request, index)
    } else {
        AdmissionResponseView::from_request(request).invalidate(unsupported_text(request.kind))
    }
}

/// The answer to what was read from the body of a call.
pub open spec fn review_response(
    decoded: Result<AdmissionReviewView, Seq<char>>,
    index: Seq<(Seq<char>, Servers)>,
) -> AdmissionResponseView {
    match decoded {
        Err(text) => AdmissionResponseView::invalid(text),
        Ok(review) => match review.request() {
            None => AdmissionResponseView::invalid(CONVERT_ERROR@),
            Some(request) => admission_response(request, index),
        },
    }
}

/// What was read from the body of a call, each part taken by its view.
pub open spec fn decoded_view(decoded: Result<AdmissionReview, String>) -> Result<
    AdmissionReviewView,
    Seq<char>,
> {
    match decoded {
        Ok(review) => Ok(review@),
        Err(text) => Err(text@),
    }
}

/// The answer to a call that asks for admission, given the bytes of the
/// review that answers it.
pub open spec fn json_reply(bytes: Seq<u8>) -> ResponseView {
    ResponseView { status: STATUS_OK, content_type: Some(CONTENT_TYPE_JSON@), body: bytes }
}

/// The answer to a call that does not ask for admission.
pub open spec fn not_found_reply() -> ResponseView {
    ResponseView { status: STATUS_NOT_FOUND, content_type: None, body: Seq::empty() }
}

/// Takes the namespace, the name and the `spec` out of the object of a
/// request.
pub fn parse_spec<T: FromDocument>(req: AdmissionRequest) -> (parsed: Result<(String, String, T), ParseError>)
    ensures
        match parsed {
            Ok((ns, name, spec)) => parsed_spec::<T>(req@) == Ok::<_, ParseError>((ns@, name@, spec@)),
            Err(error) => parsed_spec::<T>(req@) == Err::<(Seq<char>, Seq<char>, T::V), _>(error),
        },
{
    let obj = match req.object {
        Some(obj) => obj,
        None => {
            return Err(ParseError::MissingObject);
        },
    };
    let ns = match obj.namespace {
        Some(ns) => ns,
        None => {
            return Err(ParseError::MissingNamespace);
        },
    };
    let name = match obj.name {
        Some(name) => name,
        None => {
            return Err(ParseError::MissingName);
        },
    };
    let data = match obj.data.get("spec") {
        Some(data) => data,
        None => {
            return Err(ParseError::MissingSpec);
        },
    };
    match T::from_document(data) {
        Ok(spec) => Ok((ns, name, spec)),
        Err(error) => Err(ParseError::Schema(error)),
    }
}

/// Judges an authorization policy: it must guard a server of the policy
/// group.
pub fn validate_authz_policy(spec: AuthorizationPolicySpec) -> (judged: Result<(), String>)
    ensures
        judged is Ok <==> targets_server(spec@),
        judged matches Err(text) ==> text@ == BAD_TARGET_REF@,
{
    let in_group = match &spec.target_ref.group {
        Some(group) => reads(group, GROUP),
        None => false,
    };
    if !in_group || !reads(&spec.target_ref.kind, SERVER_KIND) {
        return Err(String::from_str(BAD_TARGET_REF));
    }
    Ok(())
}

/// Judges a server against the servers of its namespace: none of them,
/// but the one of its own name, may have its port and its selector.
pub fn validate_server(ns: &str, name: &str, spec: ServerSpec, index: &Index) -> (judged: Result<(), String>)
    ensures
        judged is Err <==> conflicts(servers_in(index@, ns@), name@, spec@),
        judged matches Err(text) ==> text@ == IDENTICAL_SERVER@,
{
    if let Some(nsidx) = index.get_ns(ns) {
        let own = name.to_owned();
        let servers = nsidx.servers();
        let ghost view = servers_view(servers@);
        let mut i: usize = 0;
        while i < servers.len()
            invariant
                i <= servers.len(),
                own@ == name@,
                view == servers_view(servers@),
                view == servers_in(index@, ns@),
                forall|j: int|
                    0 <= j < i ==> !(view[j].0 != name@ && view[j].1.port == spec@.port && view[j].1.pod_selector
                        == spec@.pod_selector),
            decreases servers.len() - i,
        {
            let (srvname, srv) = &servers[i];
            if *srvname != own && srv.port == spec.port && srv.pod_selector == spec.pod_selector {
                assert(view[i as int].0 != name@ && view[i as int].1.port == spec@.port
                    && view[i as int].1.pod_selector == spec@.pod_selector);
                return Err(String::from_str(IDENTICAL_SERVER));
            }
            i += 1;
        }
    }
    Ok(())
}

/// Answers a request for an authorization policy.
pub fn admit_authz_policy(req: AdmissionRequest) -> (rsp: AdmissionResponse)
    ensures
        rsp@ == authz_policy_response(req@),
{
    let rsp = AdmissionResponse::from_request(&req);
    let (_, _, spec) = match parse_spec::<AuthorizationPolicySpec>(req) {
        Ok(parsed) => parsed,
        Err(error) => {
            return rsp.invalidate(error.message());
        },
    };
    match validate_authz_policy(spec) {
        Ok(()) => rsp,
        Err(error) => rsp.deny(error),
    }
}

/// Answers a request for a server.
pub fn admit_server(req: AdmissionRequest, index: &Index) -> (rsp: AdmissionResponse)
    ensures
        rsp@ == server_response(req@, index@),
{
    let rsp = AdmissionResponse::from_request(&req);
    let (ns, name, spec) = match parse_spec::<ServerSpec>(req) {
        Ok(parsed) => parsed,
        Err(error) => {
            return rsp.invalidate(error.message());
        },
    };
    match validate_server(ns.as_str(), name.as_str(), spec, index) {
        Ok(()) => rsp,
        Err(error) => rsp.deny(error),
    }
}

/// The text that refuses a resource of the type `kind`.
fn unsupported(kind: &GroupVersionKind) -> (text: String)
    ensures
        text@ == unsupported_text(kind@),
{
    let mut text = String::from_str(UNSUPPORTED_TYPE);
    text.append(kind.group.as_str());
    text.append(".");
    text.append(kind.version.as_str());
    text.append(".");
    text.append(kind.kind.as_str());
    text
}

/// Answers a request: by the rule of its kind where the kind is one of the
/// policy resources, and with a refusal where it is not.
pub fn admit_request(req: AdmissionRequest, index: &Index) -> (rsp: AdmissionResponse)
    ensures
        rsp@ == admission_response(req@, index@),
{
    if reads(&req.kind.group, GROUP) && reads(&req.kind.kind, AUTHORIZATION_POLICY_KIND) {
        return admit_authz_policy(req);
    }
    if reads(&req.kind.group, GROUP) && reads(&req.kind.kind, SERVER_KIND) {
        return admit_server(req, index);
    }
    let text = unsupported(&req.kind);
    AdmissionResponse::from_request(&req).invalidate(text)
}

/// Reads the body of a call as a review. A body that is none gives the
/// text that says why.
pub fn decode(body: &[u8]) -> (decoded: Result<AdmissionReview, String>)
    ensures
        decoded_view(decoded) == decoded_review(body@),
{
    decode_review(body)
}

/// Answers what was read from the body of a call: a review with a request
/// is judged, and anything else is refused with the text that says why it
/// is none.
pub fn review(decoded: Result<AdmissionReview, String>, index: &Index) -> (rsp: AdmissionResponse)
    ensures
        rsp@ == review_response(decoded_view(decoded), index@),
{
    match decoded {
        Err(text) => AdmissionResponse::invalid(text),
        Ok(review) => match review.into_request() {
            Ok(req) => admit_request(req, index),
            Err(error) => AdmissionResponse::invalid(error.message()),
        },
    }
}

/// What stands for the bytes of a review, or for the failure to write them.
pub open spec fn encoded_view(encoded: Result<Vec<u8>, String>) -> Result<Seq<u8>, Seq<char>> {
    match encoded {
        Ok(bytes) => Ok(bytes@),
        Err(text) => Err(text@),
    }
}

/// Whether `answer` is the answer to a call that asked for admission,
/// given the bytes of the review that holds the decision, or the failure
/// to write them.
pub open spec fn answers(answer: Result<Response, Error>, encoded: Result<Seq<u8>, Seq<char>>) -> bool {
    match encoded {
        Ok(bytes) => answer matches Ok(response) && response@ == json_reply(bytes),
        Err(text) => answer matches Err(Error::Json(told)) && told@ == text,
    }
}

/// Makes the answer to a call from the bytes of a review, or the error
/// from the failure to write them.
pub fn reply(encoded: Result<Vec<u8>, String>) -> (answer: Result<Response, Error>)
    ensures
        answers(answer, encoded_view(encoded)),
{
    match encoded {
        Ok(bytes) => Ok(
            Response { status: STATUS_OK, content_type: Some(String::from_str(CONTENT_TYPE_JSON)), body: bytes },
        ),
        Err(text) => Err(Error::Json(text)),
    }
}

/// Writes the review that holds `rsp` as the answer to a call.
pub fn json_response(rsp: &AdmissionResponse) -> (answer: Result<Response, Error>)
    ensures
        answers(answer, encoded_response(rsp@)),
{
    reply(encode_response(rsp))
}

impl AdmissionService {
    /// Whether a call with this method and path asks for admission.
    pub fn routes(method: &str, path: &str) -> (asks: bool)
        ensures
            asks == asks_admission(method@, path@),
    {
        reads(&method.to_owned(), METHOD) && reads(&path.to_owned(), PATH)
    }

    /// Answers a call. A call that does not ask for admission is answered
    /// with "not found" and no body, whatever its own body holds. Any other
    /// is answered with the review that holds the decision; a body that is
    /// no review is refused in the same way.
    pub fn call(&self, method: &str, path: &str, body: &[u8]) -> (answer: Result<Response, Error>)
        ensures
            !asks_admission(method@, path@) ==> (answer matches Ok(response) && response@
                == not_found_reply()),
            asks_admission(method@, path@) ==> answers(
                answer,
                encoded_response(review_response(decoded_review(body@), self.index@)),
            ),
    {
        if !Self::routes(method, path) {
            return Ok(Response { status: STATUS_NOT_FOUND, content_type: None, body: Vec::new() });
        }
        let rsp = review(decode(body), &self.index);
        json_response(&rsp)
    }
}

} // verus!
