//! What holds of every decision.

use vstd::prelude::*;
use crate::admission::{
    admission_response, answers, authz_policy_response, conflicts, parsed_spec, server_response,
    unsupported_text, Error, ParseError, Response, NO_NAMESPACE, STATUS_OK, UNSUPPORTED_TYPE,
};
use crate::index::{Index, Servers, servers_in};
use crate::named::{lemma_position, lookup, names, position, stored};
use crate::policy::{FromDocument, ServerSpec, ServerSpecView, AUTHORIZATION_POLICY_KIND, GROUP, SERVER_KIND};
use crate::review::{AdmissionRequest, AdmissionRequestView, AdmissionResponseView};

verus! {

/// Judging the same request twice against the same servers gives the same
/// response.
pub proof fn lemma_recheck_gives_same_response(
    first: AdmissionRequest,
    second: AdmissionRequest,
    before: Index,
    after: Index,
)
    requires
        first@ == second@,
        before@ == after@,
    ensures
        admission_response(first@, before@) == admission_response(second@, after@),
{
}

/// A call that asks for admission has one answer: two answers to the same
/// outcome of writing the review hold the same, and an answer that is
/// given has the status "ok".
pub proof fn lemma_one_answer(
    first: Result<Response, Error>,
    second: Result<Response, Error>,
    encoded: Result<Seq<u8>, Seq<char>>,
)
    requires
        answers(first, encoded),
        answers(second, encoded),
    ensures
        match (first, second) {
            (Ok(one), Ok(other)) => one@ == other@ && one.status == STATUS_OK,
            (Err(Error::Json(one)), Err(Error::Json(other))) => one@ == other@,
            _ => false,
        },
{
}

/// A server is never refused for what is stored under its own name: the
/// decision is the same whatever that is.
pub proof fn lemma_own_name_does_not_count(
    servers: Servers,
    name: Seq<char>,
    spec: ServerSpecView,
    own: ServerSpecView,
)
    ensures
        conflicts(stored(servers, name, own), name, spec) == conflicts(servers, name, spec),
{
    let after = stored(servers, name, own);
    lemma_position(names(servers), name);
    if conflicts(after, name, spec) {
        let i = choose|i: int|
            0 <= i < after.len() && after[i].0 != name && after[i].1.port == spec.port
                && after[i].1.pod_selector == spec.pod_selector;
        assert(servers[i] == after[i]);
    }
    if conflicts(servers, name, spec) {
        let i = choose|i: int|
            0 <= i < servers.len() && servers[i].0 != name && servers[i].1.port == spec.port
                && servers[i].1.pod_selector == spec.pod_selector;
        assert(after[i] == servers[i]);
    }
}

/// A server is allowed where its namespace holds nothing but a server of
/// its own name.
pub proof fn lemma_alone_in_namespace(servers: Servers, name: Seq<char>, spec: ServerSpecView)
    requires
        forall|i: int| 0 <= i < servers.len() ==> servers[i].0 == name,
    ensures
        !conflicts(servers, name, spec),
{
}

/// A server is refused where its namespace holds, under another name, a
/// server with the same port and the same selector.
pub proof fn lemma_identical_server_conflicts(
    servers: Servers,
    other: Seq<char>,
    name: Seq<char>,
    spec: ServerSpecView,
)
    requires
        other != name,
        lookup(servers, other) == Some(spec),
    ensures
        conflicts(servers, name, spec),
{
    lemma_position(names(servers), other);
    let i = position(names(servers), other)->0;
    assert(servers[i].0 != name && servers[i].1.port == spec.port && servers[i].1.pod_selector
        == spec.pod_selector);
}

/// The servers of other namespaces do not count: a server is allowed in a
/// namespace that the index does not have, and two indexes with the same
/// servers in the namespace of the request give the same response.
pub proof fn lemma_other_namespaces_do_not_count(
    request: AdmissionRequestView,
    before: Seq<(Seq<char>, Servers)>,
    after: Seq<(Seq<char>, Servers)>,
)
    requires
        parsed_spec::<ServerSpec>(request) matches Ok(parsed) && servers_in(before, parsed.0) == servers_in(
            after,
            parsed.0,
        ),
    ensures
        server_response(request, before) == server_response(request, after),
        lookup(before, parsed_spec::<ServerSpec>(request)->Ok_0.0) is None ==> server_response(request, before)
            == AdmissionResponseView::from_request(request),
{
}

/// An object without a namespace is refused with the words for that,
/// whatever else it holds and whatever its kind is read as.
pub proof fn lemma_missing_namespace_is_refused<T: FromDocument>(
    request: AdmissionRequestView,
    index: Seq<(Seq<char>, Servers)>,
)
    requires
        request.object matches Some(object) && object.namespace is None,
    ensures
        parsed_spec::<T>(request) == Err::<(Seq<char>, Seq<char>, T::V), _>(ParseError::MissingNamespace),
        ParseError::MissingNamespace.spec_message() == NO_NAMESPACE@,
        !server_response(request, index).allowed,
        server_response(request, index).reason == Some(NO_NAMESPACE@),
        !authz_policy_response(request).allowed,
        authz_policy_response(request).reason == Some(NO_NAMESPACE@),
{
}

/// A response answers its request: it has the `uid`, the version and the
/// kind of the request.
pub proof fn lemma_response_names_request(request: AdmissionRequestView, index: Seq<(Seq<char>, Servers)>)
    ensures
        admission_response(request, index).uid == request.uid,
        admission_response(request, index).types == request.types,
{
}

/// A response that allows gives no reason, and one that refuses gives one.
pub proof fn lemma_refusal_says_why(request: AdmissionRequestView, index: Seq<(Seq<char>, Servers)>)
    ensures
        ({
            let response = admission_response(request, index);
            if response.allowed {
                response.reason is None && response.message is None
            } else {
                (response.reason is Some) != (response.message is Some)
            }
        }),
{
}

/// A resource whose type is not one of the policy resources is refused,
/// with a reason that begins with the words for that and ends with its
/// group, version and kind.
pub proof fn lemma_unsupported_type_is_refused(request: AdmissionRequestView, index: Seq<(Seq<char>, Servers)>)
    requires
        request.kind.group != GROUP@ || (request.kind.kind != AUTHORIZATION_POLICY_KIND@ && request.kind.kind
            != SERVER_KIND@),
    ensures
        !admission_response(request, index).allowed,
        admission_response(request, index).reason == Some(unsupported_text(request.kind)),
        UNSUPPORTED_TYPE@.is_prefix_of(unsupported_text(request.kind)),
{
    let text = unsupported_text(request.kind);
    assert(text.subrange(0, UNSUPPORTED_TYPE@.len() as int) =~= UNSUPPORTED_TYPE@);
}

/// The response to a request for an authorization policy does not depend
/// on the servers that were admitted.
pub proof fn lemma_authz_policy_ignores_index(
    request: AdmissionRequestView,
    before: Seq<(Seq<char>, Servers)>,
    after: Seq<(Seq<char>, Servers)>,
)
    requires
        request.kind.group == GROUP@,
        request.kind.kind == AUTHORIZATION_POLICY_KIND@,
    ensures
        admission_response(request, before) == admission_response(request, after),
        admission_response(request, before) == authz_policy_response(request),
{
}

} // verus!
