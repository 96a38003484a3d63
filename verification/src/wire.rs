//! Reviews as bytes: what comes in is read as JSON, what goes out is
//! written as JSON. Nothing in this file is proved.

use vstd::prelude::*;
use crate::document::Document;
use crate::review::{
    AdmissionRequest, AdmissionResponse, AdmissionResponseView, AdmissionReview, AdmissionReviewView,
    DynamicObject, GroupVersionKind, TypeMeta,
};

verus! {

/// `serde_json::Value`: a JSON value as `serde_json` holds it. Nothing is
/// claimed of what is inside.
#[verifier::external_type_specification]
#[verifier::external_body]
pub struct ExJsonValue(serde_json::Value);

/// The review that `body` holds as JSON, or the text of the error with
/// which `serde_json` refuses `body` as a review.
pub uninterp spec fn decoded_review(body: Seq<u8>) -> Result<AdmissionReviewView, Seq<char>>;

/// The JSON that `serde_json` writes for a review that holds `response`,
/// or the text of the error with which it writes none.
pub uninterp spec fn encoded_response(response: AdmissionResponseView) -> Result<Seq<u8>, Seq<char>>;

/// Copies a `serde_json::Value` into a document, variant by variant. A
/// number is copied as `serde_json::Number::as_u64` gives it. Nothing is
/// claimed of the copy.
#[verifier::external_body]
pub(crate) fn document_from_value(value: &serde_json::Value) -> (doc: Document) {
    match value {
        serde_json::Value::Null => Document::Null,
        serde_json::Value::Bool(flag) => Document::Bool(*flag),
        serde_json::Value::Number(number) => Document::Number(number.as_u64()),
        serde_json::Value::String(text) => Document::String(text.clone()),
        serde_json::Value::Array(items) => Document::Array(items.iter().map(document_from_value).collect()),
        serde_json::Value::Object(members) => Document::Object(
            members.iter().map(|(key, member)| (key.clone(), document_from_value(member))).collect(),
        ),
    }
}

/// Calls `serde_json::from_reader` to read `body` as a
/// `kube::core::admission::AdmissionReview` of a
/// `kube::core::DynamicObject`, and copies the fields that are judged; an
/// error is copied as its text. The request is copied as it was read,
/// without the version and kind of the review. The contract claims that the
/// outcome depends on `body` alone.
#[verifier::external_body]
pub(crate) fn decode_review(body: &[u8]) -> (decoded: Result<AdmissionReview, String>)
    ensures
        match decoded {
            Ok(review) => decoded_review(body@) == Ok::<_, Seq<char>>(review@),
            Err(text) => decoded_review(body@) == Err::<AdmissionReviewView, _>(text@),
        },
{
    let review = serde_json::from_reader::<_, kube::core::admission::AdmissionReview<kube::core::DynamicObject>>(body)
        .map_err(|error| error.to_string())?;
    let request = review.request.map(|request| AdmissionRequest {
        types: TypeMeta { api_version: String::new(), kind: String::new() },
        uid: request.uid,
        kind: GroupVersionKind { group: request.kind.group, version: request.kind.version, kind: request.kind.kind },
        object: request.object.map(|object| DynamicObject {
            name: object.metadata.name,
            namespace: object.metadata.namespace,
            data: document_from_value(&object.data),
        }),
    });
    Ok(AdmissionReview { types: TypeMeta { api_version: review.types.api_version, kind: review.types.kind }, request })
}

/// Calls `serde_json::to_vec` on a `kube::core::admission::AdmissionReview`
/// with the version and kind of `response`, no request, and a
/// `kube::core::admission::AdmissionResponse` with the `uid`, the decision,
/// the reason and the message of `response`; an error is copied as its
/// text. The contract claims that the outcome depends on what `response`
/// holds alone.
#[verifier::external_body]
pub(crate) fn encode_response(response: &AdmissionResponse) -> (encoded: Result<Vec<u8>, String>)
    ensures
        match encoded {
            Ok(bytes) => encoded_response(response@) == Ok::<_, Seq<char>>(bytes@),
            Err(text) => encoded_response(response@) == Err::<Seq<u8>, _>(text@),
        },
{
    let mut out = kube::core::admission::AdmissionResponse::invalid("");
    out.uid = response.uid.clone();
    out.allowed = response.allowed;
    out.result.reason = response.reason.clone();
    out.result.message = response.message.clone();
    let types = kube::core::TypeMeta { api_version: response.types.api_version.clone(), kind: response.types.kind.clone() };
    let review = kube::core::admission::AdmissionReview::<kube::core::DynamicObject> {
        types,
        request: None,
        response: Some(out),
    };
    serde_json::to_vec(&review).map_err(|error| error.to_string())
}

} // verus!
