//! The admission review: the request that asks whether an object may be
//! stored, and the response that answers it.

use vstd::prelude::*;
use vstd::string::*;
use crate::document::{Document, DocumentView};

verus! {

/// The `kind` of every admission review.
pub const META_KIND: &'static str = "AdmissionReview";

/// The version that a response has when there is no request to take the
/// version from.
pub const META_API_VERSION_V1BETA1: &'static str = "admission.k8s.io/v1beta1";

/// Why a review holds no request to answer.
pub const CONVERT_ERROR: &'static str = "failed to convert AdmissionReview into AdmissionRequest";

/// What stands for a string that may be absent.
pub open spec fn optional_text(text: Option<String>) -> Option<Seq<char>> {
    match text {
        Some(text) => Some(text@),
        None => None,
    }
}

/// The version and the kind of a document of the API.
#[derive(Debug)]
pub struct TypeMeta {
    pub api_version: String,
    pub kind: String,
}

/// What a [`TypeMeta`] holds.
pub ghost struct TypeMetaView {
    pub api_version: Seq<char>,
    pub kind: Seq<char>,
}

impl View for TypeMeta {
    type V = TypeMetaView;

    open spec fn view(&self) -> TypeMetaView {
        TypeMetaView { api_version: self.api_version@, kind: self.kind@ }
    }
}

impl Clone for TypeMeta {
    fn clone(&self) -> (copy: TypeMeta)
        ensures
            copy@ == self@,
    {
        TypeMeta { api_version: self.api_version.clone(), kind: self.kind.clone() }
    }
}

/// The type of a resource.
#[derive(Debug)]
pub struct GroupVersionKind {
    pub group: String,
    pub version: String,
    pub kind: String,
}

/// What a [`GroupVersionKind`] holds.
pub ghost struct GroupVersionKindView {
    pub group: Seq<char>,
    pub version: Seq<char>,
    pub kind: Seq<char>,
}

impl View for GroupVersionKind {
    type V = GroupVersionKindView;

    open spec fn view(&self) -> GroupVersionKindView {
        GroupVersionKindView { group: self.group@, version: self.version@, kind: self.kind@ }
    }
}

/// An object of any kind: its name and namespace, where it has them, and
/// the rest of it as a document.
#[derive(Debug)]
pub struct DynamicObject {
    pub name: Option<String>,
    pub namespace: Option<String>,
    pub data: Document,
}

/// What a [`DynamicObject`] holds.
pub ghost struct DynamicObjectView {
    pub name: Option<Seq<char>>,
    pub namespace: Option<Seq<char>>,
    pub data: DocumentView,
}

impl View for DynamicObject {
    type V = DynamicObjectView;

    open spec fn view(&self) -> DynamicObjectView {
        DynamicObjectView {
            name: optional_text(self.name),
            namespace: optional_text(self.namespace),
            data: self.data@,
        }
    }
}

/// The question whether an object may be stored.
#[derive(Debug)]
pub struct AdmissionRequest {
    /// The version and kind of the review that held the request.
    pub types: TypeMeta,
    /// What tells this request from every other.
    pub uid: String,
    /// The type of the object.
    pub kind: GroupVersionKind,
    /// The object as it would be stored; none where the object is deleted.
    pub object: Option<DynamicObject>,
}

/// What an [`AdmissionRequest`] holds.
pub ghost struct AdmissionRequestView {
    pub types: TypeMetaView,
    pub uid: Seq<char>,
    pub kind: GroupVersionKindView,
    pub object: Option<DynamicObjectView>,
}

impl View for AdmissionRequest {
    type V = AdmissionRequestView;

    open spec fn view(&self) -> AdmissionRequestView {
        AdmissionRequestView {
            types: self.types@,
            uid: self.uid@,
            kind: self.kind@,
            object: match self.object {
                Some(object) => Some(object@),
                None => None,
            },
        }
    }
}

/// A review as it comes in: it holds a request, or nothing to answer.
#[derive(Debug)]
pub struct AdmissionReview {
    pub types: TypeMeta,
    pub request: Option<AdmissionRequest>,
}

/// What an [`AdmissionReview`] holds.
pub ghost struct AdmissionReviewView {
    pub types: TypeMetaView,
    pub request: Option<AdmissionRequestView>,
}

impl View for AdmissionReview {
    type V = AdmissionReviewView;

    open spec fn view(&self) -> AdmissionReviewView {
        AdmissionReviewView {
            types: self.types@,
            request: match self.request {
                Some(request) => Some(request@),
                None => None,
            },
        }
    }
}

impl AdmissionReviewView {
    /// The request of the review, with the version and kind of the review;
    /// none where the review holds no request.
    pub open spec fn request(self) -> Option<AdmissionRequestView> {
        match self.request {
            Some(request) => Some(AdmissionRequestView { types: self.types, ..request }),
            None => None,
        }
    }
}

/// A review that holds no request.
#[derive(Clone, Copy, Debug, PartialEq, Eq, Structural)]
pub struct ConvertAdmissionReviewError;

impl ConvertAdmissionReviewError {
    /// The text of the error.
    pub fn message(self) -> (text: String)
        ensures
            text@ == CONVERT_ERROR@,
    {
        String::from_str(CONVERT_ERROR)
    }
}

impl AdmissionReview {
    /// Takes the request out of the review, and gives it the version and
    /// kind of the review.
    pub fn into_request(self) -> (taken: Result<AdmissionRequest, ConvertAdmissionReviewError>)
        ensures
            match taken {
                Ok(request) => self@.request() == Some(request@),
                Err(_) => self@.request() is None,
            },
    {
        match self.request {
            Some(request) => Ok(
                AdmissionRequest {
                    types: self.types,
                    uid: request.uid,
                    kind: request.kind,
                    object: request.object,
                },
            ),
            None => Err(ConvertAdmissionReviewError),
        }
    }
}

/// The answer to a request.
#[derive(Debug)]
pub struct AdmissionResponse {
    /// The version and kind of the review that will hold the response.
    pub types: TypeMeta,
    /// The `uid` of the request that is answered; empty where none is.
    pub uid: String,
    /// Whether the object may be stored.
    pub allowed: bool,
    /// Why the request could not be judged.
    pub reason: Option<String>,
    /// Why the object may not be stored.
    pub message: Option<String>,
}

/// What an [`AdmissionResponse`] holds.
pub ghost struct AdmissionResponseView {
    pub types: TypeMetaView,
    pub uid: Seq<char>,
    pub allowed: bool,
    pub reason: Option<Seq<char>>,
    pub message: Option<Seq<char>>,
}

impl View for AdmissionResponse {
    type V = AdmissionResponseView;

    open spec fn view(&self) -> AdmissionResponseView {
        AdmissionResponseView {
            types: self.types@,
            uid: self.uid@,
            allowed: self.allowed,
            reason: optional_text(self.reason),
            message: optional_text(self.message),
        }
    }
}

impl AdmissionResponseView {
    /// The response that allows what `request` asks for.
    pub open spec fn from_request(request: AdmissionRequestView) -> AdmissionResponseView {
        AdmissionResponseView {
            types: request.types,
            uid: request.uid,
            allowed: true,
            reason: None,
            message: None,
        }
    }

    /// The response to what could not be read as a request.
    pub open spec fn invalid(reason: Seq<char>) -> AdmissionResponseView {
        AdmissionResponseView {
            types: TypeMetaView { api_version: META_API_VERSION_V1BETA1@, kind: META_KIND@ },
            uid: Seq::empty(),
            allowed: false,
            reason: Some(reason),
            message: None,
        }
    }

    /// The response that refuses the object.
    pub open spec fn deny(self, message: Seq<char>) -> AdmissionResponseView {
        AdmissionResponseView { allowed: false, message: Some(message), ..self }
    }

    /// The response that refuses a request that could not be judged.
    pub open spec fn invalidate(self, reason: Seq<char>) -> AdmissionResponseView {
        AdmissionResponseView { allowed: false, reason: Some(reason), ..self }
    }
}

impl AdmissionResponse {
    /// Allows what `request` asks for.
    pub fn from_request(request: &AdmissionRequest) -> (response: AdmissionResponse)
        ensures
            response@ == AdmissionResponseView::from_request(request@),
    {
        AdmissionResponse {
            types: request.types.clone(),
            uid: request.uid.clone(),
            allowed: true,
            reason: None,
            message: None,
        }
    }

    /// Answers what could not be read as a request: the response names no
    /// request, and has the oldest version of the review.
    pub fn invalid(reason: String) -> (response: AdmissionResponse)
        ensures
            response@ == AdmissionResponseView::invalid(reason@),
    {
        AdmissionResponse {
            types: TypeMeta {
                api_version: String::from_str(META_API_VERSION_V1BETA1),
                kind: String::from_str(META_KIND),
            },
            uid: String::new(),
            allowed: false,
            reason: Some(reason),
            message: None,
        }
    }

    /// Refuses the object, and says why.
    pub fn deny(self, message: String) -> (response: AdmissionResponse)
        ensures
            response@ == self@.deny(message@),
    {
        AdmissionResponse {
            types: self.types,
            uid: self.uid,
            allowed: false,
            reason: self.reason,
            message: Some(message),
        }
    }

    /// Refuses a request that could not be judged, and says why. The
    /// response still names the request.
    pub fn invalidate(self, reason: String) -> (response: AdmissionResponse)
        ensures
            response@ == self@.invalidate(reason@),
    {
        AdmissionResponse {
            types: self.types,
            uid: self.uid,
            allowed: false,
            reason: Some(reason),
            message: self.message,
        }
    }
}

} // verus!
