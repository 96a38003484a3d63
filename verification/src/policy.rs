//! The policy resources that are judged, and how their `spec` is read from a
//! document.

use vstd::prelude::*;
use vstd::std_specs::cmp::PartialEqSpecImpl;
use vstd::string::*;
use crate::document::{Document, DocumentView, optional_view};
use crate::labels::{Selector, SelectorView, decode_selector};
use crate::schema::{Field, SchemaError};

verus! {

/// The API group of the policy resources.
pub const GROUP: &'static str = "policy.example.io";

/// The kind of a server.
pub const SERVER_KIND: &'static str = "Server";

/// The kind of an authorization policy.
pub const AUTHORIZATION_POLICY_KIND: &'static str = "AuthorizationPolicy";

/// A type that is read from the `spec` of a resource.
pub trait FromDocument: View + Sized {
    /// What `doc` stands for, or why it stands for nothing of this type.
    spec fn decode(doc: DocumentView) -> Result<Self::V, SchemaError>;

    /// Reads a value from a document.
    fn from_document(doc: &Document) -> (read: Result<Self, SchemaError>)
        ensures
            match read {
                Ok(value) => Self::decode(doc@) == Ok::<_, SchemaError>(value@),
                Err(error) => Self::decode(doc@) == Err::<Self::V, _>(error),
            },
    ;
}

/// A port of a workload, by its number or by its name.
#[derive(Debug)]
pub enum Port {
    Number(u16),
    Name(String),
}

/// What a [`Port`] holds.
pub ghost enum PortView {
    Number(u16),
    Name(Seq<char>),
}

impl View for Port {
    type V = PortView;

    open spec fn view(&self) -> PortView {
        match self {
            Port::Number(number) => PortView::Number(*number),
            Port::Name(name) => PortView::Name(name@),
        }
    }
}

/// The port that a document stands for: a number from 0 to 65535, or a
/// name.
pub open spec fn decode_port(doc: DocumentView) -> Result<PortView, SchemaError> {
    match doc {
        DocumentView::Number(Some(number)) => if number <= u16::MAX {
            Ok(PortView::Number(number as u16))
        } else {
            Err(SchemaError::Invalid(Field::Port))
        },
        DocumentView::String(name) => Ok(PortView::Name(name)),
        _ => Err(SchemaError::Invalid(Field::Port)),
    }
}

/// Two ports are equal when they are written the same way. A number and a
/// name are never equal, whatever port the name stands for.
impl PartialEq for Port {
    fn eq(&self, other: &Port) -> (same: bool) {
        match (self, other) {
            (Port::Number(mine), Port::Number(theirs)) => *mine == *theirs,
            (Port::Name(mine), Port::Name(theirs)) => *mine == *theirs,
            _ => false,
        }
    }
}

impl PartialEqSpecImpl for Port {
    open spec fn obeys_eq_spec() -> bool {
        true
    }

    open spec fn eq_spec(&self, other: &Port) -> bool {
        self@ == other@
    }
}

impl Port {

    /// Reads a port from a document.
    pub fn from_document(doc: &Document) -> (read: Result<Port, SchemaError>)
        ensures
            match read {
                Ok(port) => decode_port(doc@) == Ok::<_, SchemaError>(port@),
                Err(error) => decode_port(doc@) == Err::<PortView, _>(error),
            },
    {
        match doc {
            Document::Number(Some(number)) => {
                if *number <= 65535 {
                    Ok(Port::Number(*number as u16))
                } else {
                    Err(SchemaError::Invalid(Field::Port))
                }
            },
            Document::String(name) => Ok(Port::Name(name.clone())),
            _ => Err(SchemaError::Invalid(Field::Port)),
        }
    }
}

/// What a server asks for: the workloads it selects and the port it takes
/// on them.
#[derive(Debug)]
pub struct ServerSpec {
    pub pod_selector: Selector,
    pub port: Port,
}

/// What a [`ServerSpec`] holds.
pub ghost struct ServerSpecView {
    pub pod_selector: SelectorView,
    pub port: PortView,
}

impl View for ServerSpec {
    type V = ServerSpecView;

    open spec fn view(&self) -> ServerSpecView {
        ServerSpecView { pod_selector: self.pod_selector@, port: self.port@ }
    }
}

/// The server that a document stands for: an object with the fields
/// `podSelector` and `port`, read in this order.
pub open spec fn decode_server_spec(doc: DocumentView) -> Result<ServerSpecView, SchemaError> {
    if !(doc is Object) {
        Err(SchemaError::Invalid(Field::Spec))
    } else {
        match doc.get("podSelector"@) {
            None => Err(SchemaError::Missing(Field::PodSelector)),
            Some(selector) => match decode_selector(selector) {
                Err(error) => Err(error),
                Ok(pod_selector) => match doc.get("port"@) {
                    None => Err(SchemaError::Missing(Field::Port)),
                    Some(port) => match decode_port(port) {
                        Err(error) => Err(error),
                        Ok(port) => Ok(ServerSpecView { pod_selector, port }),
                    },
                },
            },
        }
    }
}

/// Two servers are equal when they take the same port on the same selector,
/// both written the same way.
impl PartialEq for ServerSpec {
    fn eq(&self, other: &ServerSpec) -> (same: bool) {
        self.port == other.port && self.pod_selector == other.pod_selector
    }
}

impl PartialEqSpecImpl for ServerSpec {
    open spec fn obeys_eq_spec() -> bool {
        true
    }

    open spec fn eq_spec(&self, other: &ServerSpec) -> bool {
        self@ == other@
    }
}

impl FromDocument for ServerSpec {
    open spec fn decode(doc: DocumentView) -> Result<ServerSpecView, SchemaError> {
        decode_server_spec(doc)
    }

    fn from_document(doc: &Document) -> (read: Result<ServerSpec, SchemaError>) {
        match doc {
            Document::Object(_) => {},
            _ => {
                return Err(SchemaError::Invalid(Field::Spec));
            },
        }
        let pod_selector = match doc.get("podSelector") {
            None => {
                return Err(SchemaError::Missing(Field::PodSelector));
            },
            Some(selector) => match Selector::from_document(selector) {
                Err(error) => {
                    return Err(error);
                },
                Ok(pod_selector) => pod_selector,
            },
        };
        match doc.get("port") {
            None => Err(SchemaError::Missing(Field::Port)),
            Some(port) => match Port::from_document(port) {
                Err(error) => Err(error),
                Ok(port) => Ok(ServerSpec { pod_selector, port }),
            },
        }
    }
}

/// A reference to a resource in the namespace of the resource that holds
/// the reference.
#[derive(Debug)]
pub struct LocalTargetRef {
    pub group: Option<String>,
    pub kind: String,
    pub name: String,
}

/// What a [`LocalTargetRef`] holds.
pub ghost struct LocalTargetRefView {
    pub group: Option<Seq<char>>,
    pub kind: Seq<char>,
    pub name: Seq<char>,
}

impl View for LocalTargetRef {
    type V = LocalTargetRefView;

    open spec fn view(&self) -> LocalTargetRefView {
        LocalTargetRefView {
            group: match self.group {
                Some(group) => Some(group@),
                None => None,
            },
            kind: self.kind@,
            name: self.name@,
        }
    }
}

/// The reference that a document stands for: an object with a `group` that
/// is a string, null or absent, and with the strings `kind` and `name`,
/// read in this order.
pub open spec fn decode_target_ref(doc: DocumentView) -> Result<LocalTargetRefView, SchemaError> {
    if !(doc is Object) {
        Err(SchemaError::Invalid(Field::TargetRef))
    } else {
        match decode_optional_string(doc.get("group"@)) {
            None => Err(SchemaError::Invalid(Field::Group)),
            Some(group) => match doc.get("kind"@) {
                None => Err(SchemaError::Missing(Field::Kind)),
                Some(DocumentView::String(kind)) => match doc.get("name"@) {
                    None => Err(SchemaError::Missing(Field::Name)),
                    Some(DocumentView::String(name)) => Ok(LocalTargetRefView { group, kind, name }),
                    Some(_) => Err(SchemaError::Invalid(Field::Name)),
                },
                Some(_) => Err(SchemaError::Invalid(Field::Kind)),
            },
        }
    }
}

/// The string that a field stands for where it may be left out: none for a
/// field that is absent or null. `None` where the field is anything else
/// than a string.
pub open spec fn decode_optional_string(field: Option<DocumentView>) -> Option<Option<Seq<char>>> {
    match field {
        None => Some(None),
        Some(DocumentView::Null) => Some(None),
        Some(DocumentView::String(text)) => Some(Some(text)),
        Some(_) => None,
    }
}

impl LocalTargetRef {
    /// Reads a reference from a document.
    pub fn from_document(doc: &Document) -> (read: Result<LocalTargetRef, SchemaError>)
        ensures
            match read {
                Ok(target) => decode_target_ref(doc@) == Ok::<_, SchemaError>(target@),
                Err(error) => decode_target_ref(doc@) == Err::<LocalTargetRefView, _>(error),
            },
    {
        match doc {
            Document::Object(_) => {},
            _ => {
                return Err(SchemaError::Invalid(Field::TargetRef));
            },
        }
        let group = match doc.get("group") {
            None => None,
            Some(Document::Null) => None,
            Some(Document::String(group)) => Some(group.clone()),
            Some(_) => {
                return Err(SchemaError::Invalid(Field::Group));
            },
        };
        let kind = match doc.get("kind") {
            None => {
                return Err(SchemaError::Missing(Field::Kind));
            },
            Some(Document::String(kind)) => kind.clone(),
            Some(_) => {
                return Err(SchemaError::Invalid(Field::Kind));
            },
        };
        match doc.get("name") {
            None => Err(SchemaError::Missing(Field::Name)),
            Some(Document::String(name)) => Ok(LocalTargetRef { group, kind, name: name.clone() }),
            Some(_) => Err(SchemaError::Invalid(Field::Name)),
        }
    }
}

/// What an authorization policy asks for: the resource that it guards.
#[derive(Debug)]
pub struct AuthorizationPolicySpec {
    pub target_ref: LocalTargetRef,
}

/// What an [`AuthorizationPolicySpec`] holds.
pub ghost struct AuthorizationPolicySpecView {
    pub target_ref: LocalTargetRefView,
}

impl View for AuthorizationPolicySpec {
    type V = AuthorizationPolicySpecView;

    open spec fn view(&self) -> AuthorizationPolicySpecView {
        AuthorizationPolicySpecView { target_ref: self.target_ref@ }
    }
}

/// The authorization policy that a document stands for: an object with the
/// field `targetRef`.
pub open spec fn decode_authorization_policy_spec(doc: DocumentView) -> Result<
    AuthorizationPolicySpecView,
    SchemaError,
> {
    if !(doc is Object) {
        Err(SchemaError::Invalid(Field::Spec))
    } else {
        match doc.get("targetRef"@) {
            None => Err(SchemaError::Missing(Field::TargetRef)),
            Some(target) => match decode_target_ref(target) {
                Err(error) => Err(error),
                Ok(target_ref) => Ok(AuthorizationPolicySpecView { target_ref }),
            },
        }
    }
}

impl FromDocument for AuthorizationPolicySpec {
    open spec fn decode(doc: DocumentView) -> Result<AuthorizationPolicySpecView, SchemaError> {
        decode_authorization_policy_spec(doc)
    }

    fn from_document(doc: &Document) -> (read: Result<AuthorizationPolicySpec, SchemaError>) {
        match doc {
            Document::Object(_) => {},
            _ => {
                return Err(SchemaError::Invalid(Field::Spec));
            },
        }
        match doc.get("targetRef") {
            None => Err(SchemaError::Missing(Field::TargetRef)),
            Some(target) => match LocalTargetRef::from_document(target) {
                Err(error) => Err(error),
                Ok(target_ref) => Ok(AuthorizationPolicySpec { target_ref }),
            },
        }
    }
}

} // verus!
