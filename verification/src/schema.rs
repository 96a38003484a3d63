//! The ways in which a document can fail to be the `spec` of a policy
//! resource.

use vstd::prelude::*;
use vstd::string::*;

verus! {

/// A place in the `spec` of a policy resource.
#[derive(Clone, Copy, Debug, PartialEq, Eq, Structural)]
pub enum Field {
    /// The `spec` itself.
    Spec,
    TargetRef,
    Group,
    Kind,
    Name,
    Port,
    PodSelector,
    MatchLabels,
    MatchExpressions,
    Key,
    Operator,
    Values,
}

/// Why a document was refused as the `spec` of a policy resource.
#[derive(Clone, Copy, Debug, PartialEq, Eq, Structural)]
pub enum SchemaError {
    /// A field that must be there is not.
    Missing(Field),
    /// A field is there, with a value that it cannot have.
    Invalid(Field),
}

impl Field {
    /// The name of the field in a document.
    pub open spec fn spec_name(self) -> Seq<char> {
        match self {
            Field::Spec => "spec"@,
            Field::TargetRef => "targetRef"@,
            Field::Group => "group"@,
            Field::Kind => "kind"@,
            Field::Name => "name"@,
            Field::Port => "port"@,
            Field::PodSelector => "podSelector"@,
            Field::MatchLabels => "matchLabels"@,
            Field::MatchExpressions => "matchExpressions"@,
            Field::Key => "key"@,
            Field::Operator => "operator"@,
            Field::Values => "values"@,
        }
    }

    /// The name of the field in a document.
    pub fn name(self) -> (name: &'static str)
        ensures
            name@ == self.spec_name(),
    {
        match self {
            Field::Spec => "spec",
            Field::TargetRef => "targetRef",
            Field::Group => "group",
            Field::Kind => "kind",
            Field::Name => "name",
            Field::Port => "port",
            Field::PodSelector => "podSelector",
            Field::MatchLabels => "matchLabels",
            Field::MatchExpressions => "matchExpressions",
            Field::Key => "key",
            Field::Operator => "operator",
            Field::Values => "values",
        }
    }
}

impl SchemaError {
    /// The text of the error: it names the field between backquotes.
    pub open spec fn spec_message(self) -> Seq<char> {
        match self {
            SchemaError::Missing(field) => "missing field `"@ + field.spec_name() + "`"@,
            SchemaError::Invalid(field) => "invalid value for field `"@ + field.spec_name() + "`"@,
        }
    }

    /// The text of the error, as it is given to whoever asked for admission.
    pub fn message(self) -> (text: String)
        ensures
            text@ == self.spec_message(),
    {
        match self {
            SchemaError::Missing(field) => {
                let mut text = String::from_str("missing field `");
                text.append(field.name());
                text.append("`");
                text
            },
            SchemaError::Invalid(field) => {
                let mut text = String::from_str("invalid value for field `");
                text.append(field.name());
                text.append("`");
                text
            },
        }
    }
}

} // verus!
