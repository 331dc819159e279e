//! The errors a build can end with.  A build either returns a complete,
//! fully-valid specification or exactly one of these; there are no partial
//! results.

use vstd::prelude::*;

use crate::coerce::PropType;

verus! {

/// The kind of configuration subtree in which a required field was missing.
#[derive(Clone, Copy, Debug, PartialEq, Eq, Structural)]
pub enum NodeKind {
    Command,
    Arg,
    Group,
}

/// Why a build failed: a required identifier was absent from its subtree, or
/// a present property value could not be coerced to the type it requires.
#[derive(Debug, PartialEq, Eq)]
pub enum BuildError {
    MissingField { field: String, node: NodeKind },
    TypeMismatch { property: String, expected: PropType },
}

/// The mathematical shape of a build error.
pub ghost enum ErrorModel {
    MissingField { field: Seq<char>, node: NodeKind },
    TypeMismatch { property: Seq<char>, expected: PropType },
}

impl View for BuildError {
    type V = ErrorModel;

    open spec fn view(&self) -> ErrorModel {
        match self {
            BuildError::MissingField { field, node } => ErrorModel::MissingField {
                field: field@,
                node: *node,
            },
            BuildError::TypeMismatch { property, expected } => ErrorModel::TypeMismatch {
                property: property@,
                expected: *expected,
            },
        }
    }
}

impl Clone for BuildError {
    fn clone(&self) -> (r: Self)
        ensures
            r == *self,
    {
        match self {
            BuildError::MissingField { field, node } => BuildError::MissingField {
                field: field.clone(),
                node: *node,
            },
            BuildError::TypeMismatch { property, expected } => BuildError::TypeMismatch {
                property: property.clone(),
                expected: *expected,
            },
        }
    }
}

impl BuildError {
    /// A short description of the error, for display by callers.
    pub fn describe(&self) -> (r: String)
        ensures
            self is MissingField ==> r@ == "missing required field: "@ + self->MissingField_field@,
            self is TypeMismatch ==> r@ == "property has an incompatible type: "@
                + self->TypeMismatch_property@,
    {
        match self {
            BuildError::MissingField { field, .. } => {
                let mut r = String::from_str("missing required field: ");
                r.append(field.as_str());
                r
            },
            BuildError::TypeMismatch { property, .. } => {
                let mut r = String::from_str("property has an incompatible type: ");
                r.append(property.as_str());
                r
            },
        }
    }
}

} // verus!
