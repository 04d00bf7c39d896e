//! Validation failures reported by the create-builders.
use vstd::prelude::*;
use vstd::string::StringExecFns;

verus! {

/// Dotted path of the one field an order needs before it can be created.
pub const BILLING_EMAIL: &'static str = "billing.email";

/// Why a create-builder refused to produce a request model.
#[derive(Clone, Copy, Debug, PartialEq, Eq)]
pub enum BuildError {
    /// A mandatory field was never supplied (or was supplied empty); carries
    /// the dotted path of that field.
    MissingRequiredField(&'static str),
}

impl BuildError {
    /// The dotted path of the field this error is about.
    pub open spec fn field(self) -> Seq<char> {
        match self {
            BuildError::MissingRequiredField(name) => name@,
        }
    }

    /// The text of `message`: a fixed prefix followed by the field's path.
    pub open spec fn message_text(self) -> Seq<char> {
        "missing required field: "@ + self.field()
    }

    /// The dotted path of the field this error is about.
    pub fn field_name(&self) -> (res: &'static str)
        ensures
            res@ == self.field(),
    {
        match self {
            BuildError::MissingRequiredField(name) => name,
        }
    }

    /// A sentence for people, naming the field.
    pub fn message(&self) -> (res: String)
        ensures
            res@ == self.message_text(),
    {
        String::from_str("missing required field: ").concat(self.field_name())
    }
}

} // verus!
