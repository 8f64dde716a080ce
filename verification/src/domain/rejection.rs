//! Why a raw input was turned down.

use vstd::prelude::*;
use vstd::string::StringExecFns;

verus! {

/// The rule that an input broke.
#[derive(Debug, Clone, Copy, PartialEq, Eq, Structural)]
pub enum ValidationError {
    /// Nothing is left of the input once whitespace is trimmed.
    Empty,
    /// The input has more user-perceived characters than a name may have.
    TooLong,
    /// The input holds a character that a name may not hold.
    ForbiddenCharacter,
    /// The input does not have the shape of an email address.
    MalformedAddress,
}

/// The kind of value that an input was meant to become.
#[derive(Debug, Clone, Copy, PartialEq, Eq, Structural)]
pub enum Field {
    Name,
    Email,
}

/// A refused input: what it was meant to be, the rule it broke, and the
/// input itself, kept for diagnostics.
#[derive(Debug, Clone, PartialEq, Eq)]
pub struct Rejection {
    pub field: Field,
    pub reason: ValidationError,
    pub input: String,
}

/// What follows the input in the message of a rejection.
pub open spec fn message_tail(field: Field) -> Seq<char> {
    match field {
        Field::Name => " is not a valid subscriber name."@,
        Field::Email => " is not a valid subscriber email."@,
    }
}

impl Rejection {
    /// A sentence for the caller to show: the input, then what it failed to be.
    pub fn message(&self) -> (text: String)
        ensures
            text@ == self.input@ + message_tail(self.field),
    {
        let tail = match self.field {
            Field::Name => " is not a valid subscriber name.",
            Field::Email => " is not a valid subscriber email.",
        };
        self.input.clone().concat(tail)
    }
}

} // verus!
