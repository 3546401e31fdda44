//! What can go wrong while a recipe is loaded, bound and expanded.

use vstd::prelude::*;

verus! {

/// A definition or a template entry that is not well formed.
#[derive(Debug, Clone, Copy, PartialEq, Eq, Structural)]
pub enum SpecificationError {
    /// A specifier without a single character: no name can be taken from it.
    EmptySpecifier,
    /// A bracketed template entry that does not hold exactly one element; the
    /// number of elements it holds is given.
    MalformedReference(usize),
}

impl DeepView for SpecificationError {
    type V = SpecificationError;

    open spec fn deep_view(&self) -> SpecificationError {
        *self
    }
}

impl SpecificationError {
    /// The text of the message.
    pub open spec fn message(self) -> Seq<char> {
        match self {
            SpecificationError::EmptySpecifier => "Empty argument"@,
            SpecificationError::MalformedReference(found) => if found == 0 {
                "Expected a single argument, but got none"@
            } else {
                "Expected a single argument, but got multiple"@
            },
        }
    }

    /// Renders the error for the user.
    pub fn to_string(&self) -> (text: String)
        ensures
            text@ == self.message(),
    {
        match self {
            SpecificationError::EmptySpecifier => String::from_str("Empty argument"),
            SpecificationError::MalformedReference(found) => if *found == 0 {
                String::from_str("Expected a single argument, but got none")
            } else {
                String::from_str("Expected a single argument, but got multiple")
            },
        }
    }
}

/// Why a single argument could not take its tokens from the queue.
#[derive(Debug, Clone, Copy, PartialEq, Eq, Structural)]
pub enum BindingError {
    /// A required argument met an empty queue.
    MissingRequired,
    /// A required variadic argument met an empty queue.
    EmptyRequiredVariadic,
}

impl DeepView for BindingError {
    type V = BindingError;

    open spec fn deep_view(&self) -> BindingError {
        *self
    }
}

impl BindingError {
    /// The text of the message.
    pub open spec fn message(self) -> Seq<char> {
        match self {
            BindingError::MissingRequired => "Required argument not provided"@,
            BindingError::EmptyRequiredVariadic =>
                "Required variadic argument must contain at least one value"@,
        }
    }

    /// Renders the error for the user.
    pub fn to_string(&self) -> (text: String)
        ensures
            text@ == self.message(),
    {
        match self {
            BindingError::MissingRequired => String::from_str("Required argument not provided"),
            BindingError::EmptyRequiredVariadic => String::from_str(
                "Required variadic argument must contain at least one value",
            ),
        }
    }
}

/// The mathematical content of a `Result`: that of its value, or that of its error.
pub open spec fn outcome<T: DeepView, E: DeepView>(result: Result<T, E>) -> Result<T::V, E::V> {
    match result {
        Ok(value) => Ok(value.deep_view()),
        Err(error) => Err(error.deep_view()),
    }
}

} // verus!
